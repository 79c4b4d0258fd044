# auth_service

An authentication service: users sign up with an e-mail address and a
password, log in (with an optional second factor: a six-digit code mailed to
them), log out, and have their session tokens checked.

- `src/` is the library, verified with Verus: the domain types (`Email`,
  `Password`, `User`, `LoginAttemptId`, `TwoFACode`), the in-memory stores of
  users, banned tokens and pending two-factor attempts, and what each request
  decides (`routes`). Each store's behaviour is stated as a function on its
  contents (`services::data_store`), and `laws` proves how the operations fit
  together.
- `app/` is the HTTP server around it: JSON, cookies, JWT signing, e-mail
  delivery through Postmark, configuration and the Postgres pool.
- `tests/` runs the library on concrete cases.
