use vstd::prelude::*;
use vstd::utf8::{encode_utf8, is_ascii_chars, is_ascii_chars_encode_utf8};
use vstd::arithmetic::div_mod::{lemma_div_denominator, lemma_fundamental_div_mod, lemma_small_mod};
use crate::text::{all_ascii_digits, is_ascii_digit_char, lemma_digits_utf8_len, lemma_encode_utf8_append};
use crate::domain::email::is_valid_email;
use crate::domain::password::{is_valid_password, short_password_message};
use crate::domain::email::invalid_email_message;
use crate::domain::error::{AuthAPIError, api_error_message, api_error_status};
use crate::routes::signup::signup_success_message;
use crate::routes::login::{two_fa_mail_subject, two_fa_required_message};
use crate::domain::user::User;
use crate::routes::login::login_well_formed;
use crate::routes::logout::token_is_good;
use crate::routes::signup::registers;
use crate::routes::verify_2fa::{attempt_matches, verify_2fa_well_formed};
use crate::services::data_store::{
    BannedTokenStoreError, LoginAttemptId, TwoFACode, TwoFACodeStoreError, UserStoreError,
    add_code_model, add_user_model, check_token_model, get_code_model, get_user_model,
    is_valid_two_fa_code, remove_code_model, store_token_model, is_uuid_text,
    validate_user_model, digit_char, six_digit_text, invalid_code_message,
};

verus! {

/// A user that was added is found again under its address.
pub proof fn lemma_added_user_is_found(users: Map<Seq<char>, User>, user: User)
    requires
        !users.contains_key(user.email@),
    ensures
        add_user_model(users, user).1 is Ok,
        get_user_model(add_user_model(users, user).0, user.email@) == Ok::<User, UserStoreError>(user),
{
}

/// An address is registered at most once: adding a second user under it is
/// refused and leaves the users as they were.
pub proof fn lemma_address_registered_once(users: Map<Seq<char>, User>, user: User)
    requires
        users.contains_key(user.email@),
    ensures
        add_user_model(users, user) == (users, Err::<(), UserStoreError>(UserStoreError::UserAlreadyExists)),
{
}

/// A user that was added passes the check with its own password, and fails it
/// with any other.
pub proof fn lemma_added_user_validates(users: Map<Seq<char>, User>, user: User, password: Seq<char>)
    requires
        !users.contains_key(user.email@),
    ensures
        validate_user_model(add_user_model(users, user).0, user.email@, user.password@) is Ok,
        password != user.password@ ==> validate_user_model(add_user_model(users, user).0, user.email@, password)
            == Err::<(), UserStoreError>(UserStoreError::InvalidCredentials),
{
}

/// An unknown address never passes the check.
pub proof fn lemma_unknown_address_fails(users: Map<Seq<char>, User>, email: Seq<char>, password: Seq<char>)
    requires
        !users.contains_key(email),
    ensures
        validate_user_model(users, email, password) == Err::<(), UserStoreError>(UserStoreError::UserNotFound),
{
}

/// After a successful sign-up, a log-in with the same address and password
/// passes the credential check, and the user's two-factor setting is the one
/// chosen at sign-up.
pub proof fn lemma_signup_then_login(
    before: Map<Seq<char>, User>,
    after: Map<Seq<char>, User>,
    email: Seq<char>,
    password: Seq<char>,
    requires_2fa: bool,
)
    requires
        is_valid_email(email),
        is_valid_password(password),
        registers(before, after, email, password, requires_2fa),
    ensures
        login_well_formed(email, password),
        validate_user_model(after, email, password) is Ok,
        after[email].requires_2fa == requires_2fa,
{
}

/// A token that was banned is reported as banned, and banning it again is
/// refused.
pub proof fn lemma_banned_token_is_reported(tokens: Set<Seq<char>>, token: Seq<char>)
    requires
        !tokens.contains(token),
    ensures
        store_token_model(tokens, token).1 is Ok,
        check_token_model(store_token_model(tokens, token).0, token) == Ok::<bool, BannedTokenStoreError>(true),
        store_token_model(store_token_model(tokens, token).0, token).1
            == Err::<(), BannedTokenStoreError>(BannedTokenStoreError::TokenAlreadyBanned),
{
}

/// Banning never lifts a ban: every token banned before stays banned.
pub proof fn lemma_bans_are_permanent(tokens: Set<Seq<char>>, token: Seq<char>, other: Seq<char>)
    requires
        tokens.contains(other),
    ensures
        store_token_model(tokens, token).0.contains(other),
{
}

/// After a log-out has banned a token, the token is no longer good, whatever
/// its signature says.
pub proof fn lemma_logged_out_token_is_refused(tokens: Set<Seq<char>>, token: Seq<char>, authentic: bool)
    ensures
        !token_is_good(tokens.insert(token), token, authentic),
{
}

/// An attempt that was recorded is found again; recording a second one for
/// the same address is refused.
pub proof fn lemma_recorded_attempt_is_found(
    codes: Map<Seq<char>, (LoginAttemptId, TwoFACode)>,
    email: Seq<char>,
    login_attempt_id: LoginAttemptId,
    code: TwoFACode,
    other_id: LoginAttemptId,
    other_code: TwoFACode,
)
    requires
        !codes.contains_key(email),
    ensures
        get_code_model(add_code_model(codes, email, login_attempt_id, code).0, email)
            == Ok::<(LoginAttemptId, TwoFACode), TwoFACodeStoreError>((login_attempt_id, code)),
        add_code_model(add_code_model(codes, email, login_attempt_id, code).0, email, other_id, other_code).1
            == Err::<(), TwoFACodeStoreError>(TwoFACodeStoreError::UnexpectedError),
{
}

/// An attempt that was removed is gone, and removing it again is refused.
pub proof fn lemma_removed_attempt_is_gone(codes: Map<Seq<char>, (LoginAttemptId, TwoFACode)>, email: Seq<char>)
    requires
        codes.contains_key(email),
    ensures
        get_code_model(remove_code_model(codes, email).0, email)
            == Err::<(LoginAttemptId, TwoFACode), TwoFACodeStoreError>(TwoFACodeStoreError::UnexpectedError),
        remove_code_model(remove_code_model(codes, email).0, email).1
            == Err::<(), TwoFACodeStoreError>(TwoFACodeStoreError::UnexpectedError),
{
}

/// The attempt that a log-in recorded is confirmed by its own identifier and
/// code; once confirmed (and so removed) the same confirmation no longer
/// matches, so a code serves once.
pub proof fn lemma_two_factor_round_trip(
    codes: Map<Seq<char>, (LoginAttemptId, TwoFACode)>,
    email: Seq<char>,
)
    requires
        is_valid_email(email),
        codes.contains_key(email),
        is_uuid_text(codes[email].0@),
        is_valid_two_fa_code(codes[email].1@),
    ensures
        verify_2fa_well_formed(email, codes[email].0@, codes[email].1@),
        attempt_matches(codes, email, codes[email].0@, codes[email].1@),
        !attempt_matches(codes.remove(email), email, codes[email].0@, codes[email].1@),
{
}

/// An address is accepted exactly when it is non-empty and holds an `@`;
/// nothing else about it matters.
pub proof fn lemma_email_accepted_iff_nonempty_with_at(s: Seq<char>)
    ensures
        is_valid_email(s) <==> (s.len() > 0 && exists|i: int| 0 <= i < s.len() && s[i] == '@'),
{
}

/// Whatever is added to an accepted address, it stays accepted; and any text
/// that begins with `@` is accepted.
pub proof fn lemma_email_acceptance_survives_extension(s: Seq<char>, t: Seq<char>)
    ensures
        is_valid_email(s) ==> is_valid_email(s + t) && is_valid_email(t + s),
        is_valid_email(seq!['@'] + t),
{
    if is_valid_email(s) {
        let i = choose|i: int| 0 <= i < s.len() && s[i] == '@';
        assert((s + t)[i] == '@');
        assert((t + s)[t.len() + i] == '@');
    }
    assert((seq!['@'] + t)[0] == '@');
}

/// A password is accepted exactly when its UTF-8 encoding takes at least 8
/// bytes; nothing else about it matters.
pub proof fn lemma_password_accepted_iff_eight_bytes(s: Seq<char>)
    ensures
        is_valid_password(s) <==> encode_utf8(s).len() >= 8,
{
}

/// For ASCII text, a password is accepted exactly when it has at least 8
/// characters, whatever those characters are.
pub proof fn lemma_ascii_password_accepted_iff_eight_chars(s: Seq<char>)
    requires
        is_ascii_chars(s),
    ensures
        is_valid_password(s) <==> s.len() >= 8,
{
    is_ascii_chars_encode_utf8(s);
}

/// Two passwords whose encodings take the same number of bytes are accepted
/// alike, and lengthening an accepted password keeps it accepted.
pub proof fn lemma_password_acceptance_depends_on_length_only(s: Seq<char>, t: Seq<char>)
    ensures
        encode_utf8(s).len() == encode_utf8(t).len() ==> (is_valid_password(s) <==> is_valid_password(t)),
        is_valid_password(s) ==> is_valid_password(s + t),
{
    lemma_encode_utf8_append(s, t);
}

/// The check of a token reports exactly whether it is banned, and never
/// fails: a token that is not banned is reported as not banned.
pub proof fn lemma_check_token_reports_membership(tokens: Set<Seq<char>>, token: Seq<char>)
    ensures
        check_token_model(tokens, token) == Ok::<bool, BannedTokenStoreError>(tokens.contains(token)),
        !tokens.contains(token) ==> check_token_model(tokens, token) == Ok::<bool, BannedTokenStoreError>(false),
        check_token_model(Set::<Seq<char>>::empty(), token) == Ok::<bool, BannedTokenStoreError>(false),
{
}

/// A code is accepted exactly when it is six characters, each an ASCII
/// digit; every such text is accepted, whichever digits it holds.
pub proof fn lemma_code_accepted_iff_six_digits(s: Seq<char>)
    ensures
        is_valid_two_fa_code(s) <==> (s.len() == 6 && forall|i: int| 0 <= i < s.len() ==> '0' <= #[trigger] s[i] <= '9'),
{
    if all_ascii_digits(s) {
        lemma_digits_utf8_len(s);
    }
}

/// `digit_char(d)` is the character of the decimal digit `d`.
pub proof fn lemma_digit_char_is_the_digit(d: int)
    requires
        0 <= d < 10,
    ensures
        digit_char(d) as int == '0' as int + d,
{
}

/// The six-digit text of `v` is six ASCII digits whose decimal value is `v`.
pub proof fn lemma_six_digit_text_spells_the_number(v: int)
    requires
        0 <= v < 1_000_000,
    ensures
        six_digit_text(v).len() == 6,
        is_valid_two_fa_code(six_digit_text(v)),
        ({
            let t = six_digit_text(v);
            (t[0] as int - '0' as int) * 100000 + (t[1] as int - '0' as int) * 10000
                + (t[2] as int - '0' as int) * 1000 + (t[3] as int - '0' as int) * 100
                + (t[4] as int - '0' as int) * 10 + (t[5] as int - '0' as int) == v
        }),
{
    let t = six_digit_text(v);
    lemma_digit_char_is_the_digit((v / 100000) % 10);
    lemma_digit_char_is_the_digit((v / 10000) % 10);
    lemma_digit_char_is_the_digit((v / 1000) % 10);
    lemma_digit_char_is_the_digit((v / 100) % 10);
    lemma_digit_char_is_the_digit((v / 10) % 10);
    lemma_digit_char_is_the_digit(v % 10);
    assert(t[0] as int - '0' as int == (v / 100000) % 10);
    assert(t[1] as int - '0' as int == (v / 10000) % 10);
    assert(t[2] as int - '0' as int == (v / 1000) % 10);
    assert(t[3] as int - '0' as int == (v / 100) % 10);
    assert(t[4] as int - '0' as int == (v / 10) % 10);
    assert(t[5] as int - '0' as int == v % 10);
    lemma_decimal_digits(v);
    assert forall|i: int| 0 <= i < t.len() implies is_ascii_digit_char(#[trigger] t[i]) by {}
    lemma_digits_utf8_len(t);
}

/// A number below a million is the sum of its six decimal digits times their
/// place values.
proof fn lemma_decimal_digits(v: int)
    requires
        0 <= v < 1_000_000,
    ensures
        ((v / 100000) % 10) * 100000 + ((v / 10000) % 10) * 10000 + ((v / 1000) % 10) * 1000
            + ((v / 100) % 10) * 100 + ((v / 10) % 10) * 10 + v % 10 == v,
{
    let q1 = v / 10;
    let q2 = q1 / 10;
    let q3 = q2 / 10;
    let q4 = q3 / 10;
    let q5 = q4 / 10;
    lemma_fundamental_div_mod(v, 10);
    lemma_fundamental_div_mod(q1, 10);
    lemma_fundamental_div_mod(q2, 10);
    lemma_fundamental_div_mod(q3, 10);
    lemma_fundamental_div_mod(q4, 10);
    lemma_div_denominator(v, 10, 10);
    lemma_div_denominator(v, 100, 10);
    lemma_div_denominator(v, 1000, 10);
    lemma_div_denominator(v, 10000, 10);
    assert(q2 == v / 100);
    assert(q3 == v / 1000);
    assert(q4 == v / 10000);
    assert(q5 == v / 100000);
    assert(q5 < 10);
    lemma_small_mod(q5 as nat, 10);
}

/// A confirmation is well-formed exactly when the address is non-empty and
/// holds an `@`, the attempt identifier is a text that `uuid` accepts, and
/// the code is six ASCII digits; a code of any other shape makes it
/// ill-formed.
pub proof fn lemma_confirmation_well_formed_iff_fields(email: Seq<char>, login_attempt_id: Seq<char>, code: Seq<char>)
    ensures
        verify_2fa_well_formed(email, login_attempt_id, code) <==> {
            &&& email.len() > 0 && exists|i: int| 0 <= i < email.len() && email[i] == '@'
            &&& is_uuid_text(login_attempt_id)
            &&& code.len() == 6 && forall|i: int| 0 <= i < code.len() ==> '0' <= #[trigger] code[i] <= '9'
        },
        !(code.len() == 6 && forall|i: int| 0 <= i < code.len() ==> '0' <= #[trigger] code[i] <= '9')
            ==> !verify_2fa_well_formed(email, login_attempt_id, code),
{
    lemma_code_accepted_iff_six_digits(code);
}

/// Adding a user records it under its address exactly when the address is
/// free, and otherwise refuses with `UserAlreadyExists` and changes nothing.
pub proof fn lemma_add_user_outcome(users: Map<Seq<char>, User>, user: User)
    ensures
        !users.contains_key(user.email@) ==> add_user_model(users, user)
            == (users.insert(user.email@, user), Ok::<(), UserStoreError>(())),
        users.contains_key(user.email@) ==> add_user_model(users, user)
            == (users, Err::<(), UserStoreError>(UserStoreError::UserAlreadyExists)),
{
}

/// Looking a user up gives the user kept under the address, or
/// `UserNotFound` when there is none.
pub proof fn lemma_get_user_outcome(users: Map<Seq<char>, User>, email: Seq<char>)
    ensures
        users.contains_key(email) ==> get_user_model(users, email) == Ok::<User, UserStoreError>(users[email]),
        !users.contains_key(email) ==> get_user_model(users, email)
            == Err::<User, UserStoreError>(UserStoreError::UserNotFound),
{
}

/// The password check passes exactly when a user is kept under the address
/// with that password; a wrong password gives `InvalidCredentials` and an
/// unknown address `UserNotFound`.
pub proof fn lemma_validate_user_outcome(users: Map<Seq<char>, User>, email: Seq<char>, password: Seq<char>)
    ensures
        validate_user_model(users, email, password) is Ok
            <==> (users.contains_key(email) && users[email].password@ == password),
        users.contains_key(email) && users[email].password@ != password ==> validate_user_model(users, email, password)
            == Err::<(), UserStoreError>(UserStoreError::InvalidCredentials),
        !users.contains_key(email) ==> validate_user_model(users, email, password)
            == Err::<(), UserStoreError>(UserStoreError::UserNotFound),
{
}

/// Banning a token adds it exactly when it is not banned yet, and otherwise
/// refuses with `TokenAlreadyBanned` and changes nothing.
pub proof fn lemma_store_token_outcome(tokens: Set<Seq<char>>, token: Seq<char>)
    ensures
        !tokens.contains(token) ==> store_token_model(tokens, token)
            == (tokens.insert(token), Ok::<(), BannedTokenStoreError>(())),
        tokens.contains(token) ==> store_token_model(tokens, token)
            == (tokens, Err::<(), BannedTokenStoreError>(BannedTokenStoreError::TokenAlreadyBanned)),
{
}

/// Recording an attempt succeeds exactly when none is pending for the
/// address; removing succeeds exactly when one is; looking up gives the
/// pending attempt. Each refusal is `UnexpectedError` and changes nothing.
pub proof fn lemma_code_store_outcomes(
    codes: Map<Seq<char>, (LoginAttemptId, TwoFACode)>,
    email: Seq<char>,
    login_attempt_id: LoginAttemptId,
    code: TwoFACode,
)
    ensures
        !codes.contains_key(email) ==> add_code_model(codes, email, login_attempt_id, code)
            == (codes.insert(email, (login_attempt_id, code)), Ok::<(), TwoFACodeStoreError>(())),
        codes.contains_key(email) ==> add_code_model(codes, email, login_attempt_id, code)
            == (codes, Err::<(), TwoFACodeStoreError>(TwoFACodeStoreError::UnexpectedError)),
        codes.contains_key(email) ==> remove_code_model(codes, email)
            == (codes.remove(email), Ok::<(), TwoFACodeStoreError>(())),
        !codes.contains_key(email) ==> remove_code_model(codes, email)
            == (codes, Err::<(), TwoFACodeStoreError>(TwoFACodeStoreError::UnexpectedError)),
        codes.contains_key(email) ==> get_code_model(codes, email)
            == Ok::<(LoginAttemptId, TwoFACode), TwoFACodeStoreError>(codes[email]),
        !codes.contains_key(email) ==> get_code_model(codes, email)
            == Err::<(LoginAttemptId, TwoFACode), TwoFACodeStoreError>(TwoFACodeStoreError::UnexpectedError),
{
}

/// A token is good exactly when its signature and expiry passed and it is
/// not banned.
pub proof fn lemma_token_good_iff_authentic_and_not_banned(tokens: Set<Seq<char>>, token: Seq<char>, authentic: bool)
    ensures
        token_is_good(tokens, token, authentic) <==> (authentic && !tokens.contains(token)),
{
}

/// Log-in credentials are well-formed exactly when the password takes at
/// least 8 bytes and the address is non-empty and holds an `@`.
pub proof fn lemma_login_well_formed_iff_fields(email: Seq<char>, password: Seq<char>)
    ensures
        login_well_formed(email, password) <==> (encode_utf8(password).len() >= 8 && email.len() > 0
            && exists|i: int| 0 <= i < email.len() && email[i] == '@'),
{
}

/// A confirmation matches exactly when an attempt is pending for the address
/// with the given identifier and code.
pub proof fn lemma_attempt_matches_iff_pending(
    codes: Map<Seq<char>, (LoginAttemptId, TwoFACode)>,
    email: Seq<char>,
    login_attempt_id: Seq<char>,
    code: Seq<char>,
)
    ensures
        attempt_matches(codes, email, login_attempt_id, code) <==> (codes.contains_key(email)
            && codes[email].0@ == login_attempt_id && codes[email].1@ == code),
{
}

/// The status with which each error is answered: 422 for a malformed
/// request, 400 for invalid credentials or a missing token, 401 for incorrect
/// credentials or an invalid token, 409 for a taken address, 500 otherwise.
pub proof fn lemma_error_statuses()
    ensures
        api_error_status(AuthAPIError::MalformedRequest) == 422,
        api_error_status(AuthAPIError::InvalidCredentials) == 400,
        api_error_status(AuthAPIError::IncorrectCredentials) == 401,
        api_error_status(AuthAPIError::UserAlreadyExists) == 409,
        api_error_status(AuthAPIError::UnexpectedError) == 500,
        api_error_status(AuthAPIError::MissingToken) == 400,
        api_error_status(AuthAPIError::InvalidToken) == 401,
{
}

/// The texts with which the service answers.
pub proof fn lemma_answer_texts(s: Seq<char>)
    ensures
        api_error_message(AuthAPIError::MalformedRequest) == "Malformed request"@,
        api_error_message(AuthAPIError::InvalidCredentials) == "Invalid credentials"@,
        api_error_message(AuthAPIError::IncorrectCredentials) == "Incorrect credentials"@,
        api_error_message(AuthAPIError::UserAlreadyExists) == "User already exists"@,
        api_error_message(AuthAPIError::UnexpectedError) == "Unexpected error"@,
        api_error_message(AuthAPIError::MissingToken) == "Missing token"@,
        api_error_message(AuthAPIError::InvalidToken) == "Invalid token"@,
        signup_success_message() == "User created successfully!"@,
        two_fa_required_message() == "2FA required"@,
        two_fa_mail_subject() == "2FA Code"@,
        short_password_message() == "Password must be at least 8 characters long"@,
        invalid_code_message() == "Invalid 2FA code"@,
        invalid_email_message(s) == "'"@ + s + "' is not a valid email address."@,
{
}

} // verus!
