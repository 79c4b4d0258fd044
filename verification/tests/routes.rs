use auth_service::domain::email::Email;
use auth_service::domain::error::AuthAPIError;
use auth_service::routes::{
    login, logout, signup, verify_2fa, verify_token, LoginRequest, LoginResponse,
    SignupRequest, Verify2FARequest, VerifyTokenRequest, two_factor_answer,
};
use auth_service::services::data_store::{BannedTokenStore, LoginAttemptId, TwoFACodeStore};
use auth_service::services::email_client::EmailClient;
use auth_service::services::hashmap_two_fa_code_store::HashmapTwoFACodeStore;
use auth_service::services::hashmap_user_store::HashmapUserStore;
use auth_service::services::hashset_banned_token_store::HashsetBannedTokenStore;
use auth_service::services::mock_email_client::MockEmailClient;

struct FailingEmailClient;

impl EmailClient for FailingEmailClient {
    fn send_email(&self, _recipient: &Email, _subject: &str, _content: &str) -> Result<(), String> {
        Err("mail server down".to_string())
    }
}

#[derive(Default)]
struct RecordingEmailClient {
    sent: std::sync::Mutex<Vec<(String, String, String)>>,
}

impl EmailClient for RecordingEmailClient {
    fn send_email(&self, recipient: &Email, subject: &str, content: &str) -> Result<(), String> {
        self.sent.lock().unwrap().push((recipient.as_ref().to_string(), subject.to_string(), content.to_string()));
        Ok(())
    }
}

fn signup_request(email: &str, password: &str, requires_2fa: bool) -> SignupRequest {
    SignupRequest { email: email.to_string(), password: password.to_string(), requires_2fa }
}

fn login_request(email: &str, password: &str) -> LoginRequest {
    LoginRequest { email: email.to_string(), password: password.to_string() }
}

fn status(r: AuthAPIError) -> u16 {
    r.into_response().0
}

#[test]
fn should_return_201_if_valid_input() {
    let mut users = HashmapUserStore::default();
    let response = signup(&mut users, signup_request("user@example.com", "securepassword", true)).unwrap();
    assert_eq!(response.status_code(), 201);
    assert_eq!(response.message, "User created successfully!");
}

#[test]
fn signup_should_return_400_if_invalid_input() {
    let mut users = HashmapUserStore::default();
    let cases = [
        ("", "securepassword"),
        ("invalidemail.com", "securepassword"),
        ("user@example.com", "short"),
    ];
    for (email, password) in cases {
        let error = signup(&mut users, signup_request(email, password, true)).err().unwrap();
        assert_eq!(error, AuthAPIError::InvalidCredentials);
        let (s, body) = error.into_response();
        assert_eq!(s, 400);
        assert_eq!(body.error, "Invalid credentials");
    }
}

#[test]
fn should_return_409_if_email_already_exists() {
    let mut users = HashmapUserStore::default();
    let first = signup(&mut users, signup_request("user@example.com", "securepassword", true)).unwrap();
    assert_eq!(first.status_code(), 201);
    assert_eq!(first.message, "User created successfully!");
    let error = signup(&mut users, signup_request("user@example.com", "securepassword", true)).err().unwrap();
    let (s, body) = error.into_response();
    assert_eq!(s, 409);
    assert_eq!(body.error, "User already exists");
}

#[test]
fn login_should_return_400_if_invalid_input() {
    let mut users = HashmapUserStore::default();
    let mut codes = HashmapTwoFACodeStore::default();
    signup(&mut users, signup_request("user@example.com", "password123", false)).unwrap();
    let cases = [("invalid-email", "password123"), ("user@example.com", "pass"), ("", "")];
    for (email, password) in cases {
        let error = login(&users, &mut codes, &MockEmailClient, login_request(email, password)).err().unwrap();
        assert_eq!(status(error), 400);
    }
}

#[test]
fn login_should_return_401_if_incorrect_credentials() {
    let mut users = HashmapUserStore::default();
    let mut codes = HashmapTwoFACodeStore::default();
    let created = signup(&mut users, signup_request("user@example.com", "password123", false)).unwrap();
    assert_eq!(created.status_code(), 201);
    let error = login(&users, &mut codes, &MockEmailClient, login_request("user@example.com", "wrongpassword")).err().unwrap();
    assert_eq!(error, AuthAPIError::IncorrectCredentials);
    assert_eq!(status(error), 401);
    let error = login(&users, &mut codes, &MockEmailClient, login_request("foo@example.com", "password123")).err().unwrap();
    assert_eq!(status(error), 401);
}

#[test]
fn login_returns_200_for_a_user_without_two_factor() {
    let mut users = HashmapUserStore::default();
    let mut codes = HashmapTwoFACodeStore::default();
    signup(&mut users, signup_request("user@example.com", "password123", false)).unwrap();
    let response = login(&users, &mut codes, &MockEmailClient, login_request("user@example.com", "password123")).unwrap();
    assert_eq!(response.status_code(), 200);
    match response {
        LoginResponse::RegularAuth { email } => assert_eq!(email.as_ref(), "user@example.com"),
        LoginResponse::TwoFactorAuth(_) => panic!("asked for a second factor"),
    }
    let email = Email::parse("user@example.com".to_string()).unwrap();
    assert!(codes.get_code(&email).is_err());
}

#[test]
fn login_returns_206_and_records_an_attempt_for_a_two_factor_user() {
    let mut users = HashmapUserStore::default();
    let mut codes = HashmapTwoFACodeStore::default();
    signup(&mut users, signup_request("user@example.com", "password123", true)).unwrap();
    let response = login(&users, &mut codes, &MockEmailClient, login_request("user@example.com", "password123")).unwrap();
    assert_eq!(response.status_code(), 206);
    let email = Email::parse("user@example.com".to_string()).unwrap();
    let (id, code) = codes.get_code(&email).unwrap();
    assert_eq!(code.as_ref().len(), 6);
    match response {
        LoginResponse::TwoFactorAuth(body) => {
            assert_eq!(body.message, "2FA required");
            assert_eq!(body.login_attempt_id, id.as_ref());
        }
        LoginResponse::RegularAuth { .. } => panic!("let a two-factor user in"),
    }
}

#[test]
fn login_fails_when_the_code_cannot_be_mailed_and_a_new_login_replaces_the_attempt() {
    let mut users = HashmapUserStore::default();
    let mut codes = HashmapTwoFACodeStore::default();
    signup(&mut users, signup_request("user@example.com", "password123", true)).unwrap();
    let error = login(&users, &mut codes, &FailingEmailClient, login_request("user@example.com", "password123")).err().unwrap();
    assert_eq!(status(error), 500);
    let email = Email::parse("user@example.com".to_string()).unwrap();
    let (first_id, _) = codes.get_code(&email).unwrap();
    // a second log-in replaces the pending attempt
    let response = login(&users, &mut codes, &MockEmailClient, login_request("user@example.com", "password123")).unwrap();
    assert_eq!(response.status_code(), 206);
    let (second_id, _) = codes.get_code(&email).unwrap();
    assert_ne!(first_id, second_id);
    match response {
        LoginResponse::TwoFactorAuth(body) => assert_eq!(body.login_attempt_id, second_id.as_ref()),
        LoginResponse::RegularAuth { .. } => panic!("let a two-factor user in"),
    }
}

#[test]
fn login_mails_the_recorded_code() {
    let mut users = HashmapUserStore::default();
    let mut codes = HashmapTwoFACodeStore::default();
    signup(&mut users, signup_request("user@example.com", "password123", true)).unwrap();
    let client = RecordingEmailClient::default();
    login(&users, &mut codes, &client, login_request("user@example.com", "password123")).unwrap();
    let email = Email::parse("user@example.com".to_string()).unwrap();
    let (_, code) = codes.get_code(&email).unwrap();
    let sent = client.sent.lock().unwrap();
    assert_eq!(sent.len(), 1);
    assert_eq!(sent[0], ("user@example.com".to_string(), "2FA Code".to_string(), code.as_ref().to_string()));
}

fn verify_request(email: &str, id: &str, code: &str) -> Verify2FARequest {
    Verify2FARequest {
        email: email.to_string(),
        login_attempt_id: id.to_string(),
        two_fa_code: code.to_string(),
    }
}

#[test]
fn verify_2fa_should_return_400_if_invalid_input() {
    let mut codes = HashmapTwoFACodeStore::default();
    let cases = [
        ("userexample.com", "string", "string"),
        ("user@example.com", "", "string"),
        ("user@example.com", "string", ""),
    ];
    for (email, id, code) in cases {
        let error = verify_2fa(&mut codes, verify_request(email, id, code)).err().unwrap();
        assert_eq!(status(error), 400);
    }
}

fn two_factor_login(users: &mut HashmapUserStore, codes: &mut HashmapTwoFACodeStore, email: &str) {
    let created = signup(users, signup_request(email, "password123", true)).unwrap();
    assert_eq!(created.status_code(), 201);
    let response = login(users, codes, &MockEmailClient, login_request(email, "password123")).unwrap();
    assert_eq!(response.status_code(), 206);
    match response {
        LoginResponse::TwoFactorAuth(body) => {
            assert_eq!(body.message, "2FA required");
            assert!(!body.login_attempt_id.is_empty());
        }
        LoginResponse::RegularAuth { .. } => panic!("let a two-factor user in"),
    }
}

#[test]
fn verify_2fa_should_return_401_if_incorrect_credentials() {
    let mut users = HashmapUserStore::default();
    let mut codes = HashmapTwoFACodeStore::default();
    two_factor_login(&mut users, &mut codes, "user@example.com");
    let email = Email::parse("user@example.com".to_string()).unwrap();
    let (_, code) = codes.get_code(&email).unwrap();
    let other_id = LoginAttemptId::default();
    let error = verify_2fa(&mut codes, verify_request("user@example.com", other_id.as_ref(), code.as_ref())).err().unwrap();
    assert_eq!(status(error), 401);
}

#[test]
fn should_return_200_if_correct_code() {
    let mut users = HashmapUserStore::default();
    let mut codes = HashmapTwoFACodeStore::default();
    two_factor_login(&mut users, &mut codes, "user@example.com");
    let email = Email::parse("user@example.com".to_string()).unwrap();
    let (id, code) = codes.get_code(&email).unwrap();
    let confirmed = verify_2fa(&mut codes, verify_request("user@example.com", id.as_ref(), code.as_ref())).unwrap();
    assert_eq!(confirmed.as_ref(), "user@example.com");
}

#[test]
fn should_return_401_if_same_code_twice() {
    let mut users = HashmapUserStore::default();
    let mut codes = HashmapTwoFACodeStore::default();
    two_factor_login(&mut users, &mut codes, "user@example.com");
    let email = Email::parse("user@example.com".to_string()).unwrap();
    let (id, code) = codes.get_code(&email).unwrap();
    assert!(verify_2fa(&mut codes, verify_request("user@example.com", id.as_ref(), code.as_ref())).is_ok());
    let error = verify_2fa(&mut codes, verify_request("user@example.com", id.as_ref(), code.as_ref())).err().unwrap();
    assert_eq!(error, AuthAPIError::IncorrectCredentials);
    assert_eq!(status(error), 401);
}

#[test]
fn verify_2fa_refuses_a_wrong_code() {
    let mut users = HashmapUserStore::default();
    let mut codes = HashmapTwoFACodeStore::default();
    two_factor_login(&mut users, &mut codes, "user@example.com");
    let email = Email::parse("user@example.com".to_string()).unwrap();
    let (id, code) = codes.get_code(&email).unwrap();
    let wrong = if code.as_ref() == "000000" { "111111" } else { "000000" };
    let error = verify_2fa(&mut codes, verify_request("user@example.com", id.as_ref(), wrong)).err().unwrap();
    assert_eq!(error, AuthAPIError::IncorrectCredentials);
    // the attempt is still pending and the right code still works
    assert!(verify_2fa(&mut codes, verify_request("user@example.com", id.as_ref(), code.as_ref())).is_ok());
}

fn login_without_two_factor(users: &mut HashmapUserStore, email: &str) {
    let mut codes = HashmapTwoFACodeStore::default();
    let created = signup(users, signup_request(email, "password123", false)).unwrap();
    assert_eq!(created.status_code(), 201);
    let response = login(users, &mut codes, &MockEmailClient, login_request(email, "password123")).unwrap();
    assert_eq!(response.status_code(), 200);
}

#[test]
fn should_return_400_if_jwt_cookie_missing() {
    let mut users = HashmapUserStore::default();
    let created = signup(&mut users, signup_request("user@example.com", "password123", false)).unwrap();
    assert_eq!(created.status_code(), 201);
    let mut banned = HashsetBannedTokenStore::default();
    let error = logout(&mut banned, None, true).err().unwrap();
    assert_eq!(error, AuthAPIError::MissingToken);
    assert_eq!(status(error), 400);
}

#[test]
fn logout_should_return_401_if_invalid_token() {
    let mut banned = HashsetBannedTokenStore::default();
    let error = logout(&mut banned, Some("invalid".to_string()), false).err().unwrap();
    assert_eq!(error, AuthAPIError::InvalidToken);
    assert_eq!(status(error), 401);
    assert_eq!(banned.check_token("invalid"), Ok(false));
}

#[test]
fn should_return_200_if_valid_jwt_cookie() {
    let mut users = HashmapUserStore::default();
    login_without_two_factor(&mut users, "user@example.com");
    let mut banned = HashsetBannedTokenStore::default();
    assert!(logout(&mut banned, Some("token-1".to_string()), true).is_ok());
    assert_eq!(banned.check_token("token-1"), Ok(true));
}

#[test]
fn should_return_400_if_logout_called_twice_in_a_row() {
    let mut users = HashmapUserStore::default();
    login_without_two_factor(&mut users, "user@example.com");
    let mut banned = HashsetBannedTokenStore::default();
    assert!(logout(&mut banned, Some("token-1".to_string()), true).is_ok());
    // the cookie is gone after the first log-out
    assert_eq!(status(logout(&mut banned, None, true).err().unwrap()), 400);
    // and the banned token is refused should it come back
    assert_eq!(logout(&mut banned, Some("token-1".to_string()), true).err(), Some(AuthAPIError::InvalidToken));
}

#[test]
fn should_return_200_if_valid_token() {
    let mut users = HashmapUserStore::default();
    login_without_two_factor(&mut users, "user@example.com");
    let banned = HashsetBannedTokenStore::default();
    assert!(verify_token(&banned, VerifyTokenRequest { token: "token-1".to_string() }, true).is_ok());
}

#[test]
fn verify_token_should_return_401_if_invalid_token() {
    let banned = HashsetBannedTokenStore::default();
    let error = verify_token(&banned, VerifyTokenRequest { token: "invalid".to_string() }, false).err().unwrap();
    assert_eq!(status(error), 401);
}

#[test]
fn should_return_401_if_banned_token() {
    let mut users = HashmapUserStore::default();
    login_without_two_factor(&mut users, "user@example.com");
    let mut banned = HashsetBannedTokenStore::default();
    banned.store_token("token-1").unwrap();
    let error = verify_token(&banned, VerifyTokenRequest { token: "token-1".to_string() }, true).err().unwrap();
    assert_eq!(error, AuthAPIError::InvalidToken);
    assert_eq!(status(error), 401);
}

#[test]
fn two_factor_answer_follows_the_mail() {
    let id = LoginAttemptId::default();
    match two_factor_answer(Ok(()), &id).ok().unwrap() {
        LoginResponse::TwoFactorAuth(body) => {
            assert_eq!(body.message, "2FA required");
            assert_eq!(body.login_attempt_id, id.as_ref());
        }
        LoginResponse::RegularAuth { .. } => panic!("let the user in"),
    }
    assert_eq!(
        two_factor_answer(Err("down".to_string()), &id).err(),
        Some(AuthAPIError::UnexpectedError)
    );
}
