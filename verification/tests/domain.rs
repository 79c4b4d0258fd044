use auth_service::domain::email::Email;
use auth_service::domain::error::AuthAPIError;
use auth_service::domain::password::Password;
use auth_service::domain::user::User;
use auth_service::services::data_store::{LoginAttemptId, TwoFACode};
use auth_service::text::{contains_char, is_digit_string_of_len, utf8_len_at_least};

#[test]
fn test_email_parse() {
    let email = Email::parse("test@example.com".to_string()).unwrap();
    assert_eq!(email.as_ref(), "test@example.com");
}

#[test]
fn test_email_parse_invalid() {
    let result = Email::parse("invalid-email".to_string());
    assert!(result.is_err());

    let result = Email::parse("".to_string());
    assert!(result.is_err());
}

#[test]
fn test_password_parse() {
    let password = Password::parse("strongpassword".to_string()).unwrap();
    assert_eq!(password.as_ref(), "strongpassword");
}

#[test]
fn test_password_parse_invalid() {
    let result = Password::parse("short".to_string());
    assert!(result.is_err());
}

#[test]
fn email_parse_error_quotes_the_input() {
    match Email::parse("invalid-email".to_string()) {
        Err(m) => assert_eq!(m, "'invalid-email' is not a valid email address."),
        Ok(_) => panic!("accepted an address without @"),
    }
    match Email::parse("".to_string()) {
        Err(m) => assert_eq!(m, "'' is not a valid email address."),
        Ok(_) => panic!("accepted an empty address"),
    }
}

#[test]
fn email_with_only_an_at_sign_is_accepted() {
    let email = Email::parse("@".to_string()).unwrap();
    assert_eq!(email.as_ref(), "@");
}

#[test]
fn email_clone_keeps_the_text() {
    let email = Email::parse("a@b".to_string()).unwrap();
    assert_eq!(email.clone().as_ref(), "a@b");
}

#[test]
fn password_of_exactly_eight_bytes_is_accepted() {
    assert!(Password::parse("12345678".to_string()).is_ok());
    match Password::parse("1234567".to_string()) {
        Err(m) => assert_eq!(m, "Password must be at least 8 characters long"),
        Ok(_) => panic!("accepted a password of 7 bytes"),
    }
}

#[test]
fn password_length_counts_bytes_not_characters() {
    // four characters of two bytes each take eight bytes
    assert!(Password::parse("éééé".to_string()).is_ok());
    // three characters of two bytes each take six bytes
    assert!(Password::parse("ééé".to_string()).is_err());
}

#[test]
fn password_comparison_is_by_text() {
    let a = Password::parse("password1".to_string()).unwrap();
    let b = Password::parse("password1".to_string()).unwrap();
    let c = Password::parse("password2".to_string()).unwrap();
    assert!(a.same_text(&b));
    assert!(!a.same_text(&c));
}

#[test]
fn user_new_keeps_its_fields() {
    let email = Email::parse("user@example.com".to_string()).unwrap();
    let password = Password::parse("password123".to_string()).unwrap();
    let user = User::new(email, password, true);
    assert_eq!(user.email.as_ref(), "user@example.com");
    assert_eq!(user.password.as_ref(), "password123");
    assert!(user.requires_2fa);
}

#[test]
fn two_fa_code_parse_accepts_six_digits_only() {
    assert_eq!(TwoFACode::parse("123456".to_string()).unwrap().as_ref(), "123456");
    assert_eq!(TwoFACode::parse("000000".to_string()).unwrap().as_ref(), "000000");
    for bad in ["12345", "1234567", "12345a", "", "string", "١٢٣٤٥٦"] {
        match TwoFACode::parse(bad.to_string()) {
            Err(m) => assert_eq!(m, "Invalid 2FA code"),
            Ok(_) => panic!("accepted {}", bad),
        }
    }
}

#[test]
fn two_fa_code_from_number_pads_with_zeros() {
    assert_eq!(TwoFACode::from_number(0).as_ref(), "000000");
    assert_eq!(TwoFACode::from_number(42).as_ref(), "000042");
    assert_eq!(TwoFACode::from_number(123456).as_ref(), "123456");
    assert_eq!(TwoFACode::from_number(999999).as_ref(), "999999");
}

#[test]
fn two_fa_code_default_is_accepted_by_parse() {
    for _ in 0..50 {
        let code = TwoFACode::default();
        let again = TwoFACode::parse(code.as_ref().to_string()).unwrap();
        assert_eq!(again, code);
    }
}

#[test]
fn login_attempt_id_parse() {
    let id = LoginAttemptId::parse("550e8400-e29b-41d4-a716-446655440000".to_string()).unwrap();
    assert_eq!(id.as_ref(), "550e8400-e29b-41d4-a716-446655440000");
    assert!(LoginAttemptId::parse("string".to_string()).is_err());
    assert!(LoginAttemptId::parse("".to_string()).is_err());
    assert!(LoginAttemptId::parse("1".to_string()).is_err());
}

#[test]
fn login_attempt_id_parse_accepts_the_four_forms() {
    for good in [
        "67e5504410b1426f9247bb680e5fe0c8",
        "67E55044-10B1-426F-9247-BB680E5FE0C8",
        "{67e55044-10b1-426f-9247-bb680e5fe0c8}",
        "urn:uuid:67e55044-10b1-426f-9247-bb680e5fe0c8",
        "URN:UUID:67e55044-10b1-426f-9247-bb680e5fe0c8",
    ] {
        assert!(LoginAttemptId::parse(good.to_string()).is_ok(), "refused {}", good);
    }
    for bad in [
        "67e5504410b1426f9247bb680e5fe0cg",
        "67e55044-10b1-426f-9247_bb680e5fe0c8",
        "(67e55044-10b1-426f-9247-bb680e5fe0c8)",
        "urx:uuid:67e55044-10b1-426f-9247-bb680e5fe0c8",
        "67e55044-10b1-426f-9247-bb680e5fe0c",
    ] {
        assert!(LoginAttemptId::parse(bad.to_string()).is_err(), "accepted {}", bad);
    }
}

#[test]
fn login_attempt_id_default_is_a_lower_case_v4_uuid() {
    for _ in 0..20 {
        let id = LoginAttemptId::default();
        let text: Vec<char> = id.as_ref().chars().collect();
        assert_eq!(text.len(), 36);
        for (i, c) in text.iter().enumerate() {
            if i == 8 || i == 13 || i == 18 || i == 23 {
                assert_eq!(*c, '-');
            } else {
                assert!(c.is_ascii_digit() || ('a'..='f').contains(c));
            }
        }
        assert_eq!(text[14], '4');
        assert!(['8', '9', 'a', 'b'].contains(&text[19]));
    }
}

#[test]
fn login_attempt_id_parse_error_is_the_uuid_message() {
    match LoginAttemptId::parse("string".to_string()) {
        Err(m) => assert!(!m.is_empty()),
        Ok(_) => panic!("accepted a text that is no uuid"),
    }
}

#[test]
fn login_attempt_id_default_is_accepted_by_parse() {
    let a = LoginAttemptId::default();
    let b = LoginAttemptId::default();
    assert_ne!(a, b);
    let again = LoginAttemptId::parse(a.as_ref().to_string()).unwrap();
    assert_eq!(again, a);
    assert!(again.same_text(&a));
    assert!(!again.same_text(&b));
}

#[test]
fn error_statuses_and_messages() {
    let cases = [
        (AuthAPIError::MalformedRequest, 422, "Malformed request"),
        (AuthAPIError::InvalidCredentials, 400, "Invalid credentials"),
        (AuthAPIError::IncorrectCredentials, 401, "Incorrect credentials"),
        (AuthAPIError::UserAlreadyExists, 409, "User already exists"),
        (AuthAPIError::UnexpectedError, 500, "Unexpected error"),
        (AuthAPIError::MissingToken, 400, "Missing token"),
        (AuthAPIError::InvalidToken, 401, "Invalid token"),
    ];
    for (error, status, message) in cases {
        let (s, body) = error.into_response();
        assert_eq!(s, status);
        assert_eq!(body.error, message);
    }
}

#[test]
fn text_helpers() {
    assert!(contains_char("a@b", '@'));
    assert!(!contains_char("ab", '@'));
    assert!(utf8_len_at_least("abc", 3));
    assert!(!utf8_len_at_least("abc", 4));
    assert!(utf8_len_at_least("", 0));
    assert!(utf8_len_at_least("€", 3));
    assert!(is_digit_string_of_len("0123", 4));
    assert!(!is_digit_string_of_len("0123", 3));
    assert!(!is_digit_string_of_len("01x3", 4));
}
