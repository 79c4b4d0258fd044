use vstd::prelude::*;

verus! {

/// The ways in which a request to the service fails.
#[derive(Debug, Clone, Copy, PartialEq, Eq)]
pub enum AuthAPIError {
    MalformedRequest,
    InvalidCredentials,
    IncorrectCredentials,
    UserAlreadyExists,
    UnexpectedError,
    MissingToken,
    InvalidToken,
}

/// The HTTP status with which an error is answered.
pub open spec fn api_error_status(e: AuthAPIError) -> u16 {
    match e {
        AuthAPIError::MalformedRequest => 422,
        AuthAPIError::InvalidCredentials => 400,
        AuthAPIError::IncorrectCredentials => 401,
        AuthAPIError::UserAlreadyExists => 409,
        AuthAPIError::UnexpectedError => 500,
        AuthAPIError::MissingToken => 400,
        AuthAPIError::InvalidToken => 401,
    }
}

/// The text with which an error is answered.
pub open spec fn api_error_message(e: AuthAPIError) -> Seq<char> {
    match e {
        AuthAPIError::MalformedRequest => "Malformed request"@,
        AuthAPIError::InvalidCredentials => "Invalid credentials"@,
        AuthAPIError::IncorrectCredentials => "Incorrect credentials"@,
        AuthAPIError::UserAlreadyExists => "User already exists"@,
        AuthAPIError::UnexpectedError => "Unexpected error"@,
        AuthAPIError::MissingToken => "Missing token"@,
        AuthAPIError::InvalidToken => "Invalid token"@,
    }
}

/// The body of an error answer.
pub struct ErrorResponse {
    pub error: String,
}

impl AuthAPIError {
    /// The HTTP status and the body with which this error is answered.
    pub fn into_response(self) -> (r: (u16, ErrorResponse))
        ensures
            r.0 == api_error_status(self),
            r.1.error@ == api_error_message(self),
    {
        let (status, message) = match self {
            AuthAPIError::MalformedRequest => (422u16, "Malformed request"),
            AuthAPIError::InvalidCredentials => (400u16, "Invalid credentials"),
            AuthAPIError::IncorrectCredentials => (401u16, "Incorrect credentials"),
            AuthAPIError::UserAlreadyExists => (409u16, "User already exists"),
            AuthAPIError::UnexpectedError => (500u16, "Unexpected error"),
            AuthAPIError::MissingToken => (400u16, "Missing token"),
            AuthAPIError::InvalidToken => (401u16, "Invalid token"),
        };
        (status, ErrorResponse { error: String::from_str(message) })
    }
}

} // verus!
