pub mod login;
pub mod logout;
pub mod signup;
pub mod verify_2fa;
pub mod verify_token;

pub use login::{LoginRequest, LoginResponse, TwoFactorAuthResponse, login, two_factor_answer};
pub use logout::{logout, validate_token};
pub use signup::{SignupRequest, SignupResponse, signup};
pub use verify_2fa::{Verify2FARequest, verify_2fa};
pub use verify_token::{VerifyTokenRequest, verify_token};
