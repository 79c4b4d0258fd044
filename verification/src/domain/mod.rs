pub mod email;
pub mod error;
pub mod password;
pub mod user;
