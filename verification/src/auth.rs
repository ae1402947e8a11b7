//! Authentication: tokens, request guards and the admin cookie.
pub mod admin;
pub mod cookie;
pub mod token;
pub mod user;

pub use token::{ApiKeyError, Auth, AuthQ};
