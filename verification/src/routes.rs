//! The decisions behind the API's routes.
pub mod admin;
pub mod all;
pub mod doors;
pub mod users;
