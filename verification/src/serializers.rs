//! Bodies of the API's responses and requests.
pub mod doors;
pub mod user;
