//! Access control for a building's door buzzer: users, roles, auth tokens
//! and the decisions behind each API route.
pub mod auth;
pub mod config;
pub mod crypto;
pub mod db;
pub mod models;
pub mod responses;
pub mod routes;
pub mod serializers;
pub mod text;
pub mod utils;
