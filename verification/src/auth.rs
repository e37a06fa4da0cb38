pub mod access_token;
pub mod auth;
