pub mod auth;
pub mod canonical;
pub mod common;
pub mod constant;
pub mod errors;
pub mod json;
pub mod jsonval;
pub mod message;
pub mod model;
pub mod numfmt;
pub mod pay;
pub mod request;
pub mod template;
pub mod utils;
pub mod wire;

pub use errors::{RPayError, RPayResult};
