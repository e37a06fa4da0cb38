pub mod app;
pub mod config;
pub mod h5;
pub mod jsapi;
pub mod native;
pub mod parse_encrypt;
pub mod pay_info;
pub mod refunds;
pub mod validate;
pub mod wechat;
