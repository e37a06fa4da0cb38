pub mod customer_service;
pub mod message;
