pub mod account_create;
pub mod account_requests;
pub mod carts;
pub mod common;
pub mod coupons;
pub mod impls;
pub mod moderation;
pub mod notify;
pub mod order_create;
pub mod order_notify;
pub mod order_update;
pub mod store_create;
