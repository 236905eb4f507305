pub mod base_product;
pub mod create_order;
pub mod create_profile;
pub mod create_store;
pub mod json;
pub mod moderate;
pub mod notifications;
pub mod resources;
pub mod roles;
pub mod visibility;
