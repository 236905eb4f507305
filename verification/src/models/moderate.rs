use vstd::prelude::*;

use crate::ids::{BaseProductId, ProductId, StoreId};
use crate::models::resources::ModerationStatus;

verus! {

/// A moderator's decision on a store.
#[derive(Clone, Copy, Debug, PartialEq, Eq, Structural)]
pub struct StoreModerate {
    pub store_id: StoreId,
    pub status: ModerationStatus,
}

/// A moderator's decision on a base product.
#[derive(Clone, Copy, Debug, PartialEq, Eq, Structural)]
pub struct BaseProductModerate {
    pub base_product_id: BaseProductId,
    pub status: ModerationStatus,
}

/// A base product as the stores microservice returns it: what the
/// coordinator reads, and the whole JSON object.
#[derive(Debug)]
pub struct BaseProduct {
    pub id: BaseProductId,
    pub store_id: StoreId,
    pub status: ModerationStatus,
    pub body: serde_json::Value,
}

/// A product (a variant of a base product) as the stores microservice
/// returns it: its id, and the whole JSON object.
#[derive(Debug)]
pub struct Product {
    pub id: ProductId,
    pub body: serde_json::Value,
}

/// The products to remove from every cart.
#[derive(Clone, Debug)]
pub struct DeleteProductsFromCartsPayload {
    pub product_ids: Vec<ProductId>,
}

/// The products whose delivery method is to be removed from every cart.
#[derive(Clone, Debug)]
pub struct DeleteDeliveryMethodFromCartsPayload {
    pub product_ids: Vec<ProductId>,
}

}
