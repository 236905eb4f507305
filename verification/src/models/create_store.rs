use vstd::prelude::*;

use crate::ids::{RoleEntryId, RoleId, StoreId, UserId};
use crate::models::resources::ModerationStatus;

verus! {

/// The states that a store's page goes through.
#[derive(Clone, Copy, Debug, PartialEq, Eq, Structural)]
pub enum Status {
    Draft,
    Moderation,
    Decline,
    Published,
}

/// A store as the stores microservice returns it: what the coordinator reads,
/// and the whole JSON object, which it hands on unchanged.
#[derive(Debug)]
pub struct Store {
    pub id: StoreId,
    pub user_id: UserId,
    pub status: ModerationStatus,
    pub email: Option<String>,
    pub country_code: Option<String>,
    pub body: serde_json::Value,
}

/// A store to be created, as the client sends it: its owner, and the whole
/// JSON object, which the coordinator hands on unchanged.
#[derive(Debug)]
pub struct NewStore {
    pub user_id: UserId,
    pub body: serde_json::Value,
}

/// The merchant that billing keeps for a store.
#[derive(Clone, Debug)]
pub struct CreateStoreMerchantPayload {
    pub id: StoreId,
    pub country_code: Option<String>,
}

/// The entries of the log of a store's creation: each step is logged when it
/// starts and again when it has succeeded.
#[derive(Clone, Copy, Debug, PartialEq, Eq, Structural)]
pub enum CreateStoreOperationStage {
    StoreCreationStart(UserId),
    StoreCreationComplete(StoreId),
    WarehousesRoleSetStart(RoleEntryId),
    WarehousesRoleSetComplete(RoleEntryId),
    OrdersRoleSetStart(RoleEntryId),
    OrdersRoleSetComplete(RoleEntryId),
    BillingRoleSetStart(RoleId),
    BillingRoleSetComplete(RoleId),
    DeliveryRoleSetStart(RoleId),
    DeliveryRoleSetComplete(RoleId),
    BillingCreateMerchantStart(StoreId),
    BillingCreateMerchantComplete(StoreId),
}

}
