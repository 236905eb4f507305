use vstd::prelude::*;

use crate::ids::{RoleEntryId, RoleId, StoreId, UserId};

verus! {

#[derive(Clone, Copy, Debug, PartialEq, Eq, Structural)]
pub enum WarehouseRole {
    StoreManager,
}

#[derive(Clone, Copy, Debug, PartialEq, Eq, Structural)]
pub enum OrderRole {
    StoreManager,
}

#[derive(Clone, Copy, Debug, PartialEq, Eq, Structural)]
pub enum BillingRole {
    User,
    StoreManager,
}

#[derive(Clone, Copy, Debug, PartialEq, Eq, Structural)]
pub enum DeliveryRole {
    User,
    StoreManager,
}

#[derive(Clone, Copy, Debug, PartialEq, Eq, Structural)]
pub enum UsersRole {
    User,
}

#[derive(Clone, Copy, Debug, PartialEq, Eq, Structural)]
pub enum StoresRole {
    User,
    Moderator,
}

/// A role given to a user in a microservice, possibly bound to a store.
#[derive(Clone, Copy, Debug, PartialEq, Eq)]
pub struct NewRole<Role> {
    pub id: RoleId,
    pub user_id: UserId,
    pub name: Role,
    pub data: Option<StoreId>,
}

impl<Role> NewRole<Role> {
    pub fn new(id: RoleId, user_id: UserId, name: Role, data: Option<StoreId>) -> (r: Self)
        ensures
            r.id == id,
            r.user_id == user_id,
            r.name == name,
            r.data == data,
    {
        NewRole { id, user_id, name, data }
    }
}

/// A role entry of a microservice that keeps roles with a payload.
#[derive(Clone, Copy, Debug, PartialEq, Eq)]
pub struct RoleEntry<Payload> {
    pub id: RoleEntryId,
    pub user_id: UserId,
    pub role: Payload,
}

impl<Payload> RoleEntry<Payload> {
    pub fn new(id: RoleEntryId, user_id: UserId, role: Payload) -> (r: Self)
        ensures
            r.id == id,
            r.user_id == user_id,
            r.role == role,
    {
        RoleEntry { id, user_id, role }
    }
}

/// The role of a store's manager in the warehouses microservice.
#[derive(Clone, Copy, Debug, PartialEq, Eq, Structural)]
pub struct NewWarehouseRole {
    pub name: WarehouseRole,
    pub data: StoreId,
}

/// The role of a store's manager in the orders microservice.
#[derive(Clone, Copy, Debug, PartialEq, Eq, Structural)]
pub struct NewOrdersRole {
    pub name: OrderRole,
    pub data: StoreId,
}

}
