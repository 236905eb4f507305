use vstd::prelude::*;

use crate::ids::UserId;
use crate::models::resources::ModerationStatus;

verus! {

/// The addressee of an e-mail.
#[derive(Clone, Debug)]
pub struct EmailUser {
    pub email: String,
    pub first_name: String,
    pub last_name: String,
}

#[derive(Clone, Debug)]
pub struct EmailVerificationForUser {
    pub user: EmailUser,
    pub verify_email_path: String,
    pub token: String,
}

#[derive(Clone, Debug)]
pub struct ApplyEmailVerificationForUser {
    pub user: EmailUser,
}

#[derive(Clone, Debug)]
pub struct PasswordResetForUser {
    pub user: EmailUser,
    pub reset_password_path: String,
    pub token: String,
}

#[derive(Clone, Debug)]
pub struct ApplyPasswordResetForUser {
    pub user: EmailUser,
    pub cluster_url: String,
}

#[derive(Clone, Debug)]
pub struct OrderCreateForUser {
    pub user: EmailUser,
    pub order_slug: String,
    pub cluster_url: String,
}

#[derive(Clone, Debug)]
pub struct OrderCreateForStore {
    pub store_email: String,
    pub store_id: String,
    pub order_slug: String,
    pub cluster_url: String,
}

#[derive(Clone, Debug)]
pub struct OrderUpdateStateForUser {
    pub user: EmailUser,
    pub order_slug: String,
    pub order_state: String,
    pub cluster_url: String,
}

#[derive(Clone, Debug)]
pub struct OrderUpdateStateForStore {
    pub store_email: String,
    pub store_id: String,
    pub order_slug: String,
    pub order_state: String,
    pub cluster_url: String,
}

#[derive(Clone, Debug)]
pub struct StoreModerationStatusForUser {
    pub store_email: String,
    pub store_id: String,
    pub cluster_url: String,
    pub status: ModerationStatus,
}

#[derive(Clone, Debug)]
pub struct BaseProductModerationStatusForUser {
    pub store_email: String,
    pub store_id: String,
    pub base_product_id: String,
    pub cluster_url: String,
    pub status: ModerationStatus,
}

#[derive(Clone, Debug)]
pub struct StoreModerationStatusForModerator {
    pub user: EmailUser,
    pub store_id: String,
    pub cluster_url: String,
    pub status: ModerationStatus,
}

#[derive(Clone, Debug)]
pub struct BaseProductModerationStatusForModerator {
    pub user: EmailUser,
    pub store_id: String,
    pub base_product_id: String,
    pub cluster_url: String,
    pub status: ModerationStatus,
}

/// A new contact in Emarsys, the mailing service.
#[derive(Clone, Debug)]
pub struct CreateEmarsysContactPayload {
    pub user_id: UserId,
    pub email: String,
}

/// The contact that Emarsys created.
#[derive(Clone, Copy, Debug, PartialEq, Eq, Structural)]
pub struct CreatedEmarsysContact {
    pub user_id: UserId,
    pub emarsys_id: i32,
}

}
