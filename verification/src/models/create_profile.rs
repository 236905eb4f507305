use vstd::prelude::*;

use crate::ids::{uuid_text, uuid_to_string, MerchantId, RoleId, SagaId, UserId};
use crate::models::resources::{Device, Project};
use crate::text::{cat, chars_equal, text_chars};

verus! {

#[derive(Clone, Copy, Debug, PartialEq, Eq, Structural)]
pub enum Gender {
    Male,
    Female,
    Undefined,
}

/// The way a user signs in.
/// The gender that a text names: `Male` and `Female` exactly, anything
/// else is undefined.
pub open spec fn gender_of_text(s: Seq<char>) -> Gender {
    if s == "Male"@ {
        Gender::Male
    } else if s == "Female"@ {
        Gender::Female
    } else {
        Gender::Undefined
    }
}

impl Gender {
    /// The gender that a text names.
    pub fn parse(s: &str) -> (r: Gender)
        ensures
            r == gender_of_text(s@),
    {
        let chars = text_chars(s);
        if chars_equal(&chars, "Male") {
            Gender::Male
        } else if chars_equal(&chars, "Female") {
            Gender::Female
        } else {
            Gender::Undefined
        }
    }
}

impl std::str::FromStr for Gender {
    type Err = ();

    fn from_str(s: &str) -> (r: Result<Gender, ()>)
        ensures
            r == Ok::<Gender, ()>(gender_of_text(s@)),
    {
        Ok(Gender::parse(s))
    }
}

#[derive(Clone, Copy, Debug, PartialEq, Eq, Structural)]
pub enum Provider {
    Google,
    Facebook,
    Email,
}

/// A user as the users microservice returns it: what the coordinator reads,
/// and the whole JSON object.
#[derive(Debug)]
pub struct User {
    pub id: UserId,
    pub email: String,
    pub first_name: Option<String>,
    pub last_name: Option<String>,
    pub is_blocked: bool,
    pub body: serde_json::Value,
}

/// A user's profile data as the client sends it; `saga_id` is set by the
/// coordinator. `birthdate` and `last_login_at` travel as their JSON text.
#[derive(Clone, Debug)]
pub struct NewUser {
    pub email: String,
    pub phone: Option<String>,
    pub first_name: Option<String>,
    pub last_name: Option<String>,
    pub middle_name: Option<String>,
    pub gender: Gender,
    pub birthdate: Option<String>,
    pub last_login_at: String,
    pub saga_id: SagaId,
}

/// The way a new user signs in; `saga_id` is set by the coordinator.
#[derive(Clone, Debug)]
pub struct NewIdentity {
    pub email: String,
    pub password: Option<String>,
    pub provider: Provider,
    pub saga_id: SagaId,
}

/// The name of a way to sign in, as it is written in texts.
pub open spec fn provider_text(p: Provider) -> Seq<char> {
    match p {
        Provider::Google => "Google"@,
        Provider::Facebook => "Facebook"@,
        Provider::Email => "Email"@,
    }
}

impl Provider {
    /// The name of a way to sign in, as it is written in texts.
    pub fn as_str(&self) -> (r: &'static str)
        ensures
            r@ == provider_text(*self),
    {
        match self {
            Provider::Google => "Google",
            Provider::Facebook => "Facebook",
            Provider::Email => "Email",
        }
    }
}

/// The text of an identity for the log: its address, way to sign in and
/// saga id, with the password masked.
pub open spec fn identity_text(i: NewIdentity) -> Seq<char> {
    "NewIdentity: \n        email: "@ + i.email@ + ",\n        password: '****',\n        provider: "@
        + provider_text(i.provider) + ",\n        saga_id: "@ + uuid_text(i.saga_id)
}

impl NewIdentity {
    /// The text of this identity for the log, with the password masked.
    pub fn to_string(&self) -> (r: String)
        ensures
            r@ == identity_text(*self),
    {
        let t = cat(String::new(), "NewIdentity: \n        email: ");
        let t = cat(t, self.email.as_str());
        let t = cat(t, ",\n        password: '****',\n        provider: ");
        let t = cat(t, self.provider.as_str());
        let t = cat(t, ",\n        saga_id: ");
        let id = uuid_to_string(self.saga_id);
        let t = cat(t, id.as_str());
        assert(t@ =~= identity_text(*self));
        t
    }
}

/// A request to create an account.
#[derive(Clone, Debug)]
pub struct SagaCreateProfile {
    pub user: Option<NewUser>,
    pub identity: NewIdentity,
    pub device: Option<Device>,
    pub project: Option<Project>,
}

/// The merchant that billing keeps for a user.
#[derive(Clone, Copy, Debug, PartialEq, Eq, Structural)]
pub struct CreateUserMerchantPayload {
    pub id: UserId,
}

#[derive(Clone, Copy, Debug, PartialEq, Eq, Structural)]
pub struct Merchant {
    pub merchant_id: MerchantId,
}

/// A request for a password reset.
#[derive(Clone, Debug)]
pub struct ResetRequest {
    pub email: String,
    pub device: Option<Device>,
    pub project: Option<Project>,
}

/// A request for an e-mail verification.
#[derive(Clone, Debug)]
pub struct VerifyRequest {
    pub email: String,
    pub device: Option<Device>,
    pub project: Option<Project>,
}

/// The token of an e-mail verification, sent back by the user.
#[derive(Clone, Debug)]
pub struct EmailVerifyApply {
    pub token: String,
    pub project: Option<Project>,
}

/// The token of a password reset and the new password, sent back by the user.
#[derive(Clone, Debug)]
pub struct PasswordResetApply {
    pub token: String,
    pub password: String,
    pub project: Option<Project>,
}

/// What the users microservice returns when a password reset is applied.
#[derive(Clone, Debug)]
pub struct ResetApplyToken {
    pub email: String,
    pub token: String,
}

/// What the users microservice returns when an e-mail verification is
/// applied.
#[derive(Debug)]
pub struct EmailVerifyApplyToken {
    pub user: User,
    pub token: String,
}

/// The entries of the log of an account's creation: each step is logged
/// when it starts and again when it has succeeded.
#[derive(Clone, Copy, Debug, PartialEq, Eq, Structural)]
pub enum CreateProfileOperationStage {
    AccountCreationStart(SagaId),
    AccountCreationComplete(SagaId),
    UsersRoleSetStart(RoleId),
    UsersRoleSetComplete(RoleId),
    StoreRoleSetStart(RoleId),
    StoreRoleSetComplete(RoleId),
    BillingRoleSetStart(RoleId),
    BillingRoleSetComplete(RoleId),
    DeliveryRoleSetStart(RoleId),
    DeliveryRoleSetComplete(RoleId),
    BillingCreateMerchantStart(UserId),
    BillingCreateMerchantComplete(UserId),
}

}
