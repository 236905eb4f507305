//! The coordinator's services, each with the part of the configuration that
//! it needs: every request starts a saga, which names its first call.
use vstd::prelude::*;

use crate::config::Config;
use crate::http::{opt_text, Initiator};
use crate::ids::{BaseProductId, OrderId, OrderSlug, ProductId, StoreId};
use crate::microservice::{ApiCall, BillingCall, DeliveryCall, OrdersCall, ReplyKind, StoresCall, UsersCall};
use crate::models::create_order::{BillingOrdersVec, CreateOrderOperationStage, BuyNow, BuyNowPayload, ConvertCart, ConvertCartPayload, OrderIdentifier, OrderPaymentStateRequest};
use crate::models::create_profile::{
    CreateProfileOperationStage, EmailVerifyApply, NewIdentity, NewUser, PasswordResetApply, ResetRequest, SagaCreateProfile,
    VerifyRequest,
};
use crate::models::create_store::{CreateStoreOperationStage, NewStore};
use crate::models::moderate::{BaseProductModerate, StoreModerate};
use crate::models::resources::{CommitterRole, OrderState};
use crate::models::visibility::Visibility;
use crate::services::account_create::CreateAccountSaga;
use crate::services::account_requests::{by_email_call_ok, EmailVerifyApplySaga, LinkKind, LinkRequestSaga, PasswordResetApplySaga};
use crate::services::carts::{CartRemoval, CartsCleanupSaga, ProductsOf};
use crate::services::common::{Outcome, Step};
use crate::errors::Error;
use crate::services::moderation::{BaseProductModerationSaga, ModerationRequestSaga, StoreModerationSaga};
use crate::services::notify::{copy_text, link_path, same_urls};
use crate::services::order_create::{CreateOrderSaga, OrderSource};
use crate::services::order_notify::OrderFacts;
use crate::services::order_update::{
    get_reported_order_call, kept_reports, notified_ok, set_payment_state_call, OrdersNotified, SetStateSaga, UpdateOrdersSaga,
};
use crate::services::store_create::CreateStoreSaga;

verus! {

/// The fields whose refusals an update of shipping reads.
pub open spec fn shipping_fields() -> Seq<&'static str> {
    seq!["shipping"]
}

fn shipping_field_names() -> (r: &'static [&'static str])
    ensures
        r@ == shipping_fields(),
{
    let v: &'static [&'static str] = &["shipping"];
    assert(v@ =~= shipping_fields());
    v
}

/// The services on stores and the catalogue.
#[derive(Debug)]
pub struct StoreServiceImpl {
    cluster_url: String,
}

impl StoreServiceImpl {
    pub closed spec fn cluster_url(&self) -> Seq<char> {
        self.cluster_url@
    }

    pub fn new(config: &Config) -> (r: StoreServiceImpl)
        ensures
            r.cluster_url() == config.cluster.url@,
    {
        StoreServiceImpl { cluster_url: copy_text(&config.cluster.url) }
    }

    /// Creates a store with its roles and merchant (see `CreateStoreSaga`).
    pub fn create(&self, input: NewStore) -> (r: (CreateStoreSaga, ApiCall))
        ensures
            r.0.wf(),
            r.0.stage() == 0,
            r.0.owner() == input.user_id,
            r.0.log() == seq![CreateStoreOperationStage::StoreCreationStart(input.user_id)],
            r.1 == ApiCall::Stores(StoresCall::CreateStore { initiator: None, payload: input }),
    {
        CreateStoreSaga::start(input)
    }

    /// Applies a moderator's decision on a store (see `StoreModerationSaga`).
    pub fn set_store_moderation_status(&self, payload: StoreModerate) -> (r: (StoreModerationSaga, ApiCall))
        ensures
            r.0.wf(),
            r.0.stage() == 0,
            r.0.payload() == payload,
            r.0.cluster_url() == self.cluster_url(),
            r.1 == ApiCall::Stores(StoresCall::Get { store_id: payload.store_id, visibility: Visibility::Active }),
    {
        StoreModerationSaga::start(payload, copy_text(&self.cluster_url))
    }

    /// Sends a store to moderation and tells the moderators (see
    /// `ModerationRequestSaga`).
    pub fn send_to_moderation(&self, store_id: StoreId) -> (r: (ModerationRequestSaga, ApiCall))
        ensures
            r.0.wf(),
            r.0.stage() == 0,
            r.0.sent_kind() == ReplyKind::Store,
            r.0.cluster_url() == self.cluster_url(),
            r.1 == ApiCall::Stores(StoresCall::SendToModeration { store_id }),
    {
        ModerationRequestSaga::start_store(store_id, copy_text(&self.cluster_url))
    }

    /// Applies a moderator's decision on a base product (see
    /// `BaseProductModerationSaga`).
    pub fn set_moderation_status_base_product(&self, payload: BaseProductModerate) -> (r: (BaseProductModerationSaga, ApiCall))
        ensures
            r.0.wf(),
            r.0.stage() == 0,
            r.0.payload() == payload,
            r.0.cluster_url() == self.cluster_url(),
            r.1 == ApiCall::Stores(StoresCall::GetBaseProduct { base_product_id: payload.base_product_id, visibility: Visibility::Active }),
    {
        BaseProductModerationSaga::start(payload, copy_text(&self.cluster_url))
    }

    /// Sends a base product to moderation and tells the moderators (see
    /// `ModerationRequestSaga`).
    pub fn send_to_moderation_base_product(&self, base_product_id: BaseProductId) -> (r: (ModerationRequestSaga, ApiCall))
        ensures
            r.0.wf(),
            r.0.stage() == 0,
            r.0.sent_kind() == ReplyKind::BaseProduct,
            r.0.cluster_url() == self.cluster_url(),
            r.1 == ApiCall::Stores(StoresCall::SendToModerationBaseProduct { base_product_id }),
    {
        ModerationRequestSaga::start_base_product(base_product_id, copy_text(&self.cluster_url))
    }

    /// Deactivates a base product; its products leave every cart.
    pub fn deactivate_base_product(&self, base_product_id: BaseProductId) -> (r: (CartsCleanupSaga, ApiCall))
        ensures
            r.0.wf(),
            r.0.stage() == 0,
            r.0.products() == ProductsOf::BaseProduct(base_product_id),
            r.0.removal() == CartRemoval::Products,
            r.0.fields() is None,
            r.0.change_kind() == ReplyKind::BaseProduct,
            r.1 == ApiCall::Stores(StoresCall::DeactivateBaseProduct { initiator: None, base_product_id }),
    {
        CartsCleanupSaga::start(
            ApiCall::Stores(StoresCall::DeactivateBaseProduct { initiator: None, base_product_id }),
            ReplyKind::BaseProduct,
            ProductsOf::BaseProduct(base_product_id),
            CartRemoval::Products,
            None,
        )
    }

    /// Deactivates a store; its products leave every cart.
    pub fn deactivate_store(&self, store_id: StoreId) -> (r: (CartsCleanupSaga, ApiCall))
        ensures
            r.0.wf(),
            r.0.stage() == 0,
            r.0.products() == ProductsOf::Store(store_id),
            r.0.removal() == CartRemoval::Products,
            r.0.fields() is None,
            r.0.change_kind() == ReplyKind::Store,
            r.1 == ApiCall::Stores(StoresCall::DeactivateStore { initiator: None, store_id }),
    {
        CartsCleanupSaga::start(
            ApiCall::Stores(StoresCall::DeactivateStore { initiator: None, store_id }),
            ReplyKind::Store,
            ProductsOf::Store(store_id),
            CartRemoval::Products,
            None,
        )
    }

    /// Deactivates a product; it leaves every cart.
    pub fn deactivate_product(&self, product_id: ProductId) -> (r: (CartsCleanupSaga, ApiCall))
        ensures
            r.0.wf(),
            r.0.stage() == 0,
            r.0.products() == ProductsOf::Product(product_id),
            r.0.removal() == CartRemoval::Products,
            r.0.fields() is None,
            r.0.change_kind() == ReplyKind::Product,
            r.1 == ApiCall::Stores(StoresCall::DeactivateProduct { initiator: None, product_id }),
    {
        CartsCleanupSaga::start(
            ApiCall::Stores(StoresCall::DeactivateProduct { initiator: None, product_id }),
            ReplyKind::Product,
            ProductsOf::Product(product_id),
            CartRemoval::Products,
            None,
        )
    }

    /// Changes a base product (the JSON object `payload` goes unchanged to the
    /// stores microservice); its products leave every cart.
    pub fn update_base_product(&self, base_product_id: BaseProductId, payload: serde_json::Value) -> (r: (CartsCleanupSaga, ApiCall))
        ensures
            r.0.wf(),
            r.0.stage() == 0,
            r.0.products() == ProductsOf::BaseProduct(base_product_id),
            r.0.removal() == CartRemoval::Products,
            r.0.fields() is None,
            r.0.change_kind() == ReplyKind::BaseProduct,
            r.1 == ApiCall::Stores(StoresCall::UpdateBaseProduct { initiator: None, base_product_id, payload }),
    {
        CartsCleanupSaga::start(
            ApiCall::Stores(StoresCall::UpdateBaseProduct { initiator: None, base_product_id, payload }),
            ReplyKind::BaseProduct,
            ProductsOf::BaseProduct(base_product_id),
            CartRemoval::Products,
            None,
        )
    }
}

/// The service on shipping.
#[derive(Debug)]
pub struct DeliveryServiceImpl;

impl DeliveryServiceImpl {
    pub fn new() -> (r: DeliveryServiceImpl) {
        DeliveryServiceImpl
    }

    /// Sets the shipping of a base product (the JSON object `payload` goes
    /// unchanged to the delivery microservice); the delivery method of its
    /// products leaves every cart. Refusals are read for the field
    /// `shipping`.
    pub fn upsert_shipping(&self, base_product_id: BaseProductId, payload: serde_json::Value) -> (r: (CartsCleanupSaga, ApiCall))
        ensures
            r.0.wf(),
            r.0.stage() == 0,
            r.0.products() == ProductsOf::BaseProduct(base_product_id),
            r.0.removal() == CartRemoval::DeliveryMethod,
            r.0.fields() == Some(shipping_fields()),
            r.0.change_kind() == ReplyKind::Shipping,
            r.1 == ApiCall::Delivery(DeliveryCall::UpsertShipping { initiator: None, base_product_id, payload }),
    {
        CartsCleanupSaga::start(
            ApiCall::Delivery(DeliveryCall::UpsertShipping { initiator: None, base_product_id, payload }),
            ReplyKind::Shipping,
            ProductsOf::BaseProduct(base_product_id),
            CartRemoval::DeliveryMethod,
            Some(shipping_field_names()),
        )
    }
}

/// The services on accounts.
#[derive(Debug)]
pub struct AccountServiceImpl {
    config: Config,
}

impl AccountServiceImpl {
    pub closed spec fn config(&self) -> Config {
        self.config
    }

    pub fn new(config: Config) -> (r: AccountServiceImpl)
        ensures
            r.config() == config,
    {
        AccountServiceImpl { config }
    }

    /// Creates an account with its roles and merchant (see
    /// `CreateAccountSaga`).
    pub fn create(&self, input: SagaCreateProfile) -> (r: (CreateAccountSaga, ApiCall))
        ensures
            r.0.wf(),
            r.0.stage() == 0,
            r.0.provider() == input.identity.provider,
            r.0.device() == input.device,
            r.0.project() == input.project,
            same_urls(r.0.verify_email_urls(), self.config().notification_urls.verify_email),
            r.0.log() == seq![CreateProfileOperationStage::AccountCreationStart(r.0.saga_id())],
            r.1 == ApiCall::Users(UsersCall::CreateUser {
                initiator: Some(Initiator::Superadmin),
                payload: SagaCreateProfile {
                    user: match input.user {
                        Some(u) => Some(NewUser { saga_id: r.0.saga_id(), ..u }),
                        None => None,
                    },
                    identity: NewIdentity { saga_id: r.0.saga_id(), ..input.identity },
                    device: input.device,
                    project: input.project,
                },
            }),
    {
        CreateAccountSaga::start(input, &self.config)
    }

    /// Asks for a password reset (see `LinkRequestSaga`).
    pub fn request_password_reset(&self, input: ResetRequest) -> (r: (LinkRequestSaga, ApiCall))
        ensures
            r.0.wf(),
            r.0.stage() == 0,
            r.0.kind() == LinkKind::PasswordReset,
            r.0.email() == input.email@,
            r.0.device() == input.device,
            r.0.project() == input.project,
            r.0.path() == link_path(self.config().notification_urls.reset_password, input.project, input.device),
            by_email_call_ok(input.email@, r.1),
    {
        LinkRequestSaga::start_password_reset(input, &self.config.notification_urls)
    }

    /// Applies a password reset (see `PasswordResetApplySaga`).
    pub fn request_password_reset_apply(&self, input: PasswordResetApply) -> (r: (PasswordResetApplySaga, ApiCall))
        ensures
            r.0.wf(),
            r.0.stage() == 0,
            r.0.project() == input.project,
            r.0.cluster_url() == self.config().cluster.url@,
            r.1 == ApiCall::Users(UsersCall::ApplyPasswordResetToken { initiator: Some(Initiator::Superadmin), payload: input }),
    {
        PasswordResetApplySaga::start(input, copy_text(&self.config.cluster.url))
    }

    /// Asks for an e-mail verification (see `LinkRequestSaga`).
    pub fn request_email_verification(&self, input: VerifyRequest) -> (r: (LinkRequestSaga, ApiCall))
        ensures
            r.0.wf(),
            r.0.stage() == 0,
            r.0.kind() == LinkKind::EmailVerification,
            r.0.email() == input.email@,
            r.0.device() == input.device,
            r.0.project() == input.project,
            r.0.path() == link_path(self.config().notification_urls.verify_email, input.project, input.device),
            by_email_call_ok(input.email@, r.1),
    {
        LinkRequestSaga::start_email_verification(input, &self.config.notification_urls)
    }

    /// Applies an e-mail verification (see `EmailVerifyApplySaga`).
    pub fn request_email_verification_apply(&self, input: EmailVerifyApply) -> (r: (EmailVerifyApplySaga, ApiCall))
        ensures
            r.0.wf(),
            r.0.stage() == 0,
            r.0.project() == input.project,
            r.1 == ApiCall::Users(UsersCall::ApplyEmailVerifyToken { initiator: Some(Initiator::Superadmin), payload: input }),
    {
        EmailVerifyApplySaga::start(input)
    }
}

/// The services on orders.
#[derive(Debug)]
pub struct OrderServiceImpl {
    cluster_url: String,
}

impl OrderServiceImpl {
    pub closed spec fn cluster_url(&self) -> Seq<char> {
        self.cluster_url@
    }

    pub fn new(config: &Config) -> (r: OrderServiceImpl)
        ensures
            r.cluster_url() == config.cluster.url@,
    {
        OrderServiceImpl { cluster_url: copy_text(&config.cluster.url) }
    }

    /// Turns a cart into orders and an invoice (see `CreateOrderSaga`).
    pub fn create(&self, input: ConvertCart) -> (r: (CreateOrderSaga, ApiCall))
        ensures
            r.0.wf(),
            r.0.stage() == 0,
            r.0.source() == OrderSource::Cart,
            r.0.customer_id() == input.customer_id,
            r.0.currency() == input.currency@,
            r.0.cluster_url() == self.cluster_url(),
            r.0.log() == seq![CreateOrderOperationStage::OrdersConvertCartStart(r.0.conversion_id())],
            r.1 == ApiCall::Orders(OrdersCall::ConvertCart {
                payload: ConvertCartPayload { conversion_id: Some(r.0.conversion_id()), cart: input },
            }),
    {
        CreateOrderSaga::start_cart(input, copy_text(&self.cluster_url))
    }

    /// Turns a purchase of one product into an order and an invoice (see
    /// `CreateOrderSaga`).
    pub fn create_buy_now(&self, input: BuyNow) -> (r: (CreateOrderSaga, ApiCall))
        ensures
            r.0.wf(),
            r.0.stage() == 0,
            r.0.source() == OrderSource::BuyNow,
            r.0.customer_id() == input.customer_id,
            r.0.currency() == input.currency@,
            r.0.cluster_url() == self.cluster_url(),
            r.0.log() == seq![CreateOrderOperationStage::OrdersConvertCartStart(r.0.conversion_id())],
            r.1 == ApiCall::Orders(OrdersCall::CreateBuyNow {
                payload: BuyNowPayload { conversion_id: Some(r.0.conversion_id()), buy_now: input },
            }),
    {
        CreateOrderSaga::start_buy_now(input, copy_text(&self.cluster_url))
    }

    /// Applies billing's reports of orders' states (see `UpdateOrdersSaga`).
    pub fn update_state_by_billing(&self, orders_info: &BillingOrdersVec) -> (r: (UpdateOrdersSaga, Step<OrdersNotified>))
        ensures
            r.0.wf(),
            r.0.reports() == kept_reports(orders_info.0@),
            r.0.results() == Seq::<Option<OrderFacts>>::empty(),
            r.0.cluster_url() == self.cluster_url(),
            kept_reports(orders_info.0@).len() == 0 ==> r.0.stage() == 2
                && (r.1 matches Step::Done(n) && notified_ok(n, seq![], self.cluster_url())),
            kept_reports(orders_info.0@).len() > 0 ==> r.0.stage() == 0 && !r.0.setting()
                && r.1 == Step::<OrdersNotified>::Call(get_reported_order_call(kept_reports(orders_info.0@)[0])),
    {
        UpdateOrdersSaga::start(orders_info, copy_text(&self.cluster_url))
    }

    /// A manager's change of an order's state (see `SetStateSaga`).
    pub fn manual_set_state(
        &self,
        order_slug: OrderSlug,
        order_state: OrderState,
        track_id: Option<String>,
        comment: Option<String>,
        committer_role: CommitterRole,
    ) -> (r: (SetStateSaga, ApiCall))
        ensures
            r.0.stage() == 0,
            r.0.slug() == order_slug,
            r.0.state() == order_state,
            r.0.track_id() == opt_text(track_id),
            r.0.comment() == opt_text(comment),
            r.0.committer_role() == committer_role,
            r.0.cluster_url() == self.cluster_url(),
            r.1 == ApiCall::Orders(OrdersCall::GetOrder { initiator: None, order: OrderIdentifier::Slug(order_slug) }),
    {
        SetStateSaga::start(order_slug, order_state, track_id, comment, committer_role, copy_text(&self.cluster_url))
    }

    /// A manual change of an order's payment state: one call to billing.
    pub fn manual_set_payment_state(&self, order_id: OrderId, payload: OrderPaymentStateRequest) -> (r: ApiCall)
        ensures
            r == ApiCall::Billing(BillingCall::SetPaymentState { initiator: None, order_id, payload }),
    {
        set_payment_state_call(order_id, payload)
    }

    /// The result of a manual change of a payment state, from the outcome of
    /// its call: done where billing took it, a failure of the HTTP client
    /// otherwise.
    pub fn payment_state_result(&self, outcome: Outcome) -> (r: Result<(), Error>)
        ensures
            outcome is Ok ==> r is Ok,
            outcome is Err ==> (r matches Err(e) && e is HttpClient),
    {
        match outcome {
            Ok(_) => Ok(()),
            Err(_) => Err(Error::HttpClient),
        }
    }
}

}
