//! The calls that the coordinator makes to the marketplace's microservices:
//! what each call carries, and where and how it is sent.
use vstd::prelude::*;

use crate::config::{service_url_of, Config, StqService};
use crate::http::{Initiator, Method};
use crate::ids::{
    uuid_text, uuid_to_string, BaseProductId, CouponId, OrderId, ProductId, RoleEntryId, RoleId, SagaId,
    StoreId, UserId, WarehouseId,
};
use crate::models::create_order::{
    BuyNowPayload, ConvertCartPayload, ConvertCartRevert, CreateInvoice, Order, OrderIdentifier,
    OrderPaymentStateRequest, Stock, UpdateStatePayload, UsedCoupon,
};
use crate::models::create_profile::{
    CreateUserMerchantPayload, EmailVerifyApply, EmailVerifyApplyToken, PasswordResetApply, ResetApplyToken,
    ResetRequest, SagaCreateProfile, User, VerifyRequest,
};
use crate::models::create_store::{CreateStoreMerchantPayload, NewStore, Store};
use crate::models::moderate::{
    BaseProduct, BaseProductModerate, DeleteDeliveryMethodFromCartsPayload, DeleteProductsFromCartsPayload, Product,
    StoreModerate,
};
use crate::models::notifications::{
    ApplyEmailVerificationForUser, ApplyPasswordResetForUser, BaseProductModerationStatusForModerator,
    BaseProductModerationStatusForUser, CreateEmarsysContactPayload, CreatedEmarsysContact, EmailVerificationForUser,
    OrderCreateForStore, OrderCreateForUser, OrderUpdateStateForStore, OrderUpdateStateForUser, PasswordResetForUser,
    StoreModerationStatusForModerator, StoreModerationStatusForUser,
};
use crate::models::resources::{project_text, Project};
use crate::models::roles::{
    BillingRole, DeliveryRole, NewOrdersRole, NewRole, NewWarehouseRole, RoleEntry, StoresRole, UsersRole,
};
use crate::models::visibility::{visibility_text, Visibility};
use crate::text::{cat, i32_to_string, int_text};

verus! {

/// Calls to the stores microservice.
#[derive(Debug)]
pub enum StoresCall {
    CreateStore { initiator: Option<Initiator>, payload: NewStore },
    DeleteStore { initiator: Option<Initiator>, store_id: StoreId },
    CreateStoresRole { initiator: Option<Initiator>, payload: NewRole<StoresRole> },
    DeleteStoresRole { initiator: Option<Initiator>, role_id: RoleId },
    Get { store_id: StoreId, visibility: Visibility },
    GetBaseProduct { base_product_id: BaseProductId, visibility: Visibility },
    GetProductsByBaseProduct { base_product_id: BaseProductId },
    GetProductsByStore { store_id: StoreId },
    UseCoupon { initiator: Initiator, coupon_id: CouponId, user_id: UserId },
    SetStoreModerationStatus { payload: StoreModerate },
    SendToModeration { store_id: StoreId },
    SetModerationStatusBaseProduct { payload: BaseProductModerate },
    SendToModerationBaseProduct { base_product_id: BaseProductId },
    GetModerators { initiator: Initiator },
    DeactivateBaseProduct { initiator: Option<Initiator>, base_product_id: BaseProductId },
    DeactivateStore { initiator: Option<Initiator>, store_id: StoreId },
    DeactivateProduct { initiator: Option<Initiator>, product_id: ProductId },
    UpdateBaseProduct { initiator: Option<Initiator>, base_product_id: BaseProductId, payload: serde_json::Value },
}

/// Calls to the orders microservice.
#[derive(Debug)]
pub enum OrdersCall {
    ConvertCart { payload: ConvertCartPayload },
    GetOrder { initiator: Option<Initiator>, order: OrderIdentifier },
    SetOrderState { initiator: Option<Initiator>, order: OrderIdentifier, payload: UpdateStatePayload },
    CreateBuyNow { payload: BuyNowPayload },
    RevertConvertCart { initiator: Initiator, payload: ConvertCartRevert },
    CreateRole { initiator: Option<Initiator>, payload: RoleEntry<NewOrdersRole> },
    DeleteRole { initiator: Option<Initiator>, role_id: RoleEntryId },
    DeleteProductsFromAllCarts { initiator: Option<Initiator>, payload: DeleteProductsFromCartsPayload },
    DeleteDeliveryMethodFromAllCarts { initiator: Option<Initiator>, payload: DeleteDeliveryMethodFromCartsPayload },
}

/// Calls to the billing microservice.
#[derive(Debug)]
pub enum BillingCall {
    CreateUserMerchant { initiator: Option<Initiator>, payload: CreateUserMerchantPayload },
    DeleteUserMerchant { initiator: Option<Initiator>, user_id: UserId },
    CreateStoreMerchant { initiator: Option<Initiator>, payload: CreateStoreMerchantPayload },
    DeleteStoreMerchant { initiator: Option<Initiator>, store_id: StoreId },
    CreateRole { initiator: Option<Initiator>, payload: NewRole<BillingRole> },
    DeleteRole { initiator: Option<Initiator>, role_id: RoleId },
    CreateInvoice { initiator: Initiator, payload: CreateInvoice },
    RevertCreateInvoice { initiator: Initiator, saga_id: SagaId },
    SetPaymentState { initiator: Option<Initiator>, order_id: OrderId, payload: OrderPaymentStateRequest },
}

/// Calls to the warehouses microservice.
#[derive(Debug)]
pub enum WarehousesCall {
    CreateWarehouseRole { initiator: Option<Initiator>, payload: RoleEntry<NewWarehouseRole> },
    DeleteWarehouseRole { initiator: Option<Initiator>, role_id: RoleEntryId },
    FindByProductId { initiator: Initiator, product_id: ProductId },
    SetProductInWarehouse { initiator: Initiator, warehouse_id: WarehouseId, product_id: ProductId, quantity: i32 },
}

/// Calls to the delivery microservice.
#[derive(Debug)]
pub enum DeliveryCall {
    CreateDeliveryRole { initiator: Option<Initiator>, payload: NewRole<DeliveryRole> },
    DeleteDeliveryRole { initiator: Option<Initiator>, role_id: RoleId },
    UpsertShipping { initiator: Option<Initiator>, base_product_id: BaseProductId, payload: serde_json::Value },
}

/// Calls to the users microservice.
#[derive(Debug)]
pub enum UsersCall {
    Get { initiator: Option<Initiator>, user_id: UserId },
    CreateUser { initiator: Option<Initiator>, payload: SagaCreateProfile },
    DeleteUser { initiator: Option<Initiator>, saga_id: SagaId },
    CreateRole { initiator: Option<Initiator>, payload: NewRole<UsersRole> },
    DeleteRole { initiator: Option<Initiator>, role_id: RoleId },
    GetByEmail { initiator: Option<Initiator>, email: String },
    CreateEmailVerifyToken { initiator: Option<Initiator>, payload: VerifyRequest },
    CreatePasswordResetToken { initiator: Option<Initiator>, payload: ResetRequest },
    ApplyPasswordResetToken { initiator: Option<Initiator>, payload: PasswordResetApply },
    ApplyEmailVerifyToken { initiator: Option<Initiator>, payload: EmailVerifyApply },
    UpdateEmarsysId { initiator: Option<Initiator>, user_id: UserId, emarsys_id: i32 },
}

/// Calls to the notifications microservice.
#[derive(Debug)]
pub enum NotificationsCall {
    EmailVerification { initiator: Option<Initiator>, payload: EmailVerificationForUser, project: Project },
    ApplyEmailVerification { initiator: Option<Initiator>, payload: ApplyEmailVerificationForUser, project: Project },
    PasswordReset { initiator: Option<Initiator>, payload: PasswordResetForUser, project: Project },
    ApplyPasswordReset { initiator: Option<Initiator>, payload: ApplyPasswordResetForUser, project: Project },
    OrderCreateForUser { initiator: Initiator, payload: OrderCreateForUser },
    OrderCreateForStore { initiator: Initiator, payload: OrderCreateForStore },
    OrderUpdateStateForUser { initiator: Initiator, payload: OrderUpdateStateForUser },
    OrderUpdateStateForStore { initiator: Initiator, payload: OrderUpdateStateForStore },
    StoreModerationStatusForUser { initiator: Initiator, payload: StoreModerationStatusForUser },
    BaseProductModerationStatusForUser { initiator: Initiator, payload: BaseProductModerationStatusForUser },
    StoreModerationStatusForModerator { initiator: Initiator, payload: StoreModerationStatusForModerator },
    BaseProductModerationStatusForModerator { initiator: Initiator, payload: BaseProductModerationStatusForModerator },
    EmarsysCreateContact { payload: CreateEmarsysContactPayload },
}

/// A call to one of the microservices.
#[derive(Debug)]
pub enum ApiCall {
    Stores(StoresCall),
    Orders(OrdersCall),
    Billing(BillingCall),
    Warehouses(WarehousesCall),
    Delivery(DeliveryCall),
    Users(UsersCall),
    Notifications(NotificationsCall),
}

/// Where and how a call is sent.
#[derive(Debug)]
pub struct Target {
    pub method: Method,
    pub url: String,
    pub initiator: Option<Initiator>,
}

/// The plain values of a target.
pub struct TargetView {
    pub method: Method,
    pub url: Seq<char>,
    pub initiator: Option<Initiator>,
}

pub open spec fn tv(method: Method, url: Seq<char>, initiator: Option<Initiator>) -> TargetView {
    TargetView { method, url, initiator }
}

pub open spec fn it(i: i32) -> Seq<char> {
    int_text(i as int)
}

pub open spec fn order_identifier_text(id: OrderIdentifier) -> Seq<char> {
    match id {
        OrderIdentifier::Id(id) => "by-id/"@ + uuid_text(id),
        OrderIdentifier::Slug(slug) => "by-slug/"@ + it(slug),
    }
}

pub open spec fn stores_target(s: Seq<char>, c: StoresCall) -> TargetView {
    match c {
        StoresCall::CreateStore { initiator, .. } => tv(Method::Post, s + "/stores"@, initiator),
        StoresCall::DeleteStore { initiator, store_id } => tv(Method::Delete, s + "/stores/"@ + it(store_id), initiator),
        StoresCall::CreateStoresRole { initiator, .. } => tv(Method::Post, s + "/roles"@, initiator),
        StoresCall::DeleteStoresRole { initiator, role_id } => tv(Method::Delete, s + "/roles/by-id/"@ + uuid_text(role_id), initiator),
        StoresCall::Get { store_id, visibility } =>
            tv(Method::Get, s + "/stores/"@ + it(store_id) + "?visibility="@ + visibility_text(visibility), None),
        StoresCall::GetBaseProduct { base_product_id, visibility } =>
            tv(Method::Get, s + "/base_products/"@ + it(base_product_id) + "?visibility="@ + visibility_text(visibility), None),
        StoresCall::GetProductsByBaseProduct { base_product_id } =>
            tv(Method::Get, s + "/products/by_base_product/"@ + it(base_product_id), None),
        StoresCall::GetProductsByStore { store_id } => tv(Method::Get, s + "/products/by_store/"@ + it(store_id), None),
        StoresCall::UseCoupon { initiator, coupon_id, user_id } =>
            tv(Method::Post, s + "/coupons/"@ + it(coupon_id) + "/users/"@ + it(user_id), Some(initiator)),
        StoresCall::SetStoreModerationStatus { .. } => tv(Method::Post, s + "/stores/moderate"@, None),
        StoresCall::SendToModeration { store_id } => tv(Method::Post, s + "/stores/"@ + it(store_id) + "/moderation"@, None),
        StoresCall::SetModerationStatusBaseProduct { .. } => tv(Method::Post, s + "/base_products/moderate"@, None),
        StoresCall::SendToModerationBaseProduct { base_product_id } =>
            tv(Method::Post, s + "/base_products/"@ + it(base_product_id) + "/moderation"@, None),
        StoresCall::GetModerators { initiator } => tv(Method::Get, s + "/roles/by-role/moderator"@, Some(initiator)),
        StoresCall::DeactivateBaseProduct { initiator, base_product_id } =>
            tv(Method::Delete, s + "/base_products/"@ + it(base_product_id), initiator),
        StoresCall::DeactivateStore { initiator, store_id } => tv(Method::Delete, s + "/stores/"@ + it(store_id), initiator),
        StoresCall::DeactivateProduct { initiator, product_id } => tv(Method::Delete, s + "/products/"@ + it(product_id), initiator),
        StoresCall::UpdateBaseProduct { initiator, base_product_id, .. } =>
            tv(Method::Put, s + "/base_products/"@ + it(base_product_id), initiator),
    }
}

pub open spec fn orders_target(o: Seq<char>, c: OrdersCall) -> TargetView {
    match c {
        OrdersCall::ConvertCart { .. } => tv(Method::Post, o + "/orders/create_from_cart"@, None),
        OrdersCall::GetOrder { initiator, order } => tv(Method::Get, o + "/orders/"@ + order_identifier_text(order), initiator),
        OrdersCall::SetOrderState { initiator, order, .. } =>
            tv(Method::Put, o + "/orders/"@ + order_identifier_text(order) + "/status"@, initiator),
        OrdersCall::CreateBuyNow { .. } => tv(Method::Post, o + "/orders/create_buy_now"@, None),
        OrdersCall::RevertConvertCart { initiator, .. } => tv(Method::Post, o + "/orders/create_buy_now/revert"@, Some(initiator)),
        OrdersCall::CreateRole { initiator, .. } => tv(Method::Post, o + "/roles"@, initiator),
        OrdersCall::DeleteRole { initiator, role_id } => tv(Method::Delete, o + "/roles/by-id/"@ + uuid_text(role_id), initiator),
        OrdersCall::DeleteProductsFromAllCarts { initiator, .. } => tv(Method::Delete, o + "/cart/products"@, initiator),
        OrdersCall::DeleteDeliveryMethodFromAllCarts { initiator, .. } => tv(Method::Delete, o + "/cart/delivery_method"@, initiator),
    }
}

pub open spec fn billing_target(b: Seq<char>, c: BillingCall) -> TargetView {
    match c {
        BillingCall::CreateUserMerchant { initiator, .. } => tv(Method::Post, b + "/merchants/user"@, initiator),
        BillingCall::DeleteUserMerchant { initiator, user_id } => tv(Method::Delete, b + "/merchants/user/"@ + it(user_id), initiator),
        BillingCall::CreateStoreMerchant { initiator, .. } => tv(Method::Post, b + "/merchants/store"@, initiator),
        BillingCall::DeleteStoreMerchant { initiator, store_id } => tv(Method::Delete, b + "/merchants/store/"@ + it(store_id), initiator),
        BillingCall::CreateRole { initiator, .. } => tv(Method::Post, b + "/roles"@, initiator),
        BillingCall::DeleteRole { initiator, role_id } => tv(Method::Delete, b + "/roles/by-id/"@ + uuid_text(role_id), initiator),
        BillingCall::CreateInvoice { initiator, .. } => tv(Method::Post, b + "/invoices"@, Some(initiator)),
        BillingCall::RevertCreateInvoice { initiator, saga_id } =>
            tv(Method::Delete, b + "/invoices/by-saga-id/"@ + uuid_text(saga_id), Some(initiator)),
        BillingCall::SetPaymentState { initiator, order_id, .. } =>
            tv(Method::Post, b + "/orders/"@ + uuid_text(order_id) + "/set_payment_state"@, initiator),
    }
}

pub open spec fn warehouses_target(w: Seq<char>, c: WarehousesCall) -> TargetView {
    match c {
        WarehousesCall::CreateWarehouseRole { initiator, .. } => tv(Method::Post, w + "/roles"@, initiator),
        WarehousesCall::DeleteWarehouseRole { initiator, role_id } =>
            tv(Method::Delete, w + "/roles/by-id/"@ + uuid_text(role_id), initiator),
        WarehousesCall::FindByProductId { initiator, product_id } =>
            tv(Method::Get, w + "/stocks/by-product-id/"@ + it(product_id), Some(initiator)),
        WarehousesCall::SetProductInWarehouse { initiator, warehouse_id, product_id, .. } =>
            tv(Method::Put, w + "/warehouses/by-id/"@ + uuid_text(warehouse_id) + "/products/"@ + it(product_id), Some(initiator)),
    }
}

pub open spec fn delivery_target(d: Seq<char>, c: DeliveryCall) -> TargetView {
    match c {
        DeliveryCall::CreateDeliveryRole { initiator, .. } => tv(Method::Post, d + "/roles"@, initiator),
        DeliveryCall::DeleteDeliveryRole { initiator, role_id } => tv(Method::Delete, d + "/roles/by-id/"@ + uuid_text(role_id), initiator),
        DeliveryCall::UpsertShipping { initiator, base_product_id, .. } => tv(Method::Post, d + "/products/"@ + it(base_product_id), initiator),
    }
}

pub open spec fn users_target(u: Seq<char>, c: UsersCall) -> TargetView {
    match c {
        UsersCall::Get { initiator, user_id } => tv(Method::Get, u + "/users/"@ + it(user_id), initiator),
        UsersCall::CreateUser { initiator, .. } => tv(Method::Post, u + "/users"@, initiator),
        UsersCall::DeleteUser { initiator, saga_id } => tv(Method::Delete, u + "/users_by_saga_id/"@ + uuid_text(saga_id), initiator),
        UsersCall::CreateRole { initiator, .. } => tv(Method::Post, u + "/roles"@, initiator),
        UsersCall::DeleteRole { initiator, role_id } => tv(Method::Delete, u + "/roles/by-id/"@ + uuid_text(role_id), initiator),
        UsersCall::GetByEmail { initiator, email } => tv(Method::Get, u + "/users/by_email?email="@ + email@, initiator),
        UsersCall::CreateEmailVerifyToken { initiator, .. } => tv(Method::Post, u + "/users/email_verify_token"@, initiator),
        UsersCall::CreatePasswordResetToken { initiator, .. } => tv(Method::Post, u + "/users/password_reset_token"@, initiator),
        UsersCall::ApplyPasswordResetToken { initiator, .. } => tv(Method::Put, u + "/users/password_reset_token"@, initiator),
        UsersCall::ApplyEmailVerifyToken { initiator, .. } => tv(Method::Put, u + "/users/email_verify_token"@, initiator),
        UsersCall::UpdateEmarsysId { initiator, user_id, .. } => tv(Method::Put, u + "/users/"@ + it(user_id), initiator),
    }
}

pub open spec fn notifications_target(n: Seq<char>, c: NotificationsCall) -> TargetView {
    match c {
        NotificationsCall::EmailVerification { initiator, project, .. } =>
            tv(Method::Post, n + "/users/email-verification?project="@ + project_text(project), initiator),
        NotificationsCall::ApplyEmailVerification { initiator, project, .. } =>
            tv(Method::Post, n + "/users/apply-email-verification?project="@ + project_text(project), initiator),
        NotificationsCall::PasswordReset { initiator, project, .. } =>
            tv(Method::Post, n + "/users/password-reset?project="@ + project_text(project), initiator),
        NotificationsCall::ApplyPasswordReset { initiator, project, .. } =>
            tv(Method::Post, n + "/users/apply-password-reset?project="@ + project_text(project), initiator),
        NotificationsCall::OrderCreateForUser { initiator, .. } => tv(Method::Post, n + "/users/order-create"@, Some(initiator)),
        NotificationsCall::OrderCreateForStore { initiator, .. } => tv(Method::Post, n + "/stores/order-create"@, Some(initiator)),
        NotificationsCall::OrderUpdateStateForUser { initiator, .. } => tv(Method::Post, n + "/users/order-update-state"@, Some(initiator)),
        NotificationsCall::OrderUpdateStateForStore { initiator, .. } => tv(Method::Post, n + "/stores/order-update-state"@, Some(initiator)),
        NotificationsCall::StoreModerationStatusForUser { initiator, .. } =>
            tv(Method::Post, n + "/users/stores/update-moderation-status"@, Some(initiator)),
        NotificationsCall::BaseProductModerationStatusForUser { initiator, .. } =>
            tv(Method::Post, n + "/users/base_products/update-moderation-status"@, Some(initiator)),
        NotificationsCall::StoreModerationStatusForModerator { initiator, .. } =>
            tv(Method::Post, n + "/moderators/stores/update-moderation-status"@, Some(initiator)),
        NotificationsCall::BaseProductModerationStatusForModerator { initiator, .. } =>
            tv(Method::Post, n + "/moderators/base_products/update-moderation-status"@, Some(initiator)),
        NotificationsCall::EmarsysCreateContact { .. } => tv(Method::Post, n + "/emarsys/contact"@, None),
    }
}

/// Where and how a call is sent, given the configuration.
pub open spec fn call_target(c: Config, call: ApiCall) -> TargetView {
    match call {
        ApiCall::Stores(x) => stores_target(service_url_of(c, StqService::Stores), x),
        ApiCall::Orders(x) => orders_target(service_url_of(c, StqService::Orders), x),
        ApiCall::Billing(x) => billing_target(service_url_of(c, StqService::Billing), x),
        ApiCall::Warehouses(x) => warehouses_target(service_url_of(c, StqService::Warehouses), x),
        ApiCall::Delivery(x) => delivery_target(service_url_of(c, StqService::Delivery), x),
        ApiCall::Users(x) => users_target(service_url_of(c, StqService::Users), x),
        ApiCall::Notifications(x) => notifications_target(service_url_of(c, StqService::Notifications), x),
    }
}

pub open spec fn target_view(t: Target) -> TargetView {
    tv(t.method, t.url@, t.initiator)
}

/// The base URL of the microservice that a call is for.
pub open spec fn base_url_for(c: Config, call: ApiCall) -> Seq<char> {
    match call {
        ApiCall::Stores(_) => c.stores_microservice.url@,
        ApiCall::Orders(_) => c.orders_microservice.url@,
        ApiCall::Billing(_) => c.billing_microservice.url@,
        ApiCall::Warehouses(_) => c.warehouses_microservice.url@,
        ApiCall::Delivery(_) => c.delivery_microservice.url@,
        ApiCall::Users(_) => c.users_microservice.url@,
        ApiCall::Notifications(_) => c.notifications_microservice.url@,
    }
}

proof fn lemma_take_of_concat()
    ensures
        forall|x: Seq<char>, y: Seq<char>, n: int| 0 <= n <= x.len() ==> #[trigger] (x + y).take(n) == x.take(n),
        forall|x: Seq<char>| #[trigger] x.take(x.len() as int) == x,
{
    assert forall|x: Seq<char>, y: Seq<char>, n: int| 0 <= n <= x.len() implies #[trigger] (x + y).take(n) == x.take(n) by {
        assert((x + y).take(n) =~= x.take(n));
    }
    assert forall|x: Seq<char>| #[trigger] x.take(x.len() as int) == x by {
        assert(x.take(x.len() as int) =~= x);
    }
}

/// Every call is sent under the base URL that the configuration gives the
/// microservice it is for.
pub proof fn lemma_call_sent_to_its_microservice(c: Config, call: ApiCall)
    ensures
        base_url_for(c, call).len() <= call_target(c, call).url.len(),
        call_target(c, call).url.take(base_url_for(c, call).len() as int) == base_url_for(c, call),
{
    lemma_take_of_concat();
    match call {
        ApiCall::Stores(x) => lemma_stores_url_prefix(c.stores_microservice.url@, x),
        ApiCall::Orders(x) => lemma_orders_url_prefix(c.orders_microservice.url@, x),
        ApiCall::Billing(x) => lemma_billing_url_prefix(c.billing_microservice.url@, x),
        ApiCall::Warehouses(x) => lemma_warehouses_url_prefix(c.warehouses_microservice.url@, x),
        ApiCall::Delivery(x) => lemma_delivery_url_prefix(c.delivery_microservice.url@, x),
        ApiCall::Users(x) => lemma_users_url_prefix(c.users_microservice.url@, x),
        ApiCall::Notifications(x) => lemma_notifications_url_prefix(c.notifications_microservice.url@, x),
    }
}

proof fn lemma_stores_url_prefix(base: Seq<char>, x: StoresCall)
    ensures
        base.len() <= stores_target(base, x).url.len(),
        stores_target(base, x).url.take(base.len() as int) == base,
{
    lemma_take_of_concat();
}

proof fn lemma_orders_url_prefix(base: Seq<char>, x: OrdersCall)
    ensures
        base.len() <= orders_target(base, x).url.len(),
        orders_target(base, x).url.take(base.len() as int) == base,
{
    lemma_take_of_concat();
}

proof fn lemma_billing_url_prefix(base: Seq<char>, x: BillingCall)
    ensures
        base.len() <= billing_target(base, x).url.len(),
        billing_target(base, x).url.take(base.len() as int) == base,
{
    lemma_take_of_concat();
}

proof fn lemma_warehouses_url_prefix(base: Seq<char>, x: WarehousesCall)
    ensures
        base.len() <= warehouses_target(base, x).url.len(),
        warehouses_target(base, x).url.take(base.len() as int) == base,
{
    lemma_take_of_concat();
}

proof fn lemma_delivery_url_prefix(base: Seq<char>, x: DeliveryCall)
    ensures
        base.len() <= delivery_target(base, x).url.len(),
        delivery_target(base, x).url.take(base.len() as int) == base,
{
    lemma_take_of_concat();
}

proof fn lemma_users_url_prefix(base: Seq<char>, x: UsersCall)
    ensures
        base.len() <= users_target(base, x).url.len(),
        users_target(base, x).url.take(base.len() as int) == base,
{
    lemma_take_of_concat();
}

proof fn lemma_notifications_url_prefix(base: Seq<char>, x: NotificationsCall)
    ensures
        base.len() <= notifications_target(base, x).url.len(),
        notifications_target(base, x).url.take(base.len() as int) == base,
{
    lemma_take_of_concat();
}

fn target(method: Method, url: String, initiator: Option<Initiator>) -> (r: Target)
    ensures
        target_view(r) == tv(method, url@, initiator),
{
    Target { method, url, initiator }
}

fn with_int(a: String, i: i32) -> (r: String)
    ensures
        r@ == a@ + it(i),
{
    let t = i32_to_string(i);
    cat(a, t.as_str())
}

fn with_uuid(a: String, id: u128) -> (r: String)
    ensures
        r@ == a@ + uuid_text(id),
{
    let t = uuid_to_string(id);
    cat(a, t.as_str())
}

fn with_order_identifier(a: String, id: OrderIdentifier) -> (r: String)
    ensures
        r@ == a@ + order_identifier_text(id),
{
    match id {
        OrderIdentifier::Id(x) => {
            let r = with_uuid(cat(a, "by-id/"), x);
            assert(r@ =~= a@ + order_identifier_text(id));
            r
        },
        OrderIdentifier::Slug(x) => {
            let r = with_int(cat(a, "by-slug/"), x);
            assert(r@ =~= a@ + order_identifier_text(id));
            r
        },
    }
}

fn stores_call_target(s: String, c: &StoresCall) -> (r: Target)
    ensures
        target_view(r) == stores_target(s@, *c),
{
    match c {
        StoresCall::CreateStore { initiator, .. } => target(Method::Post, cat(s, "/stores"), *initiator),
        StoresCall::DeleteStore { initiator, store_id } => target(Method::Delete, with_int(cat(s, "/stores/"), *store_id), *initiator),
        StoresCall::CreateStoresRole { initiator, .. } => target(Method::Post, cat(s, "/roles"), *initiator),
        StoresCall::DeleteStoresRole { initiator, role_id } =>
            target(Method::Delete, with_uuid(cat(s, "/roles/by-id/"), *role_id), *initiator),
        StoresCall::Get { store_id, visibility } =>
            target(Method::Get, cat(cat(with_int(cat(s, "/stores/"), *store_id), "?visibility="), visibility.as_str()), None),
        StoresCall::GetBaseProduct { base_product_id, visibility } =>
            target(Method::Get, cat(cat(with_int(cat(s, "/base_products/"), *base_product_id), "?visibility="), visibility.as_str()), None),
        StoresCall::GetProductsByBaseProduct { base_product_id } =>
            target(Method::Get, with_int(cat(s, "/products/by_base_product/"), *base_product_id), None),
        StoresCall::GetProductsByStore { store_id } => target(Method::Get, with_int(cat(s, "/products/by_store/"), *store_id), None),
        StoresCall::UseCoupon { initiator, coupon_id, user_id } =>
            target(Method::Post, with_int(cat(with_int(cat(s, "/coupons/"), *coupon_id), "/users/"), *user_id), Some(*initiator)),
        StoresCall::SetStoreModerationStatus { .. } => target(Method::Post, cat(s, "/stores/moderate"), None),
        StoresCall::SendToModeration { store_id } => target(Method::Post, cat(with_int(cat(s, "/stores/"), *store_id), "/moderation"), None),
        StoresCall::SetModerationStatusBaseProduct { .. } => target(Method::Post, cat(s, "/base_products/moderate"), None),
        StoresCall::SendToModerationBaseProduct { base_product_id } =>
            target(Method::Post, cat(with_int(cat(s, "/base_products/"), *base_product_id), "/moderation"), None),
        StoresCall::GetModerators { initiator } => target(Method::Get, cat(s, "/roles/by-role/moderator"), Some(*initiator)),
        StoresCall::DeactivateBaseProduct { initiator, base_product_id } =>
            target(Method::Delete, with_int(cat(s, "/base_products/"), *base_product_id), *initiator),
        StoresCall::DeactivateStore { initiator, store_id } => target(Method::Delete, with_int(cat(s, "/stores/"), *store_id), *initiator),
        StoresCall::DeactivateProduct { initiator, product_id } =>
            target(Method::Delete, with_int(cat(s, "/products/"), *product_id), *initiator),
        StoresCall::UpdateBaseProduct { initiator, base_product_id, .. } =>
            target(Method::Put, with_int(cat(s, "/base_products/"), *base_product_id), *initiator),
    }
}

fn orders_call_target(o: String, c: &OrdersCall) -> (r: Target)
    ensures
        target_view(r) == orders_target(o@, *c),
{
    match c {
        OrdersCall::ConvertCart { .. } => target(Method::Post, cat(o, "/orders/create_from_cart"), None),
        OrdersCall::GetOrder { initiator, order } => target(Method::Get, with_order_identifier(cat(o, "/orders/"), *order), *initiator),
        OrdersCall::SetOrderState { initiator, order, .. } =>
            target(Method::Put, cat(with_order_identifier(cat(o, "/orders/"), *order), "/status"), *initiator),
        OrdersCall::CreateBuyNow { .. } => target(Method::Post, cat(o, "/orders/create_buy_now"), None),
        OrdersCall::RevertConvertCart { initiator, .. } => target(Method::Post, cat(o, "/orders/create_buy_now/revert"), Some(*initiator)),
        OrdersCall::CreateRole { initiator, .. } => target(Method::Post, cat(o, "/roles"), *initiator),
        OrdersCall::DeleteRole { initiator, role_id } => target(Method::Delete, with_uuid(cat(o, "/roles/by-id/"), *role_id), *initiator),
        OrdersCall::DeleteProductsFromAllCarts { initiator, .. } => target(Method::Delete, cat(o, "/cart/products"), *initiator),
        OrdersCall::DeleteDeliveryMethodFromAllCarts { initiator, .. } =>
            target(Method::Delete, cat(o, "/cart/delivery_method"), *initiator),
    }
}

fn billing_call_target(b: String, c: &BillingCall) -> (r: Target)
    ensures
        target_view(r) == billing_target(b@, *c),
{
    match c {
        BillingCall::CreateUserMerchant { initiator, .. } => target(Method::Post, cat(b, "/merchants/user"), *initiator),
        BillingCall::DeleteUserMerchant { initiator, user_id } =>
            target(Method::Delete, with_int(cat(b, "/merchants/user/"), *user_id), *initiator),
        BillingCall::CreateStoreMerchant { initiator, .. } => target(Method::Post, cat(b, "/merchants/store"), *initiator),
        BillingCall::DeleteStoreMerchant { initiator, store_id } =>
            target(Method::Delete, with_int(cat(b, "/merchants/store/"), *store_id), *initiator),
        BillingCall::CreateRole { initiator, .. } => target(Method::Post, cat(b, "/roles"), *initiator),
        BillingCall::DeleteRole { initiator, role_id } => target(Method::Delete, with_uuid(cat(b, "/roles/by-id/"), *role_id), *initiator),
        BillingCall::CreateInvoice { initiator, .. } => target(Method::Post, cat(b, "/invoices"), Some(*initiator)),
        BillingCall::RevertCreateInvoice { initiator, saga_id } =>
            target(Method::Delete, with_uuid(cat(b, "/invoices/by-saga-id/"), *saga_id), Some(*initiator)),
        BillingCall::SetPaymentState { initiator, order_id, .. } =>
            target(Method::Post, cat(with_uuid(cat(b, "/orders/"), *order_id), "/set_payment_state"), *initiator),
    }
}

fn warehouses_call_target(w: String, c: &WarehousesCall) -> (r: Target)
    ensures
        target_view(r) == warehouses_target(w@, *c),
{
    match c {
        WarehousesCall::CreateWarehouseRole { initiator, .. } => target(Method::Post, cat(w, "/roles"), *initiator),
        WarehousesCall::DeleteWarehouseRole { initiator, role_id } =>
            target(Method::Delete, with_uuid(cat(w, "/roles/by-id/"), *role_id), *initiator),
        WarehousesCall::FindByProductId { initiator, product_id } =>
            target(Method::Get, with_int(cat(w, "/stocks/by-product-id/"), *product_id), Some(*initiator)),
        WarehousesCall::SetProductInWarehouse { initiator, warehouse_id, product_id, .. } =>
            target(Method::Put, with_int(cat(with_uuid(cat(w, "/warehouses/by-id/"), *warehouse_id), "/products/"), *product_id), Some(*initiator)),
    }
}

fn delivery_call_target(d: String, c: &DeliveryCall) -> (r: Target)
    ensures
        target_view(r) == delivery_target(d@, *c),
{
    match c {
        DeliveryCall::CreateDeliveryRole { initiator, .. } => target(Method::Post, cat(d, "/roles"), *initiator),
        DeliveryCall::DeleteDeliveryRole { initiator, role_id } =>
            target(Method::Delete, with_uuid(cat(d, "/roles/by-id/"), *role_id), *initiator),
        DeliveryCall::UpsertShipping { initiator, base_product_id, .. } =>
            target(Method::Post, with_int(cat(d, "/products/"), *base_product_id), *initiator),
    }
}

fn users_call_target(u: String, c: &UsersCall) -> (r: Target)
    ensures
        target_view(r) == users_target(u@, *c),
{
    match c {
        UsersCall::Get { initiator, user_id } => target(Method::Get, with_int(cat(u, "/users/"), *user_id), *initiator),
        UsersCall::CreateUser { initiator, .. } => target(Method::Post, cat(u, "/users"), *initiator),
        UsersCall::DeleteUser { initiator, saga_id } => target(Method::Delete, with_uuid(cat(u, "/users_by_saga_id/"), *saga_id), *initiator),
        UsersCall::CreateRole { initiator, .. } => target(Method::Post, cat(u, "/roles"), *initiator),
        UsersCall::DeleteRole { initiator, role_id } => target(Method::Delete, with_uuid(cat(u, "/roles/by-id/"), *role_id), *initiator),
        UsersCall::GetByEmail { initiator, email } => target(Method::Get, cat(cat(u, "/users/by_email?email="), email.as_str()), *initiator),
        UsersCall::CreateEmailVerifyToken { initiator, .. } => target(Method::Post, cat(u, "/users/email_verify_token"), *initiator),
        UsersCall::CreatePasswordResetToken { initiator, .. } => target(Method::Post, cat(u, "/users/password_reset_token"), *initiator),
        UsersCall::ApplyPasswordResetToken { initiator, .. } => target(Method::Put, cat(u, "/users/password_reset_token"), *initiator),
        UsersCall::ApplyEmailVerifyToken { initiator, .. } => target(Method::Put, cat(u, "/users/email_verify_token"), *initiator),
        UsersCall::UpdateEmarsysId { initiator, user_id, .. } => target(Method::Put, with_int(cat(u, "/users/"), *user_id), *initiator),
    }
}

fn notifications_call_target(n: String, c: &NotificationsCall) -> (r: Target)
    ensures
        target_view(r) == notifications_target(n@, *c),
{
    match c {
        NotificationsCall::EmailVerification { initiator, project, .. } =>
            target(Method::Post, cat(cat(n, "/users/email-verification?project="), project.as_str()), *initiator),
        NotificationsCall::ApplyEmailVerification { initiator, project, .. } =>
            target(Method::Post, cat(cat(n, "/users/apply-email-verification?project="), project.as_str()), *initiator),
        NotificationsCall::PasswordReset { initiator, project, .. } =>
            target(Method::Post, cat(cat(n, "/users/password-reset?project="), project.as_str()), *initiator),
        NotificationsCall::ApplyPasswordReset { initiator, project, .. } =>
            target(Method::Post, cat(cat(n, "/users/apply-password-reset?project="), project.as_str()), *initiator),
        NotificationsCall::OrderCreateForUser { initiator, .. } => target(Method::Post, cat(n, "/users/order-create"), Some(*initiator)),
        NotificationsCall::OrderCreateForStore { initiator, .. } => target(Method::Post, cat(n, "/stores/order-create"), Some(*initiator)),
        NotificationsCall::OrderUpdateStateForUser { initiator, .. } =>
            target(Method::Post, cat(n, "/users/order-update-state"), Some(*initiator)),
        NotificationsCall::OrderUpdateStateForStore { initiator, .. } =>
            target(Method::Post, cat(n, "/stores/order-update-state"), Some(*initiator)),
        NotificationsCall::StoreModerationStatusForUser { initiator, .. } =>
            target(Method::Post, cat(n, "/users/stores/update-moderation-status"), Some(*initiator)),
        NotificationsCall::BaseProductModerationStatusForUser { initiator, .. } =>
            target(Method::Post, cat(n, "/users/base_products/update-moderation-status"), Some(*initiator)),
        NotificationsCall::StoreModerationStatusForModerator { initiator, .. } =>
            target(Method::Post, cat(n, "/moderators/stores/update-moderation-status"), Some(*initiator)),
        NotificationsCall::BaseProductModerationStatusForModerator { initiator, .. } =>
            target(Method::Post, cat(n, "/moderators/base_products/update-moderation-status"), Some(*initiator)),
        NotificationsCall::EmarsysCreateContact { .. } => target(Method::Post, cat(n, "/emarsys/contact"), None),
    }
}

impl ApiCall {
    /// Where and how this call is sent.
    pub fn target(&self, config: &Config) -> (r: Target)
        ensures
            target_view(r) == call_target(*config, *self),
    {
        match self {
            ApiCall::Stores(x) => stores_call_target(config.service_url(StqService::Stores), x),
            ApiCall::Orders(x) => orders_call_target(config.service_url(StqService::Orders), x),
            ApiCall::Billing(x) => billing_call_target(config.service_url(StqService::Billing), x),
            ApiCall::Warehouses(x) => warehouses_call_target(config.service_url(StqService::Warehouses), x),
            ApiCall::Delivery(x) => delivery_call_target(config.service_url(StqService::Delivery), x),
            ApiCall::Users(x) => users_call_target(config.service_url(StqService::Users), x),
            ApiCall::Notifications(x) => notifications_call_target(config.service_url(StqService::Notifications), x),
        }
    }
}


/// What a microservice answered, read into what the coordinator looks at.
#[derive(Debug)]
pub enum Reply {
    /// An answer that the coordinator does not look at.
    Ignored,
    Store(Store),
    MaybeStore(Option<Store>),
    BaseProduct(BaseProduct),
    MaybeBaseProduct(Option<BaseProduct>),
    Product(Product),
    Products(Vec<Product>),
    UserIds(Vec<UserId>),
    User(User),
    MaybeUser(Option<User>),
    Orders(Vec<Order>),
    MaybeOrder(Option<Order>),
    Invoice(serde_json::Value),
    Stocks(Vec<Stock>),
    UsedCoupon(UsedCoupon),
    Token(String),
    ResetApplyToken(ResetApplyToken),
    EmailVerifyApplyToken(EmailVerifyApplyToken),
    EmarsysContact(CreatedEmarsysContact),
    Shipping(serde_json::Value),
}

/// The kinds of answers.
#[derive(Clone, Copy, Debug, PartialEq, Eq, Structural)]
pub enum ReplyKind {
    Ignored,
    Store,
    MaybeStore,
    BaseProduct,
    MaybeBaseProduct,
    Product,
    Products,
    UserIds,
    User,
    MaybeUser,
    Orders,
    MaybeOrder,
    Invoice,
    Stocks,
    UsedCoupon,
    Token,
    ResetApplyToken,
    EmailVerifyApplyToken,
    EmarsysContact,
    Shipping,
}

/// The kind of an answer.
pub open spec fn kind_of_reply(r: Reply) -> ReplyKind {
    match r {
        Reply::Ignored => ReplyKind::Ignored,
        Reply::Store(_) => ReplyKind::Store,
        Reply::MaybeStore(_) => ReplyKind::MaybeStore,
        Reply::BaseProduct(_) => ReplyKind::BaseProduct,
        Reply::MaybeBaseProduct(_) => ReplyKind::MaybeBaseProduct,
        Reply::Product(_) => ReplyKind::Product,
        Reply::Products(_) => ReplyKind::Products,
        Reply::UserIds(_) => ReplyKind::UserIds,
        Reply::User(_) => ReplyKind::User,
        Reply::MaybeUser(_) => ReplyKind::MaybeUser,
        Reply::Orders(_) => ReplyKind::Orders,
        Reply::MaybeOrder(_) => ReplyKind::MaybeOrder,
        Reply::Invoice(_) => ReplyKind::Invoice,
        Reply::Stocks(_) => ReplyKind::Stocks,
        Reply::UsedCoupon(_) => ReplyKind::UsedCoupon,
        Reply::Token(_) => ReplyKind::Token,
        Reply::ResetApplyToken(_) => ReplyKind::ResetApplyToken,
        Reply::EmailVerifyApplyToken(_) => ReplyKind::EmailVerifyApplyToken,
        Reply::EmarsysContact(_) => ReplyKind::EmarsysContact,
        Reply::Shipping(_) => ReplyKind::Shipping,
    }
}

impl Reply {
    /// The kind of this answer.
    pub fn kind(&self) -> (r: ReplyKind)
        ensures
            r == kind_of_reply(*self),
    {
        match self {
            Reply::Ignored => ReplyKind::Ignored,
            Reply::Store(_) => ReplyKind::Store,
            Reply::MaybeStore(_) => ReplyKind::MaybeStore,
            Reply::BaseProduct(_) => ReplyKind::BaseProduct,
            Reply::MaybeBaseProduct(_) => ReplyKind::MaybeBaseProduct,
            Reply::Product(_) => ReplyKind::Product,
            Reply::Products(_) => ReplyKind::Products,
            Reply::UserIds(_) => ReplyKind::UserIds,
            Reply::User(_) => ReplyKind::User,
            Reply::MaybeUser(_) => ReplyKind::MaybeUser,
            Reply::Orders(_) => ReplyKind::Orders,
            Reply::MaybeOrder(_) => ReplyKind::MaybeOrder,
            Reply::Invoice(_) => ReplyKind::Invoice,
            Reply::Stocks(_) => ReplyKind::Stocks,
            Reply::UsedCoupon(_) => ReplyKind::UsedCoupon,
            Reply::Token(_) => ReplyKind::Token,
            Reply::ResetApplyToken(_) => ReplyKind::ResetApplyToken,
            Reply::EmailVerifyApplyToken(_) => ReplyKind::EmailVerifyApplyToken,
            Reply::EmarsysContact(_) => ReplyKind::EmarsysContact,
            Reply::Shipping(_) => ReplyKind::Shipping,
        }
    }
}

/// The kind of answer that a call gets: what its answer is read into.
pub open spec fn reply_kind_of(call: ApiCall) -> ReplyKind {
    match call {
        ApiCall::Stores(c) => match c {
            StoresCall::CreateStore { .. } => ReplyKind::Store,
            StoresCall::Get { .. } => ReplyKind::MaybeStore,
            StoresCall::GetBaseProduct { .. } => ReplyKind::MaybeBaseProduct,
            StoresCall::GetProductsByBaseProduct { .. } => ReplyKind::Products,
            StoresCall::GetProductsByStore { .. } => ReplyKind::Products,
            StoresCall::UseCoupon { .. } => ReplyKind::UsedCoupon,
            StoresCall::SetStoreModerationStatus { .. } => ReplyKind::Store,
            StoresCall::SendToModeration { .. } => ReplyKind::Store,
            StoresCall::SetModerationStatusBaseProduct { .. } => ReplyKind::BaseProduct,
            StoresCall::SendToModerationBaseProduct { .. } => ReplyKind::BaseProduct,
            StoresCall::GetModerators { .. } => ReplyKind::UserIds,
            StoresCall::DeactivateBaseProduct { .. } => ReplyKind::BaseProduct,
            StoresCall::DeactivateStore { .. } => ReplyKind::Store,
            StoresCall::DeactivateProduct { .. } => ReplyKind::Product,
            StoresCall::UpdateBaseProduct { .. } => ReplyKind::BaseProduct,
            _ => ReplyKind::Ignored,
        },
        ApiCall::Orders(c) => match c {
            OrdersCall::ConvertCart { .. } => ReplyKind::Orders,
            OrdersCall::GetOrder { .. } => ReplyKind::MaybeOrder,
            OrdersCall::SetOrderState { .. } => ReplyKind::MaybeOrder,
            OrdersCall::CreateBuyNow { .. } => ReplyKind::Orders,
            _ => ReplyKind::Ignored,
        },
        ApiCall::Billing(c) => match c {
            BillingCall::CreateInvoice { .. } => ReplyKind::Invoice,
            _ => ReplyKind::Ignored,
        },
        ApiCall::Warehouses(c) => match c {
            WarehousesCall::FindByProductId { .. } => ReplyKind::Stocks,
            _ => ReplyKind::Ignored,
        },
        ApiCall::Delivery(c) => match c {
            DeliveryCall::UpsertShipping { .. } => ReplyKind::Shipping,
            _ => ReplyKind::Ignored,
        },
        ApiCall::Users(c) => match c {
            UsersCall::Get { .. } => ReplyKind::MaybeUser,
            UsersCall::CreateUser { .. } => ReplyKind::User,
            UsersCall::GetByEmail { .. } => ReplyKind::MaybeUser,
            UsersCall::CreateEmailVerifyToken { .. } => ReplyKind::Token,
            UsersCall::CreatePasswordResetToken { .. } => ReplyKind::Token,
            UsersCall::ApplyPasswordResetToken { .. } => ReplyKind::ResetApplyToken,
            UsersCall::ApplyEmailVerifyToken { .. } => ReplyKind::EmailVerifyApplyToken,
            _ => ReplyKind::Ignored,
        },
        ApiCall::Notifications(c) => match c {
            NotificationsCall::EmarsysCreateContact { .. } => ReplyKind::EmarsysContact,
            _ => ReplyKind::Ignored,
        },
    }
}

impl ApiCall {
    /// The kind of answer that this call gets.
    pub fn reply_kind(&self) -> (r: ReplyKind)
        ensures
            r == reply_kind_of(*self),
    {
        match self {
            ApiCall::Stores(c) => match c {
                StoresCall::CreateStore { .. } => ReplyKind::Store,
                StoresCall::Get { .. } => ReplyKind::MaybeStore,
                StoresCall::GetBaseProduct { .. } => ReplyKind::MaybeBaseProduct,
                StoresCall::GetProductsByBaseProduct { .. } => ReplyKind::Products,
                StoresCall::GetProductsByStore { .. } => ReplyKind::Products,
                StoresCall::UseCoupon { .. } => ReplyKind::UsedCoupon,
                StoresCall::SetStoreModerationStatus { .. } => ReplyKind::Store,
                StoresCall::SendToModeration { .. } => ReplyKind::Store,
                StoresCall::SetModerationStatusBaseProduct { .. } => ReplyKind::BaseProduct,
                StoresCall::SendToModerationBaseProduct { .. } => ReplyKind::BaseProduct,
                StoresCall::GetModerators { .. } => ReplyKind::UserIds,
                StoresCall::DeactivateBaseProduct { .. } => ReplyKind::BaseProduct,
                StoresCall::DeactivateStore { .. } => ReplyKind::Store,
                StoresCall::DeactivateProduct { .. } => ReplyKind::Product,
                StoresCall::UpdateBaseProduct { .. } => ReplyKind::BaseProduct,
                _ => ReplyKind::Ignored,
            },
            ApiCall::Orders(c) => match c {
                OrdersCall::ConvertCart { .. } => ReplyKind::Orders,
                OrdersCall::GetOrder { .. } => ReplyKind::MaybeOrder,
                OrdersCall::SetOrderState { .. } => ReplyKind::MaybeOrder,
                OrdersCall::CreateBuyNow { .. } => ReplyKind::Orders,
                _ => ReplyKind::Ignored,
            },
            ApiCall::Billing(c) => match c {
                BillingCall::CreateInvoice { .. } => ReplyKind::Invoice,
                _ => ReplyKind::Ignored,
            },
            ApiCall::Warehouses(c) => match c {
                WarehousesCall::FindByProductId { .. } => ReplyKind::Stocks,
                _ => ReplyKind::Ignored,
            },
            ApiCall::Delivery(c) => match c {
                DeliveryCall::UpsertShipping { .. } => ReplyKind::Shipping,
                _ => ReplyKind::Ignored,
            },
            ApiCall::Users(c) => match c {
                UsersCall::Get { .. } => ReplyKind::MaybeUser,
                UsersCall::CreateUser { .. } => ReplyKind::User,
                UsersCall::GetByEmail { .. } => ReplyKind::MaybeUser,
                UsersCall::CreateEmailVerifyToken { .. } => ReplyKind::Token,
                UsersCall::CreatePasswordResetToken { .. } => ReplyKind::Token,
                UsersCall::ApplyPasswordResetToken { .. } => ReplyKind::ResetApplyToken,
                UsersCall::ApplyEmailVerifyToken { .. } => ReplyKind::EmailVerifyApplyToken,
                _ => ReplyKind::Ignored,
            },
            ApiCall::Notifications(c) => match c {
                NotificationsCall::EmarsysCreateContact { .. } => ReplyKind::EmarsysContact,
                _ => ReplyKind::Ignored,
            },
        }
    }
}

}
