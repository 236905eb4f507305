use vstd::prelude::*;

use crate::ids::{ConversionId, CouponId, OrderId, OrderSlug, ProductId, SagaId, StoreId, UserId, WarehouseId};
use crate::models::resources::{CommitterRole, OrderState};

verus! {

/// A cart to be turned into orders, as the client sends it: the customer, the
/// currency, and the whole JSON object.
#[derive(Debug)]
pub struct ConvertCart {
    pub customer_id: UserId,
    pub currency: String,
    pub body: serde_json::Value,
}

/// A purchase of one product without a cart, as the client sends it: the
/// customer, the currency, and the whole JSON object.
#[derive(Debug)]
pub struct BuyNow {
    pub customer_id: UserId,
    pub currency: String,
    pub body: serde_json::Value,
}

/// An order as the orders microservice returns it: what the coordinator
/// reads, and the whole JSON object.
#[derive(Debug)]
pub struct Order {
    pub id: OrderId,
    pub slug: OrderSlug,
    pub customer: UserId,
    pub store: StoreId,
    pub product: ProductId,
    pub quantity: i32,
    pub state: OrderState,
    pub coupon_id: Option<CouponId>,
    pub body: serde_json::Value,
}

/// The cart conversion sent to the orders microservice: the cart, under a
/// conversion id that lets it be reverted.
#[derive(Debug)]
pub struct ConvertCartPayload {
    pub conversion_id: Option<ConversionId>,
    pub cart: ConvertCart,
}

/// The purchase sent to the orders microservice, under a conversion id.
#[derive(Debug)]
pub struct BuyNowPayload {
    pub conversion_id: Option<ConversionId>,
    pub buy_now: BuyNow,
}

/// Undoes a cart conversion.
#[derive(Clone, Copy, Debug, PartialEq, Eq, Structural)]
pub struct ConvertCartRevert {
    pub conversion_id: ConversionId,
}

/// An invoice to be created by billing for orders. The orders travel as the
/// JSON objects that the orders microservice returned.
#[derive(Debug)]
pub struct CreateInvoice {
    pub orders: Vec<serde_json::Value>,
    pub customer_id: UserId,
    pub saga_id: SagaId,
    pub currency: String,
}

/// A change of an order's state, as billing reports it.
#[derive(Clone, Copy, Debug, PartialEq, Eq, Structural)]
pub struct BillingOrderInfo {
    pub order_id: OrderId,
    pub customer_id: UserId,
    pub store_id: StoreId,
    pub status: OrderState,
}

/// The changes that billing reports at once.
#[derive(Clone, Debug)]
pub struct BillingOrdersVec(pub Vec<BillingOrderInfo>);

/// A new state for an order.
#[derive(Clone, Debug)]
pub struct UpdateStatePayload {
    pub state: OrderState,
    pub track_id: Option<String>,
    pub comment: Option<String>,
    pub committer_role: CommitterRole,
}

/// How an order is named in a path.
#[derive(Clone, Copy, Debug, PartialEq, Eq, Structural)]
pub enum OrderIdentifier {
    Id(OrderId),
    Slug(OrderSlug),
}

/// A coupon that a customer has used.
#[derive(Clone, Copy, Debug, PartialEq, Eq, Structural)]
pub struct UsedCoupon {
    pub coupon_id: CouponId,
    pub user_id: UserId,
}

/// The stock of a product in a warehouse.
#[derive(Clone, Copy, Debug, PartialEq, Eq, Structural)]
pub struct Stock {
    pub warehouse_id: WarehouseId,
    pub product_id: ProductId,
    pub quantity: i32,
}

/// The states of an order's payment.
#[derive(Clone, Copy, Debug, PartialEq, Eq, Structural)]
pub enum PaymentState {
    Initial,
    Declined,
    Captured,
    RefundNeeded,
    Refunded,
    PaidToSeller,
    PaymentToSellerNeeded,
}

/// A new payment state for an order.
#[derive(Clone, Copy, Debug, PartialEq, Eq, Structural)]
pub struct OrderPaymentStateRequest {
    pub state: PaymentState,
}

/// The entries of the log of an order's creation.
#[derive(Clone, Copy, Debug, PartialEq, Eq, Structural)]
pub enum CreateOrderOperationStage {
    OrdersConvertCartStart(ConversionId),
    OrdersConvertCartComplete(ConversionId),
    BillingCreateInvoiceStart(SagaId),
    BillingCreateInvoiceComplete(SagaId),
}

}
