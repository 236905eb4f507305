use vstd::prelude::*;

verus! {

/// The states of an order.
#[derive(Clone, Copy, Debug, PartialEq, Eq, Structural)]
pub enum OrderState {
    New,
    PaymentAwaited,
    TransactionPending,
    AmountExpired,
    Paid,
    InProcessing,
    Cancelled,
    Sent,
    Delivered,
    Received,
    Complete,
}

/// The text by which an order state is written in messages.
pub open spec fn order_state_text(s: OrderState) -> Seq<char> {
    match s {
        OrderState::New => "new"@,
        OrderState::PaymentAwaited => "payment_awaited"@,
        OrderState::TransactionPending => "transaction_pending"@,
        OrderState::AmountExpired => "amount_expired"@,
        OrderState::Paid => "paid"@,
        OrderState::InProcessing => "in_processing"@,
        OrderState::Cancelled => "cancelled"@,
        OrderState::Sent => "sent"@,
        OrderState::Delivered => "delivered"@,
        OrderState::Received => "received"@,
        OrderState::Complete => "complete"@,
    }
}

impl OrderState {
    /// The text by which an order state is written in messages.
    pub fn as_str(&self) -> (r: &'static str)
        ensures
            r@ == order_state_text(*self),
    {
        match self {
            OrderState::New => "new",
            OrderState::PaymentAwaited => "payment_awaited",
            OrderState::TransactionPending => "transaction_pending",
            OrderState::AmountExpired => "amount_expired",
            OrderState::Paid => "paid",
            OrderState::InProcessing => "in_processing",
            OrderState::Cancelled => "cancelled",
            OrderState::Sent => "sent",
            OrderState::Delivered => "delivered",
            OrderState::Received => "received",
            OrderState::Complete => "complete",
        }
    }
}

/// The moderation states of stores and base products.
#[derive(Clone, Copy, Debug, PartialEq, Eq, Structural)]
pub enum ModerationStatus {
    Draft,
    Moderation,
    Decline,
    Blocked,
    Published,
}

/// The projects of the marketplace.
#[derive(Clone, Copy, Debug, PartialEq, Eq, Structural)]
pub enum Project {
    MarketPlace,
    Wallet,
}

/// The text by which a project is named in a query string.
pub open spec fn project_text(p: Project) -> Seq<char> {
    match p {
        Project::MarketPlace => "marketplace"@,
        Project::Wallet => "wallet"@,
    }
}

impl Project {
    /// The text by which a project is named in a query string.
    pub fn as_str(&self) -> (r: &'static str)
        ensures
            r@ == project_text(*self),
    {
        match self {
            Project::MarketPlace => "marketplace",
            Project::Wallet => "wallet",
        }
    }
}

/// The devices that users come from.
#[derive(Clone, Copy, Debug, PartialEq, Eq, Structural)]
pub enum Device {
    WEB,
    IOS,
    Android,
}

/// Who changed an order's state.
#[derive(Clone, Copy, Debug, PartialEq, Eq, Structural)]
pub enum CommitterRole {
    Customer,
    Seller,
}

}
