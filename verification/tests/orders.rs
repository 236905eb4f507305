use saga_coordinator::config::{
    Client, Cluster, Config, DevicesUrls, Microservice, NotificationUrls, ProjectUrls, Server, Service,
};
use saga_coordinator::errors::Error;
use saga_coordinator::http::Initiator;
use saga_coordinator::microservice::{
    ApiCall, BillingCall, NotificationsCall, OrdersCall, Reply, StoresCall, UsersCall, WarehousesCall,
};
use saga_coordinator::models::create_order::{
    BillingOrderInfo, BillingOrdersVec, BuyNow, ConvertCart, Order, OrderIdentifier, OrderPaymentStateRequest, PaymentState,
    Stock, UsedCoupon,
};
use saga_coordinator::models::create_profile::User;
use saga_coordinator::models::create_store::Store;
use saga_coordinator::models::resources::{CommitterRole, ModerationStatus, OrderState};
use saga_coordinator::services::common::{ApiFailure, Step};
use saga_coordinator::services::coupons::coupon_uses;
use saga_coordinator::services::impls::OrderServiceImpl;
use saga_coordinator::services::order_notify::{notification_tasks, order_facts, NotifyKind, OrderNotifier};
use saga_coordinator::services::order_update::{new_stock_quantity, reports_to_apply, update_state_payload};
use saga_coordinator::validation::CommonErrorMessage;
use serde_json::Value;

fn devices(prefix: &str) -> DevicesUrls {
    DevicesUrls { web: format!("{}/web", prefix), ios: format!("{}/ios", prefix), android: format!("{}/android", prefix) }
}

fn config() -> Config {
    Config {
        server: Server { host: "0.0.0.0".to_string(), port: "8000".to_string() },
        client: Client { http_timeout_ms: 10_000 },
        service: Service { processing_timeout_ms: 1_000 },
        users_microservice: Microservice { url: "http://users".to_string() },
        stores_microservice: Microservice { url: "http://stores".to_string() },
        orders_microservice: Microservice { url: "http://orders".to_string() },
        billing_microservice: Microservice { url: "http://billing".to_string() },
        warehouses_microservice: Microservice { url: "http://warehouses".to_string() },
        notifications_microservice: Microservice { url: "http://notifications".to_string() },
        delivery_microservice: Microservice { url: "http://delivery".to_string() },
        cluster: Cluster { url: "https://cluster".to_string() },
        notification_urls: NotificationUrls {
            verify_email: ProjectUrls { marketplace: devices("verify-market"), wallet: devices("verify-wallet") },
            reset_password: ProjectUrls { marketplace: devices("reset-market"), wallet: devices("reset-wallet") },
        },
    }
}

fn order(id: u128, slug: i32, customer: i32, store: i32, state: OrderState, coupon_id: Option<i32>) -> Order {
    Order { id, slug, customer, store, product: 100 + slug, quantity: 2, state, coupon_id, body: Value::from(slug) }
}

fn user(id: i32) -> User {
    User { id, email: format!("user{}@example.com", id), first_name: None, last_name: None, is_blocked: false, body: Value::Null }
}

fn store(id: i32, email: Option<&str>) -> Store {
    Store {
        id,
        user_id: 1,
        status: ModerationStatus::Published,
        email: email.map(|e| e.to_string()),
        country_code: None,
        body: Value::Null,
    }
}

fn call_of<T: std::fmt::Debug>(step: Step<T>) -> ApiCall {
    match step {
        Step::Call(c) => c,
        other => panic!("expected a call, got {:?}", other),
    }
}

fn failed() -> Result<Reply, ApiFailure> {
    Err(ApiFailure { message: None })
}

#[test]
fn billing_reports_of_its_own_states_are_dropped() {
    let infos = BillingOrdersVec(vec![
        BillingOrderInfo { order_id: 1, customer_id: 1, store_id: 1, status: OrderState::TransactionPending },
        BillingOrderInfo { order_id: 2, customer_id: 1, store_id: 1, status: OrderState::Paid },
        BillingOrderInfo { order_id: 3, customer_id: 1, store_id: 1, status: OrderState::AmountExpired },
        BillingOrderInfo { order_id: 4, customer_id: 1, store_id: 1, status: OrderState::Cancelled },
    ]);
    let kept: Vec<u128> = reports_to_apply(&infos).iter().map(|i| i.order_id).collect();
    assert_eq!(kept, vec![2, 4]);
}

#[test]
fn billing_states_are_recorded_with_their_comments() {
    let info = |status| BillingOrderInfo { order_id: 1, customer_id: 1, store_id: 1, status };
    let p = update_state_payload(info(OrderState::Paid));
    assert_eq!(p.comment.as_deref(), Some("State changed to paid by billing service."));
    assert_eq!(p.committer_role, CommitterRole::Customer);
    assert!(p.track_id.is_none());
    let p = update_state_payload(info(OrderState::TransactionPending));
    assert_eq!(p.comment.as_deref(), Some("Found new transaction in blockchain, waiting for it confirmation."));
    let p = update_state_payload(info(OrderState::AmountExpired));
    assert_eq!(
        p.comment.as_deref(),
        Some("Invoice amount expiration timeout occurred, total amount will be recalculated by billing service.")
    );
    let p = update_state_payload(info(OrderState::InProcessing));
    assert_eq!(p.comment.as_deref(), Some("State changed to in_processing by billing service."));
}

#[test]
fn stock_after_an_order_is_what_is_left() {
    assert_eq!(new_stock_quantity(10, 3), 7);
    assert_eq!(new_stock_quantity(3, 3), 0);
    assert_eq!(new_stock_quantity(2, 5), 0);
    assert_eq!(new_stock_quantity(i32::MAX, -1), i32::MIN);
    assert_eq!(new_stock_quantity(-1, -5), 4);
}

#[test]
fn paid_and_later_orders_notify_customer_and_store() {
    let orders = vec![
        Some(order_facts(&order(1, 11, 5, 9, OrderState::Paid, None))),
        None,
        Some(order_facts(&order(2, 12, 6, 9, OrderState::New, None))),
        Some(order_facts(&order(3, 13, 7, 8, OrderState::Sent, None))),
    ];
    let tasks = notification_tasks(&orders);
    let kinds: Vec<(NotifyKind, i32, i32)> = tasks.iter().map(|t| (t.kind, t.to, t.slug)).collect();
    assert_eq!(
        kinds,
        vec![
            (NotifyKind::UserOrderCreate, 5, 11),
            (NotifyKind::StoreOrderCreate, 9, 11),
            (NotifyKind::UserOrderUpdate, 7, 13),
            (NotifyKind::StoreOrderUpdate, 8, 13),
        ]
    );
}

#[test]
fn the_notifier_sends_to_those_it_finds() {
    let orders = vec![Some(order_facts(&order(3, 13, 7, 8, OrderState::Sent, None)))];
    let (notifier, first) = OrderNotifier::new(&orders, "https://cluster".to_string());
    assert!(matches!(first, Some(ApiCall::Users(UsersCall::Get { initiator: Some(Initiator::User(7)), user_id: 7 }))));
    let (notifier, next) = notifier.on_outcome(Ok(Reply::MaybeUser(Some(user(7)))));
    match next {
        Some(ApiCall::Notifications(NotificationsCall::OrderUpdateStateForUser { payload, .. })) => {
            assert_eq!(payload.order_slug, "13");
            assert_eq!(payload.order_state, "sent");
            assert_eq!(payload.user.first_name, "user");
        }
        other => panic!("unexpected {:?}", other),
    }
    let (notifier, next) = notifier.on_outcome(failed());
    assert!(matches!(next, Some(ApiCall::Stores(StoresCall::Get { store_id: 8, .. }))));
    let (notifier, next) = notifier.on_outcome(Ok(Reply::MaybeStore(Some(store(8, Some("shop@example.com"))))));
    match next {
        Some(ApiCall::Notifications(NotificationsCall::OrderUpdateStateForStore { payload, .. })) => {
            assert_eq!(payload.store_email, "shop@example.com");
            assert_eq!(payload.store_id, "8");
        }
        other => panic!("unexpected {:?}", other),
    }
    let (_, next) = notifier.on_outcome(Ok(Reply::Ignored));
    assert!(next.is_none());
}

#[test]
fn a_store_without_an_address_gets_no_email() {
    let orders = vec![Some(order_facts(&order(1, 11, 5, 9, OrderState::Paid, None)))];
    let (notifier, _) = OrderNotifier::new(&orders, "https://cluster".to_string());
    let (notifier, _) = notifier.on_outcome(Ok(Reply::MaybeUser(None)));
    let (_, next) = notifier.on_outcome(Ok(Reply::MaybeStore(Some(store(9, None)))));
    assert!(next.is_none());
}

#[test]
fn each_coupon_is_used_once_by_the_customer_of_its_last_order() {
    let orders = vec![
        order_facts(&order(1, 1, 5, 9, OrderState::New, Some(40))),
        order_facts(&order(2, 2, 6, 9, OrderState::New, None)),
        order_facts(&order(3, 3, 7, 9, OrderState::New, Some(41))),
        order_facts(&order(4, 4, 8, 9, OrderState::New, Some(40))),
    ];
    assert_eq!(coupon_uses(&orders), vec![(40, 8), (41, 7)]);
}

#[test]
fn a_cart_becomes_orders_an_invoice_and_coupon_uses() {
    let service = OrderServiceImpl::new(&config());
    let input = ConvertCart { customer_id: 5, currency: "STQ".to_string(), body: Value::Null };
    let (saga, first) = service.create(input);
    let conversion_id = match first {
        ApiCall::Orders(OrdersCall::ConvertCart { payload }) => {
            assert_eq!(payload.cart.customer_id, 5);
            payload.conversion_id.unwrap()
        }
        other => panic!("unexpected {:?}", other),
    };
    let created = vec![order(1, 11, 5, 9, OrderState::New, Some(40)), order(2, 12, 5, 8, OrderState::New, None)];
    let (saga, step) = saga.on_outcome(Ok(Reply::Orders(created)));
    match call_of(step) {
        ApiCall::Billing(BillingCall::CreateInvoice { initiator: Initiator::Superadmin, payload }) => {
            assert_eq!(payload.customer_id, 5);
            assert_eq!(payload.currency, "STQ");
            assert_eq!(payload.orders, vec![Value::from(11), Value::from(12)]);
            assert_ne!(payload.saga_id, conversion_id);
        }
        other => panic!("unexpected {:?}", other),
    }
    let (saga, step) = saga.on_outcome(Ok(Reply::Invoice(Value::from("invoice"))));
    assert!(matches!(
        call_of(step),
        ApiCall::Stores(StoresCall::UseCoupon { initiator: Initiator::Superadmin, coupon_id: 40, user_id: 5 })
    ));
    let (saga, step) = saga.on_outcome(Ok(Reply::UsedCoupon(UsedCoupon { coupon_id: 40, user_id: 5 })));
    assert!(saga.is_over());
    match step {
        Step::Done(created) => {
            assert_eq!(created.invoice, Value::from("invoice"));
            assert!(created.first_call.is_none());
        }
        other => panic!("unexpected {:?}", other),
    }
}

#[test]
fn a_failed_invoice_undoes_the_conversion() {
    let service = OrderServiceImpl::new(&config());
    let input = ConvertCart { customer_id: 5, currency: "STQ".to_string(), body: Value::Null };
    let (saga, first) = service.create(input);
    let conversion_id = match first {
        ApiCall::Orders(OrdersCall::ConvertCart { payload }) => payload.conversion_id.unwrap(),
        other => panic!("unexpected {:?}", other),
    };
    let (saga, step) = saga.on_outcome(Ok(Reply::Orders(vec![order(1, 11, 5, 9, OrderState::New, None)])));
    let saga_id = match call_of(step) {
        ApiCall::Billing(BillingCall::CreateInvoice { payload, .. }) => payload.saga_id,
        other => panic!("unexpected {:?}", other),
    };
    let (_, step) = saga.on_outcome(failed());
    match step {
        Step::Revert { calls, error } => {
            assert!(matches!(error, Error::HttpClient));
            assert_eq!(calls.len(), 1);
            assert!(matches!(calls[0], ApiCall::Orders(OrdersCall::RevertConvertCart { payload, .. }) if payload.conversion_id == conversion_id));
        }
        other => panic!("unexpected {:?}", other),
    }
    assert_ne!(saga_id, 0);
}

#[test]
fn a_failed_buy_now_just_fails() {
    let service = OrderServiceImpl::new(&config());
    let (saga, first) = service.create_buy_now(BuyNow { customer_id: 5, currency: "ETH".to_string(), body: Value::Null });
    assert!(matches!(first, ApiCall::Orders(OrdersCall::CreateBuyNow { .. })));
    let refusal = ApiFailure { message: Some(CommonErrorMessage { code: 404, description: "no".to_string(), payload: None }) };
    let (_, step) = saga.on_outcome(Err(refusal));
    assert!(matches!(step, Step::Fail(Error::NotFound)));
}

#[test]
fn billing_reports_change_orders_and_stocks() {
    let service = OrderServiceImpl::new(&config());
    let infos = BillingOrdersVec(vec![
        BillingOrderInfo { order_id: 1, customer_id: 5, store_id: 9, status: OrderState::Paid },
        BillingOrderInfo { order_id: 2, customer_id: 6, store_id: 9, status: OrderState::Paid },
    ]);
    let (saga, step) = service.update_state_by_billing(&infos);
    match call_of(step) {
        ApiCall::Orders(OrdersCall::GetOrder { initiator, order }) => {
            assert_eq!(initiator, Some(Initiator::User(5)));
            assert_eq!(order, OrderIdentifier::Id(1));
        }
        other => panic!("unexpected {:?}", other),
    }
    let (saga, step) = saga.on_outcome(Ok(Reply::MaybeOrder(Some(order(1, 11, 5, 9, OrderState::PaymentAwaited, None)))));
    match call_of(step) {
        ApiCall::Orders(OrdersCall::SetOrderState { initiator, order, payload }) => {
            assert_eq!(initiator, Some(Initiator::Superadmin));
            assert_eq!(order, OrderIdentifier::Id(1));
            assert_eq!(payload.state, OrderState::Paid);
        }
        other => panic!("unexpected {:?}", other),
    }
    let (saga, step) = saga.on_outcome(Ok(Reply::MaybeOrder(Some(order(1, 11, 5, 9, OrderState::Paid, None)))));
    assert!(matches!(call_of(step), ApiCall::Orders(OrdersCall::GetOrder { order: OrderIdentifier::Id(2), .. })));
    let (saga, step) = saga.on_outcome(Ok(Reply::MaybeOrder(Some(order(2, 12, 6, 9, OrderState::Paid, None)))));
    assert!(matches!(call_of(step), ApiCall::Warehouses(WarehousesCall::FindByProductId { product_id: 111, .. })));
    let stock = Stock { warehouse_id: 77, product_id: 111, quantity: 5 };
    let (saga, step) = saga.on_outcome(Ok(Reply::Stocks(vec![stock])));
    assert!(matches!(
        call_of(step),
        ApiCall::Warehouses(WarehousesCall::SetProductInWarehouse { warehouse_id: 77, product_id: 111, quantity: 3, .. })
    ));
    let (saga, step) = saga.on_outcome(Ok(Reply::Ignored));
    assert!(saga.is_over());
    match step {
        Step::Done(n) => assert!(matches!(n.first_call, Some(ApiCall::Users(UsersCall::Get { user_id: 5, .. })))),
        other => panic!("unexpected {:?}", other),
    }
}

#[test]
fn a_missing_reported_order_is_not_found() {
    let service = OrderServiceImpl::new(&config());
    let infos = BillingOrdersVec(vec![BillingOrderInfo { order_id: 1, customer_id: 5, store_id: 9, status: OrderState::Paid }]);
    let (saga, _) = service.update_state_by_billing(&infos);
    let (_, step) = saga.on_outcome(Ok(Reply::MaybeOrder(None)));
    assert!(matches!(step, Step::Fail(Error::NotFound)));
}

#[test]
fn reports_with_nothing_to_change_are_done_at_once() {
    let service = OrderServiceImpl::new(&config());
    let infos = BillingOrdersVec(vec![BillingOrderInfo { order_id: 1, customer_id: 5, store_id: 9, status: OrderState::AmountExpired }]);
    let (saga, step) = service.update_state_by_billing(&infos);
    assert!(saga.is_over());
    assert!(matches!(step, Step::Done(n) if n.first_call.is_none()));
}

#[test]
fn a_manager_sets_an_orders_state() {
    let service = OrderServiceImpl::new(&config());
    let (saga, first) =
        service.manual_set_state(11, OrderState::Sent, Some("TRACK".to_string()), Some("sent today".to_string()), CommitterRole::Seller);
    assert!(matches!(first, ApiCall::Orders(OrdersCall::GetOrder { initiator: None, order: OrderIdentifier::Slug(11) })));
    let (saga, step) = saga.on_outcome(Ok(Reply::MaybeOrder(Some(order(1, 11, 5, 9, OrderState::Paid, None)))));
    match call_of(step) {
        ApiCall::Orders(OrdersCall::SetOrderState { initiator: None, order: OrderIdentifier::Slug(11), payload }) => {
            assert_eq!(payload.state, OrderState::Sent);
            assert_eq!(payload.track_id.as_deref(), Some("TRACK"));
            assert_eq!(payload.comment.as_deref(), Some("sent today"));
            assert_eq!(payload.committer_role, CommitterRole::Seller);
        }
        other => panic!("unexpected {:?}", other),
    }
    let (saga, step) = saga.on_outcome(Ok(Reply::MaybeOrder(Some(order(1, 11, 5, 9, OrderState::Sent, None)))));
    assert!(saga.is_over());
    match step {
        Step::Done(set) => {
            assert_eq!(set.order.unwrap().state, OrderState::Sent);
            assert!(matches!(set.notified.first_call, Some(ApiCall::Users(UsersCall::Get { user_id: 5, .. }))));
        }
        other => panic!("unexpected {:?}", other),
    }
}

#[test]
fn a_state_that_an_order_already_has_is_not_set_again() {
    let service = OrderServiceImpl::new(&config());
    let (saga, _) = service.manual_set_state(11, OrderState::Sent, None, None, CommitterRole::Seller);
    let (saga, step) = saga.on_outcome(Ok(Reply::MaybeOrder(Some(order(1, 11, 5, 9, OrderState::Sent, None)))));
    assert!(saga.is_over());
    assert!(matches!(step, Step::Done(set) if set.order.is_none()));
}

#[test]
fn setting_the_state_of_a_missing_order_is_not_found() {
    let service = OrderServiceImpl::new(&config());
    let (saga, _) = service.manual_set_state(11, OrderState::Sent, None, None, CommitterRole::Seller);
    let (_, step) = saga.on_outcome(Ok(Reply::MaybeOrder(None)));
    assert!(matches!(step, Step::Fail(Error::NotFound)));
}

#[test]
fn a_payment_state_goes_to_billing() {
    let service = OrderServiceImpl::new(&config());
    let call = service.manual_set_payment_state(0xabc, OrderPaymentStateRequest { state: PaymentState::Captured });
    assert!(matches!(
        call,
        ApiCall::Billing(BillingCall::SetPaymentState { initiator: None, order_id: 0xabc, payload }) if payload.state == PaymentState::Captured
    ));
    let target = call.target(&config());
    assert_eq!(target.url, "http://billing/orders/00000000-0000-0000-0000-000000000abc/set_payment_state");
}

#[test]
fn a_refused_payment_state_is_an_http_client_failure() {
    let service = OrderServiceImpl::new(&config());
    assert!(service.payment_state_result(Ok(Reply::Ignored)).is_ok());
    let refusal = ApiFailure { message: Some(CommonErrorMessage { code: 404, description: "no".to_string(), payload: None }) };
    assert!(matches!(service.payment_state_result(Err(refusal)), Err(Error::HttpClient)));
}
