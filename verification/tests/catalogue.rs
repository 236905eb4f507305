use saga_coordinator::config::{
    Client, Cluster, Config, DevicesUrls, Microservice, NotificationUrls, ProjectUrls, Server, Service,
};
use saga_coordinator::errors::Error;
use saga_coordinator::http::Initiator;
use saga_coordinator::microservice::{
    ApiCall, BillingCall, DeliveryCall, NotificationsCall, OrdersCall, Reply, ReplyKind, StoresCall, UsersCall,
    WarehousesCall,
};
use saga_coordinator::models::create_profile::User;
use saga_coordinator::models::create_store::{NewStore, Store};
use saga_coordinator::models::moderate::{BaseProduct, BaseProductModerate, Product, StoreModerate};
use saga_coordinator::models::resources::ModerationStatus;
use saga_coordinator::models::visibility::Visibility;
use saga_coordinator::services::carts::{is_status_change_requires_to_delete_product, product_ids, CartsCleanupSaga};
use saga_coordinator::services::common::{ApiFailure, Step, UndoRun};
use saga_coordinator::services::impls::{DeliveryServiceImpl, StoreServiceImpl};
use saga_coordinator::services::store_create::{create_store_revert, CreateStoreSaga};
use saga_coordinator::validation::CommonErrorMessage;
use saga_coordinator::models::create_store::CreateStoreOperationStage;
use serde_json::Value;

fn devices(prefix: &str) -> DevicesUrls {
    DevicesUrls { web: format!("{}/web", prefix), ios: format!("{}/ios", prefix), android: format!("{}/android", prefix) }
}

fn config() -> Config {
    Config {
        server: Server { host: "0.0.0.0".to_string(), port: "8000".to_string() },
        client: Client { http_timeout_ms: 10_000 },
        service: Service { processing_timeout_ms: 1_000 },
        users_microservice: Microservice { url: "http://users".to_string() },
        stores_microservice: Microservice { url: "http://stores".to_string() },
        orders_microservice: Microservice { url: "http://orders".to_string() },
        billing_microservice: Microservice { url: "http://billing".to_string() },
        warehouses_microservice: Microservice { url: "http://warehouses".to_string() },
        notifications_microservice: Microservice { url: "http://notifications".to_string() },
        delivery_microservice: Microservice { url: "http://delivery".to_string() },
        cluster: Cluster { url: "https://cluster".to_string() },
        notification_urls: NotificationUrls {
            verify_email: ProjectUrls { marketplace: devices("verify-market"), wallet: devices("verify-wallet") },
            reset_password: ProjectUrls { marketplace: devices("reset-market"), wallet: devices("reset-wallet") },
        },
    }
}

fn store(id: i32, user_id: i32, status: ModerationStatus) -> Store {
    Store { id, user_id, status, email: None, country_code: Some("RUS".to_string()), body: Value::Null }
}

fn base_product(id: i32, store_id: i32, status: ModerationStatus) -> BaseProduct {
    BaseProduct { id, store_id, status, body: Value::Null }
}

fn product(id: i32) -> Product {
    Product { id, body: Value::Null }
}

fn user(id: i32, email: &str, first_name: Option<&str>) -> User {
    User {
        id,
        email: email.to_string(),
        first_name: first_name.map(|n| n.to_string()),
        last_name: None,
        is_blocked: false,
        body: Value::Null,
    }
}

fn failed() -> Result<Reply, ApiFailure> {
    Err(ApiFailure { message: None })
}

fn ignored() -> Result<Reply, ApiFailure> {
    Ok(Reply::Ignored)
}

fn call_of<T: std::fmt::Debug>(step: Step<T>) -> ApiCall {
    match step {
        Step::Call(c) => c,
        other => panic!("expected a call, got {:?}", other),
    }
}

#[test]
fn store_creation_makes_every_role_and_the_merchant() {
    let (saga, first) = CreateStoreSaga::start(NewStore { user_id: 5, body: Value::Null });
    assert!(matches!(first, ApiCall::Stores(StoresCall::CreateStore { initiator: None, payload: NewStore { user_id: 5, .. } })));
    assert!(saga.awaits(ReplyKind::Store));
    let (saga, step) = saga.on_outcome(Ok(Reply::Store(store(10, 5, ModerationStatus::Draft))));
    let warehouse_role = match call_of(step) {
        ApiCall::Warehouses(WarehousesCall::CreateWarehouseRole { initiator: Some(Initiator::Superadmin), payload }) => {
            assert_eq!(payload.user_id, 5);
            assert_eq!(payload.role.data, 10);
            payload.id
        }
        other => panic!("unexpected {:?}", other),
    };
    let (saga, step) = saga.on_outcome(ignored());
    let orders_role = match call_of(step) {
        ApiCall::Orders(OrdersCall::CreateRole { initiator: Some(Initiator::Superadmin), payload }) => {
            assert_eq!(payload.role.data, 10);
            payload.id
        }
        other => panic!("unexpected {:?}", other),
    };
    assert_ne!(warehouse_role, orders_role);
    let (saga, step) = saga.on_outcome(ignored());
    assert!(matches!(call_of(step), ApiCall::Billing(BillingCall::CreateRole { payload, .. }) if payload.data == Some(10) && payload.user_id == 5));
    let (saga, step) = saga.on_outcome(ignored());
    assert!(matches!(call_of(step), ApiCall::Delivery(DeliveryCall::CreateDeliveryRole { payload, .. }) if payload.data == Some(10)));
    let (saga, step) = saga.on_outcome(ignored());
    match call_of(step) {
        ApiCall::Billing(BillingCall::CreateStoreMerchant { initiator: Some(Initiator::Superadmin), payload }) => {
            assert_eq!(payload.id, 10);
            assert_eq!(payload.country_code, Some("RUS".to_string()));
        }
        other => panic!("unexpected {:?}", other),
    }
    let (saga, step) = saga.on_outcome(ignored());
    assert!(saga.is_over());
    match step {
        Step::Done(s) => assert_eq!(s.id, 10),
        other => panic!("unexpected {:?}", other),
    }
}

#[test]
fn a_failed_store_creation_undoes_what_was_done() {
    let (saga, _) = CreateStoreSaga::start(NewStore { user_id: 5, body: Value::Null });
    let (saga, _) = saga.on_outcome(Ok(Reply::Store(store(10, 5, ModerationStatus::Draft))));
    let (saga, step) = saga.on_outcome(ignored());
    let orders_role = match call_of(step) {
        ApiCall::Orders(OrdersCall::CreateRole { payload, .. }) => payload.id,
        other => panic!("unexpected {:?}", other),
    };
    let failure = ApiFailure {
        message: Some(CommonErrorMessage { code: 404, description: "gone".to_string(), payload: None }),
    };
    let (saga, step) = saga.on_outcome(Err(failure));
    assert!(saga.is_over());
    match step {
        Step::Revert { calls, error } => {
            assert!(matches!(error, Error::NotFound));
            assert_eq!(calls.len(), 2);
            assert!(matches!(calls[0], ApiCall::Stores(StoresCall::DeleteStore { store_id: 10, initiator: Some(Initiator::Superadmin) })));
            assert!(matches!(calls[1], ApiCall::Warehouses(WarehousesCall::DeleteWarehouseRole { .. })));
            if let ApiCall::Warehouses(WarehousesCall::DeleteWarehouseRole { role_id, .. }) = calls[1] {
                assert_ne!(role_id, orders_role);
            }
        }
        other => panic!("unexpected {:?}", other),
    }
}

#[test]
fn a_failed_store_creation_undoes_nothing_when_nothing_was_done() {
    let (saga, _) = CreateStoreSaga::start(NewStore { user_id: 5, body: Value::Null });
    let (_, step) = saga.on_outcome(failed());
    match step {
        Step::Revert { calls, error } => {
            assert!(calls.is_empty());
            assert!(matches!(error, Error::HttpClient));
        }
        other => panic!("unexpected {:?}", other),
    }
}

#[test]
fn reverting_a_log_undoes_completed_steps_in_order() {
    let log = vec![
        CreateStoreOperationStage::StoreCreationStart(5),
        CreateStoreOperationStage::StoreCreationComplete(10),
        CreateStoreOperationStage::BillingRoleSetStart(7),
        CreateStoreOperationStage::BillingRoleSetComplete(7),
        CreateStoreOperationStage::BillingCreateMerchantStart(10),
    ];
    let calls = create_store_revert(&log);
    assert_eq!(calls.len(), 2);
    assert!(matches!(calls[0], ApiCall::Stores(StoresCall::DeleteStore { store_id: 10, .. })));
    assert!(matches!(calls[1], ApiCall::Billing(BillingCall::DeleteRole { role_id: 7, .. })));
}

#[test]
fn only_leaving_publication_takes_products_out_of_carts() {
    let m = |a, b| is_status_change_requires_to_delete_product(a, b);
    assert!(m(ModerationStatus::Published, ModerationStatus::Blocked));
    assert!(m(ModerationStatus::Published, ModerationStatus::Draft));
    assert!(!m(ModerationStatus::Published, ModerationStatus::Published));
    assert!(!m(ModerationStatus::Moderation, ModerationStatus::Published));
    assert!(!m(ModerationStatus::Draft, ModerationStatus::Blocked));
}

#[test]
fn product_ids_keep_their_order() {
    assert_eq!(product_ids(&vec![product(3), product(1), product(2)]), vec![3, 1, 2]);
    assert!(product_ids(&vec![]).is_empty());
}

#[test]
fn unpublishing_a_store_empties_carts_and_tells_the_manager() {
    let service = StoreServiceImpl::new(&config());
    let (saga, first) = service.set_store_moderation_status(StoreModerate { store_id: 10, status: ModerationStatus::Blocked });
    assert!(matches!(first, ApiCall::Stores(StoresCall::Get { store_id: 10, visibility: Visibility::Active })));
    let (saga, step) = saga.on_outcome(Ok(Reply::MaybeStore(Some(store(10, 5, ModerationStatus::Published)))));
    assert!(matches!(call_of(step), ApiCall::Stores(StoresCall::SetStoreModerationStatus { payload }) if payload.store_id == 10));
    let (saga, step) = saga.on_outcome(Ok(Reply::Store(store(10, 5, ModerationStatus::Blocked))));
    assert!(matches!(call_of(step), ApiCall::Stores(StoresCall::GetProductsByStore { store_id: 10 })));
    let (saga, step) = saga.on_outcome(Ok(Reply::Products(vec![product(1), product(2)])));
    match call_of(step) {
        ApiCall::Orders(OrdersCall::DeleteProductsFromAllCarts { initiator: Some(Initiator::Superadmin), payload }) => {
            assert_eq!(payload.product_ids, vec![1, 2])
        }
        other => panic!("unexpected {:?}", other),
    }
    let (saga, step) = saga.on_outcome(ignored());
    assert!(matches!(call_of(step), ApiCall::Users(UsersCall::Get { initiator: Some(Initiator::Superadmin), user_id: 5 })));
    let (saga, step) = saga.on_outcome(Ok(Reply::MaybeUser(Some(user(5, "manager@example.com", None)))));
    match call_of(step) {
        ApiCall::Notifications(NotificationsCall::StoreModerationStatusForUser { initiator: Initiator::Superadmin, payload }) => {
            assert_eq!(payload.store_email, "manager@example.com");
            assert_eq!(payload.store_id, "10");
            assert_eq!(payload.cluster_url, "https://cluster");
            assert_eq!(payload.status, ModerationStatus::Blocked);
        }
        other => panic!("unexpected {:?}", other),
    }
    let (saga, step) = saga.on_outcome(failed());
    assert!(saga.is_over());
    assert!(matches!(step, Step::Done(s) if s.id == 10 && s.status == ModerationStatus::Blocked));
}

#[test]
fn publishing_a_store_leaves_carts_alone() {
    let service = StoreServiceImpl::new(&config());
    let (saga, _) = service.set_store_moderation_status(StoreModerate { store_id: 10, status: ModerationStatus::Published });
    let (saga, _) = saga.on_outcome(Ok(Reply::MaybeStore(Some(store(10, 5, ModerationStatus::Moderation)))));
    let (saga, step) = saga.on_outcome(Ok(Reply::Store(store(10, 5, ModerationStatus::Published))));
    assert!(matches!(call_of(step), ApiCall::Users(UsersCall::Get { user_id: 5, .. })));
    let (saga, step) = saga.on_outcome(Ok(Reply::MaybeUser(None)));
    assert!(saga.is_over());
    assert!(matches!(step, Step::Done(s) if s.id == 10));
}

#[test]
fn moderating_a_missing_store_is_not_found() {
    let service = StoreServiceImpl::new(&config());
    let (saga, _) = service.set_store_moderation_status(StoreModerate { store_id: 10, status: ModerationStatus::Published });
    let (_, step) = saga.on_outcome(Ok(Reply::MaybeStore(None)));
    assert!(matches!(step, Step::Fail(Error::NotFound)));
}

#[test]
fn a_refused_status_change_is_an_unknown_failure() {
    let service = StoreServiceImpl::new(&config());
    let (saga, _) = service.set_store_moderation_status(StoreModerate { store_id: 10, status: ModerationStatus::Published });
    let (saga, _) = saga.on_outcome(Ok(Reply::MaybeStore(Some(store(10, 5, ModerationStatus::Draft)))));
    let (_, step) = saga.on_outcome(failed());
    assert!(matches!(step, Step::Fail(Error::Unknown)));
}

#[test]
fn a_failed_store_lookup_fails_the_decision() {
    let service = StoreServiceImpl::new(&config());
    let (saga, _) = service.set_store_moderation_status(StoreModerate { store_id: 10, status: ModerationStatus::Published });
    let (_, step) = saga.on_outcome(failed());
    assert!(matches!(step, Step::Fail(Error::HttpClient)));
}

#[test]
fn unpublishing_a_base_product_empties_carts_and_tells_the_manager() {
    let service = StoreServiceImpl::new(&config());
    let (saga, first) =
        service.set_moderation_status_base_product(BaseProductModerate { base_product_id: 3, status: ModerationStatus::Decline });
    assert!(matches!(first, ApiCall::Stores(StoresCall::GetBaseProduct { base_product_id: 3, visibility: Visibility::Active })));
    let (saga, _) = saga.on_outcome(Ok(Reply::MaybeBaseProduct(Some(base_product(3, 10, ModerationStatus::Published)))));
    let (saga, step) = saga.on_outcome(Ok(Reply::BaseProduct(base_product(3, 10, ModerationStatus::Decline))));
    assert!(matches!(call_of(step), ApiCall::Stores(StoresCall::GetProductsByBaseProduct { base_product_id: 3 })));
    let (saga, step) = saga.on_outcome(Ok(Reply::Products(vec![product(31)])));
    assert!(matches!(call_of(step), ApiCall::Orders(OrdersCall::DeleteProductsFromAllCarts { payload, .. }) if payload.product_ids == vec![31]));
    let (saga, step) = saga.on_outcome(ignored());
    assert!(matches!(call_of(step), ApiCall::Stores(StoresCall::Get { store_id: 10, visibility: Visibility::Active })));
    let (saga, step) = saga.on_outcome(Ok(Reply::MaybeStore(Some(store(10, 5, ModerationStatus::Published)))));
    assert!(matches!(call_of(step), ApiCall::Users(UsersCall::Get { user_id: 5, .. })));
    let (saga, step) = saga.on_outcome(Ok(Reply::MaybeUser(Some(user(5, "manager@example.com", None)))));
    match call_of(step) {
        ApiCall::Notifications(NotificationsCall::BaseProductModerationStatusForUser { payload, .. }) => {
            assert_eq!(payload.store_email, "manager@example.com");
            assert_eq!(payload.store_id, "10");
            assert_eq!(payload.base_product_id, "3");
            assert_eq!(payload.status, ModerationStatus::Decline);
        }
        other => panic!("unexpected {:?}", other),
    }
    let (saga, step) = saga.on_outcome(ignored());
    assert!(saga.is_over());
    assert!(matches!(step, Step::Done(())));
}

#[test]
fn a_base_product_whose_store_is_gone_is_not_found() {
    let service = StoreServiceImpl::new(&config());
    let (saga, _) =
        service.set_moderation_status_base_product(BaseProductModerate { base_product_id: 3, status: ModerationStatus::Published });
    let (saga, _) = saga.on_outcome(Ok(Reply::MaybeBaseProduct(Some(base_product(3, 10, ModerationStatus::Moderation)))));
    let (saga, step) = saga.on_outcome(Ok(Reply::BaseProduct(base_product(3, 10, ModerationStatus::Published))));
    assert!(matches!(call_of(step), ApiCall::Stores(StoresCall::Get { store_id: 10, .. })));
    let (_, step) = saga.on_outcome(Ok(Reply::MaybeStore(None)));
    assert!(matches!(step, Step::Fail(Error::NotFound)));
}

#[test]
fn every_moderator_found_hears_of_a_request_for_moderation() {
    let service = StoreServiceImpl::new(&config());
    let (saga, first) = service.send_to_moderation(10);
    assert!(matches!(first, ApiCall::Stores(StoresCall::SendToModeration { store_id: 10 })));
    let (saga, step) = saga.on_outcome(Ok(Reply::Store(store(10, 5, ModerationStatus::Moderation))));
    assert!(matches!(call_of(step), ApiCall::Stores(StoresCall::GetModerators { initiator: Initiator::Superadmin })));
    let (saga, step) = saga.on_outcome(Ok(Reply::UserIds(vec![21, 22, 23])));
    assert!(matches!(call_of(step), ApiCall::Users(UsersCall::Get { user_id: 21, .. })));
    let (saga, step) = saga.on_outcome(Ok(Reply::MaybeUser(Some(user(21, "a@example.com", Some("Ann"))))));
    match call_of(step) {
        ApiCall::Notifications(NotificationsCall::StoreModerationStatusForModerator { payload, .. }) => {
            assert_eq!(payload.user.email, "a@example.com");
            assert_eq!(payload.user.first_name, "Ann");
            assert_eq!(payload.user.last_name, "");
            assert_eq!(payload.store_id, "10");
            assert_eq!(payload.status, ModerationStatus::Moderation);
        }
        other => panic!("unexpected {:?}", other),
    }
    let (saga, step) = saga.on_outcome(failed());
    assert!(matches!(call_of(step), ApiCall::Users(UsersCall::Get { user_id: 22, .. })));
    let (saga, step) = saga.on_outcome(Ok(Reply::MaybeUser(None)));
    assert!(matches!(call_of(step), ApiCall::Users(UsersCall::Get { user_id: 23, .. })));
    let (saga, step) = saga.on_outcome(Ok(Reply::MaybeUser(Some(user(23, "c@example.com", None)))));
    match call_of(step) {
        ApiCall::Notifications(NotificationsCall::StoreModerationStatusForModerator { payload, .. }) => {
            assert_eq!(payload.user.first_name, "user")
        }
        other => panic!("unexpected {:?}", other),
    }
    let (saga, step) = saga.on_outcome(ignored());
    assert!(saga.is_over());
    assert!(matches!(step, Step::Done(Reply::Store(s)) if s.id == 10));
}

#[test]
fn a_base_product_sent_to_moderation_without_moderators_is_done() {
    let service = StoreServiceImpl::new(&config());
    let (saga, first) = service.send_to_moderation_base_product(3);
    assert!(matches!(first, ApiCall::Stores(StoresCall::SendToModerationBaseProduct { base_product_id: 3 })));
    assert!(saga.awaits(ReplyKind::BaseProduct));
    let (saga, _) = saga.on_outcome(Ok(Reply::BaseProduct(base_product(3, 10, ModerationStatus::Moderation))));
    let (saga, step) = saga.on_outcome(Ok(Reply::UserIds(vec![])));
    assert!(saga.is_over());
    assert!(matches!(step, Step::Done(Reply::BaseProduct(b)) if b.id == 3));
}

#[test]
fn a_failed_lookup_of_a_moderator_fails_the_request() {
    let service = StoreServiceImpl::new(&config());
    let (saga, _) = service.send_to_moderation_base_product(3);
    let (saga, _) = saga.on_outcome(Ok(Reply::BaseProduct(base_product(3, 10, ModerationStatus::Moderation))));
    let (saga, _) = saga.on_outcome(Ok(Reply::UserIds(vec![21])));
    let (_, step) = saga.on_outcome(failed());
    assert!(matches!(step, Step::Fail(Error::HttpClient)));
}

#[test]
fn a_refused_request_for_moderation_is_an_unknown_failure() {
    let service = StoreServiceImpl::new(&config());
    let (saga, _) = service.send_to_moderation(10);
    let (_, step) = saga.on_outcome(failed());
    assert!(matches!(step, Step::Fail(Error::Unknown)));
}

fn run_cleanup(saga: CartsCleanupSaga, change: Reply, products: Option<Vec<Product>>) -> (Vec<i32>, Reply) {
    let (saga, step) = saga.on_outcome(Ok(change));
    let saga = match products {
        Some(ps) => {
            assert!(matches!(call_of(step), ApiCall::Stores(_)));
            let (saga, step) = saga.on_outcome(Ok(Reply::Products(ps)));
            (saga, step)
        }
        None => (saga, step),
    };
    let (saga, step) = saga;
    let ids = match call_of(step) {
        ApiCall::Orders(OrdersCall::DeleteProductsFromAllCarts { payload, .. }) => payload.product_ids,
        ApiCall::Orders(OrdersCall::DeleteDeliveryMethodFromAllCarts { payload, .. }) => payload.product_ids,
        other => panic!("unexpected {:?}", other),
    };
    let (saga, step) = saga.on_outcome(ignored());
    assert!(saga.is_over());
    match step {
        Step::Done(r) => (ids, r),
        other => panic!("unexpected {:?}", other),
    }
}

#[test]
fn deactivations_take_products_out_of_carts() {
    let service = StoreServiceImpl::new(&config());

    let (saga, first) = service.deactivate_store(10);
    assert!(matches!(first, ApiCall::Stores(StoresCall::DeactivateStore { initiator: None, store_id: 10 })));
    let (ids, r) = run_cleanup(saga, Reply::Store(store(10, 5, ModerationStatus::Blocked)), Some(vec![product(1), product(2)]));
    assert_eq!(ids, vec![1, 2]);
    assert!(matches!(r, Reply::Store(s) if s.id == 10));

    let (saga, first) = service.deactivate_base_product(3);
    assert!(matches!(first, ApiCall::Stores(StoresCall::DeactivateBaseProduct { initiator: None, base_product_id: 3 })));
    let (ids, r) = run_cleanup(saga, Reply::BaseProduct(base_product(3, 10, ModerationStatus::Blocked)), Some(vec![product(7)]));
    assert_eq!(ids, vec![7]);
    assert!(matches!(r, Reply::BaseProduct(b) if b.id == 3));

    let (saga, first) = service.deactivate_product(7);
    assert!(matches!(first, ApiCall::Stores(StoresCall::DeactivateProduct { initiator: None, product_id: 7 })));
    let (ids, r) = run_cleanup(saga, Reply::Product(product(7)), None);
    assert_eq!(ids, vec![7]);
    assert!(matches!(r, Reply::Product(p) if p.id == 7));
}

#[test]
fn an_updated_base_product_leaves_carts() {
    let service = StoreServiceImpl::new(&config());
    let (saga, first) = service.update_base_product(3, Value::Bool(true));
    assert!(matches!(first, ApiCall::Stores(StoresCall::UpdateBaseProduct { base_product_id: 3, payload: Value::Bool(true), .. })));
    let (ids, _) = run_cleanup(saga, Reply::BaseProduct(base_product(3, 10, ModerationStatus::Draft)), Some(vec![product(8), product(9)]));
    assert_eq!(ids, vec![8, 9]);
}

#[test]
fn new_shipping_removes_the_delivery_method_from_carts() {
    let service = DeliveryServiceImpl::new();
    let (saga, first) = service.upsert_shipping(3, Value::Null);
    assert!(matches!(first, ApiCall::Delivery(DeliveryCall::UpsertShipping { initiator: None, base_product_id: 3, .. })));
    let (saga, step) = saga.on_outcome(Ok(Reply::Shipping(Value::Bool(false))));
    assert!(matches!(call_of(step), ApiCall::Stores(StoresCall::GetProductsByBaseProduct { base_product_id: 3 })));
    let (saga, step) = saga.on_outcome(Ok(Reply::Products(vec![product(4)])));
    assert!(matches!(call_of(step), ApiCall::Orders(OrdersCall::DeleteDeliveryMethodFromAllCarts { payload, .. }) if payload.product_ids == vec![4]));
    let (_, step) = saga.on_outcome(ignored());
    assert!(matches!(step, Step::Done(Reply::Shipping(Value::Bool(false)))));
}

#[test]
fn refused_shipping_is_read_for_the_shipping_field() {
    let payload = r#"{"shipping": [{"code": "invalid", "message": null, "params": {}}]}"#;
    let failure = ApiFailure {
        message: Some(CommonErrorMessage { code: 400, description: "bad".to_string(), payload: Some(payload.to_string()) }),
    };
    let (saga, _) = DeliveryServiceImpl::new().upsert_shipping(3, Value::Null);
    let (_, step) = saga.on_outcome(Err(failure));
    match step {
        Step::Fail(Error::Validate(v)) => {
            assert_eq!(v.fields.len(), 1);
            assert_eq!(v.fields[0].field, "shipping");
        }
        other => panic!("unexpected {:?}", other),
    }
}

#[test]
fn a_failed_cleanup_fails_the_deactivation() {
    let (saga, _) = StoreServiceImpl::new(&config()).deactivate_store(10);
    let (saga, _) = saga.on_outcome(Ok(Reply::Store(store(10, 5, ModerationStatus::Blocked))));
    let (_, step) = saga.on_outcome(failed());
    assert!(matches!(step, Step::Fail(Error::HttpClient)));
}

#[test]
fn undoing_makes_every_call_whatever_their_outcome() {
    let calls = vec![
        ApiCall::Stores(StoresCall::DeleteStore { initiator: Some(Initiator::Superadmin), store_id: 10 }),
        ApiCall::Billing(BillingCall::DeleteRole { initiator: Some(Initiator::Superadmin), role_id: 7 }),
    ];
    let (run, step) = UndoRun::start(calls, Error::NotFound);
    assert!(matches!(call_of(step), ApiCall::Stores(StoresCall::DeleteStore { store_id: 10, .. })));
    let (run, step) = run.on_outcome(failed());
    assert!(matches!(call_of(step), ApiCall::Billing(BillingCall::DeleteRole { role_id: 7, .. })));
    let (_, step) = run.on_outcome(ignored());
    assert!(matches!(step, Step::Fail(Error::NotFound)));
    let (_, step) = UndoRun::start(vec![], Error::HttpClient);
    assert!(matches!(step, Step::Fail(Error::HttpClient)));
}
