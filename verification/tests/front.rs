use saga_coordinator::config::{
    Client, Cluster, Config, DevicesUrls, Microservice, NotificationUrls, ProjectUrls, Server, Service,
};
use saga_coordinator::controller::{parse_u64, ControllerImpl};
use saga_coordinator::errors::Error;
use saga_coordinator::http::{Headers, Initiator, Method};
use saga_coordinator::microservice::{ApiCall, StoresCall, UsersCall};
use saga_coordinator::models::visibility::Visibility;
use saga_coordinator::routes::{create_route_parser, parse_route, Route};

fn devices(prefix: &str) -> DevicesUrls {
    DevicesUrls {
        web: format!("{}/web", prefix),
        ios: format!("{}/ios", prefix),
        android: format!("{}/android", prefix),
    }
}

fn config(http_timeout_ms: u64, processing_timeout_ms: u64) -> Config {
    Config {
        server: Server { host: "0.0.0.0".to_string(), port: "8000".to_string() },
        client: Client { http_timeout_ms },
        service: Service { processing_timeout_ms },
        users_microservice: Microservice { url: "http://users".to_string() },
        stores_microservice: Microservice { url: "http://stores".to_string() },
        orders_microservice: Microservice { url: "http://orders".to_string() },
        billing_microservice: Microservice { url: "http://billing".to_string() },
        warehouses_microservice: Microservice { url: "http://warehouses".to_string() },
        notifications_microservice: Microservice { url: "http://notifications".to_string() },
        delivery_microservice: Microservice { url: "http://delivery".to_string() },
        cluster: Cluster { url: "https://cluster".to_string() },
        notification_urls: NotificationUrls {
            verify_email: ProjectUrls { marketplace: devices("verify-market"), wallet: devices("verify-wallet") },
            reset_password: ProjectUrls { marketplace: devices("reset-market"), wallet: devices("reset-wallet") },
        },
    }
}

#[test]
fn fixed_routes_are_recognised() {
    assert_eq!(parse_route("/create_account"), Some(Route::CreateAccount));
    assert_eq!(parse_route("/email_verify"), Some(Route::VerifyEmail));
    assert_eq!(parse_route("/email_verify_apply"), Some(Route::VerifyEmailApply));
    assert_eq!(parse_route("/reset_password"), Some(Route::ResetPassword));
    assert_eq!(parse_route("/reset_password_apply"), Some(Route::ResetPasswordApply));
    assert_eq!(parse_route("/create_store"), Some(Route::CreateStore));
    assert_eq!(parse_route("/create_order"), Some(Route::CreateOrder));
    assert_eq!(parse_route("/buy_now"), Some(Route::BuyNow));
    assert_eq!(parse_route("/orders/update_state"), Some(Route::OrdersUpdateStateByBilling));
    assert_eq!(parse_route("/stores/moderate"), Some(Route::StoreModerate));
    assert_eq!(parse_route("/base_products/moderate"), Some(Route::BaseProductModerate));
}

#[test]
fn routes_with_numbers_carry_them() {
    assert_eq!(parse_route("/orders/42/set_state"), Some(Route::OrdersManualSetState { order_slug: 42 }));
    assert_eq!(parse_route("/stores/7/moderation"), Some(Route::StoreModeration(7)));
    assert_eq!(parse_route("/stores/7/deactivate"), Some(Route::StoreDeactivate(7)));
    assert_eq!(parse_route("/base_products/9/moderation"), Some(Route::BaseProductModeration(9)));
    assert_eq!(parse_route("/base_products/9/deactivate"), Some(Route::BaseProductDeactivate(9)));
    assert_eq!(parse_route("/base_products/9/upsert-shipping"), Some(Route::BaseProductUpsertShipping(9)));
    assert_eq!(parse_route("/products/3/deactivate"), Some(Route::ProductDeactivate(3)));
}

#[test]
fn payment_state_route_carries_the_order_uuid() {
    let r = parse_route("/orders/936da01f-9abd-4d9d-80c7-02af85c822a8/set_payment_state");
    assert_eq!(r, Some(Route::OrdersSetPaymentState { order_id: 0x936da01f9abd4d9d80c702af85c822a8 }));
    assert_eq!(parse_route("/orders/not-a-uuid/set_payment_state"), None);
}

#[test]
fn unknown_or_malformed_paths_have_no_route() {
    assert_eq!(parse_route("/"), None);
    assert_eq!(parse_route("/create_accounts"), None);
    assert_eq!(parse_route("/stores/x/moderation"), None);
    assert_eq!(parse_route("/stores//moderation"), None);
    assert_eq!(parse_route("/stores/99999999999/moderation"), None);
    assert_eq!(create_route_parser().test("/buy_now"), Some(Route::BuyNow));
}

#[test]
fn only_post_reaches_an_endpoint() {
    let c = ControllerImpl::new(config(10_000, 1_000));
    assert!(matches!(c.endpoint(Some(Method::Post), "/create_store"), Ok(Route::CreateStore)));
    assert!(matches!(c.endpoint(Some(Method::Get), "/create_store"), Err(Error::NotFound)));
    assert!(matches!(c.endpoint(None, "/create_store"), Err(Error::NotFound)));
    assert!(matches!(c.endpoint(Some(Method::Post), "/nowhere"), Err(Error::NotFound)));
}

#[test]
fn routes_without_a_handler_are_not_found() {
    let c = ControllerImpl::new(config(10_000, 1_000));
    assert!(matches!(c.endpoint(Some(Method::Post), "/base_products/5/update"), Err(Error::NotFound)));
    assert!(matches!(c.endpoint(Some(Method::Post), "/base_products/create_with_variants"), Err(Error::NotFound)));
}

#[test]
fn request_timeout_comes_from_the_header_or_the_client() {
    let c = ControllerImpl::new(config(10_000, 1_000));
    assert_eq!(c.request_timeout_ms(None), 9_000);
    assert_eq!(c.request_timeout_ms(Some("5000")), 4_000);
    assert_eq!(c.request_timeout_ms(Some("+5000")), 4_000);
    assert_eq!(c.request_timeout_ms(Some("five seconds")), 9_000);
    assert_eq!(c.request_timeout_ms(Some("-5000")), 9_000);
}

#[test]
fn request_timeout_never_goes_below_zero() {
    let c = ControllerImpl::new(config(10_000, 1_000));
    assert_eq!(c.request_timeout_ms(Some("500")), 0);
    assert_eq!(c.request_timeout_ms(Some("1000")), 0);
    let short = ControllerImpl::new(config(100, 1_000));
    assert_eq!(short.request_timeout_ms(None), 0);
}

#[test]
fn u64_texts_read_as_the_standard_library_reads_them() {
    for text in ["0", "1", "+7", "18446744073709551615", "18446744073709551616", "", "+", "-1", "1a", " 1", "007"] {
        assert_eq!(parse_u64(text), text.parse::<u64>().ok(), "{}", text);
    }
}

#[test]
fn calls_carry_the_request_headers_and_the_initiator() {
    let c = ControllerImpl::new(config(10_000, 1_000));
    let request = Headers {
        authorization: Some("12".to_string()),
        correlation_token: Some("corr".to_string()),
        currency: Some("USD".to_string()),
    };
    let to_stores = ApiCall::Stores(StoresCall::Get { store_id: 1, visibility: Visibility::Active });
    let h = c.call_headers(&to_stores, &request, None);
    assert_eq!(h.authorization, Some("12".to_string()));
    assert_eq!(h.correlation_token, Some("corr".to_string()));
    assert_eq!(h.currency, Some("STQ".to_string()));

    let to_users = ApiCall::Users(UsersCall::Get { initiator: Some(Initiator::Superadmin), user_id: 3 });
    let h = c.call_headers(&to_users, &request, Some(Initiator::Superadmin));
    assert_eq!(h.authorization, Some("1".to_string()));
    assert_eq!(h.correlation_token, Some("corr".to_string()));
    assert_eq!(h.currency, None);

    let h = c.call_headers(&to_users, &request, Some(Initiator::from_user(-5)));
    assert_eq!(h.authorization, Some("-5".to_string()));
}

#[test]
fn only_server_errors_are_reported() {
    let c = ControllerImpl::new(config(10_000, 1_000));
    assert!(c.is_reported(&Error::HttpClient));
    assert!(c.is_reported(&Error::Unknown));
    assert!(c.is_reported(&Error::RpcClient));
    assert!(!c.is_reported(&Error::NotFound));
    assert!(!c.is_reported(&Error::Forbidden));
    assert!(!c.is_reported(&Error::Parse));
}
