use saga_coordinator::config::{
    Client, Cluster, Config, DevicesUrls, Microservice, NotificationUrls, ProjectUrls, Server, Service, StqService,
};
use saga_coordinator::http::{Initiator, Method};
use saga_coordinator::microservice::{
    ApiCall, DeliveryCall, NotificationsCall, OrdersCall, Reply, ReplyKind, StoresCall, UsersCall, WarehousesCall,
};
use saga_coordinator::models::create_order::OrderIdentifier;
use saga_coordinator::models::notifications::{CreateEmarsysContactPayload, EmailUser, PasswordResetForUser};
use saga_coordinator::models::resources::Project;
use saga_coordinator::models::visibility::Visibility;
use serde_json::Value;

fn devices(prefix: &str) -> DevicesUrls {
    DevicesUrls { web: format!("{}/web", prefix), ios: format!("{}/ios", prefix), android: format!("{}/android", prefix) }
}

fn config() -> Config {
    Config {
        server: Server { host: "0.0.0.0".to_string(), port: "8000".to_string() },
        client: Client { http_timeout_ms: 10_000 },
        service: Service { processing_timeout_ms: 1_000 },
        users_microservice: Microservice { url: "http://users".to_string() },
        stores_microservice: Microservice { url: "http://stores".to_string() },
        orders_microservice: Microservice { url: "http://orders".to_string() },
        billing_microservice: Microservice { url: "http://billing".to_string() },
        warehouses_microservice: Microservice { url: "http://warehouses".to_string() },
        notifications_microservice: Microservice { url: "http://notifications".to_string() },
        delivery_microservice: Microservice { url: "http://delivery".to_string() },
        cluster: Cluster { url: "https://cluster".to_string() },
        notification_urls: NotificationUrls {
            verify_email: ProjectUrls { marketplace: devices("verify-market"), wallet: devices("verify-wallet") },
            reset_password: ProjectUrls { marketplace: devices("reset-market"), wallet: devices("reset-wallet") },
        },
    }
}

#[test]
fn service_urls_come_from_the_configuration() {
    let c = config();
    assert_eq!(c.service_url(StqService::Users), "http://users");
    assert_eq!(c.service_url(StqService::Stores), "http://stores");
    assert_eq!(c.service_url(StqService::Warehouses), "http://warehouses");
    assert_eq!(c.service_url(StqService::Orders), "http://orders");
    assert_eq!(c.service_url(StqService::Billing), "http://billing");
    assert_eq!(c.service_url(StqService::Notifications), "http://notifications");
    assert_eq!(c.service_url(StqService::Delivery), "http://delivery");
}

#[test]
fn calls_go_to_their_microservice_paths() {
    let c = config();
    let t = ApiCall::Stores(StoresCall::Get { store_id: 12, visibility: Visibility::Active }).target(&c);
    assert_eq!((t.method, t.url.as_str(), t.initiator), (Method::Get, "http://stores/stores/12?visibility=active", None));

    let t = ApiCall::Stores(StoresCall::UseCoupon { initiator: Initiator::Superadmin, coupon_id: 3, user_id: -4 }).target(&c);
    assert_eq!((t.method, t.url.as_str()), (Method::Post, "http://stores/coupons/3/users/-4"));
    assert_eq!(t.initiator, Some(Initiator::Superadmin));

    let t = ApiCall::Orders(OrdersCall::GetOrder { initiator: Some(Initiator::User(5)), order: OrderIdentifier::Slug(77) }).target(&c);
    assert_eq!((t.method, t.url.as_str()), (Method::Get, "http://orders/orders/by-slug/77"));
    assert_eq!(t.initiator, Some(Initiator::User(5)));

    let t = ApiCall::Orders(OrdersCall::GetOrder {
        initiator: None,
        order: OrderIdentifier::Id(0x936da01f9abd4d9d80c702af85c822a8),
    })
    .target(&c);
    assert_eq!(t.url, "http://orders/orders/by-id/936da01f-9abd-4d9d-80c7-02af85c822a8");

    let t = ApiCall::Warehouses(WarehousesCall::SetProductInWarehouse {
        initiator: Initiator::Superadmin,
        warehouse_id: 1,
        product_id: 9,
        quantity: 3,
    })
    .target(&c);
    assert_eq!((t.method, t.url.as_str()), (Method::Put, "http://warehouses/warehouses/by-id/00000000-0000-0000-0000-000000000001/products/9"));

    let t = ApiCall::Delivery(DeliveryCall::UpsertShipping { initiator: None, base_product_id: 8, payload: Value::Null }).target(&c);
    assert_eq!((t.method, t.url.as_str()), (Method::Post, "http://delivery/products/8"));

    let t = ApiCall::Users(UsersCall::GetByEmail { initiator: Some(Initiator::Superadmin), email: "a@b.c".to_string() }).target(&c);
    assert_eq!(t.url, "http://users/users/by_email?email=a@b.c");

    let reset = PasswordResetForUser {
        user: EmailUser { email: "a@b.c".to_string(), first_name: "A".to_string(), last_name: "B".to_string() },
        reset_password_path: "p".to_string(),
        token: "t".to_string(),
    };
    let t = ApiCall::Notifications(NotificationsCall::PasswordReset {
        initiator: Some(Initiator::Superadmin),
        payload: reset,
        project: Project::Wallet,
    })
    .target(&c);
    assert_eq!((t.method, t.url.as_str()), (Method::Post, "http://notifications/users/password-reset?project=wallet"));

    let t = ApiCall::Notifications(NotificationsCall::EmarsysCreateContact {
        payload: CreateEmarsysContactPayload { user_id: 1, email: "a@b.c".to_string() },
    })
    .target(&c);
    assert_eq!(t.initiator, None);
}

#[test]
fn calls_name_the_kind_of_their_answers() {
    assert_eq!(ApiCall::Stores(StoresCall::Get { store_id: 1, visibility: Visibility::Published }).reply_kind(), ReplyKind::MaybeStore);
    assert_eq!(ApiCall::Stores(StoresCall::GetModerators { initiator: Initiator::Superadmin }).reply_kind(), ReplyKind::UserIds);
    assert_eq!(ApiCall::Stores(StoresCall::DeleteStore { initiator: None, store_id: 1 }).reply_kind(), ReplyKind::Ignored);
    assert_eq!(ApiCall::Users(UsersCall::Get { initiator: None, user_id: 1 }).reply_kind(), ReplyKind::MaybeUser);
    assert_eq!(Reply::Token("x".to_string()).kind(), ReplyKind::Token);
    assert_eq!(Reply::Ignored.kind(), ReplyKind::Ignored);
}

#[test]
fn visibility_reads_back_what_it_writes() {
    for v in [Visibility::Active, Visibility::Published] {
        assert_eq!(Visibility::parse(&v.to_string()), Some(v));
        assert_eq!(v.to_string().parse::<Visibility>().ok(), Some(v));
    }
    assert_eq!(Visibility::parse("PUBLISHED"), Some(Visibility::Published));
    assert_eq!(Visibility::parse("hidden"), None);
    assert_eq!(Visibility::default(), Visibility::Published);
}

#[test]
fn genders_read_only_their_exact_names() {
    let cases = [("Male", "Male"), ("Female", "Female"), ("male", "Undefined"), ("", "Undefined"), ("Other", "Undefined")];
    for (text, expected) in cases.iter() {
        let g = saga_coordinator::models::create_profile::Gender::parse(text);
        assert_eq!(format!("{:?}", g), *expected);
        let parsed: saga_coordinator::models::create_profile::Gender = text.parse().unwrap();
        assert_eq!(parsed, g);
    }
}

#[test]
fn identities_are_written_with_the_password_masked() {
    let identity = saga_coordinator::models::create_profile::NewIdentity {
        email: "jo@example.com".to_string(),
        password: Some("secret".to_string()),
        provider: saga_coordinator::models::create_profile::Provider::Email,
        saga_id: 0x936da01f9abd4d9d80c702af85c822a8,
    };
    let text = identity.to_string();
    assert_eq!(
        text,
        "NewIdentity: \n        email: jo@example.com,\n        password: '****',\n        provider: Email,\n        saga_id: 936da01f-9abd-4d9d-80c7-02af85c822a8"
    );
    assert!(!text.contains("secret"));
}
