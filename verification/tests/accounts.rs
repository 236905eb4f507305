use saga_coordinator::config::{
    Client, Cluster, Config, DevicesUrls, Microservice, NotificationUrls, ProjectUrls, Server, Service,
};
use saga_coordinator::errors::Error;
use saga_coordinator::http::Initiator;
use saga_coordinator::microservice::{ApiCall, BillingCall, DeliveryCall, NotificationsCall, Reply, StoresCall, UsersCall};
use saga_coordinator::models::create_profile::{
    EmailVerifyApply, EmailVerifyApplyToken, Gender, NewIdentity, NewUser, PasswordResetApply, Provider, ResetApplyToken,
    ResetRequest, SagaCreateProfile, User, VerifyRequest,
};
use saga_coordinator::models::notifications::CreatedEmarsysContact;
use saga_coordinator::models::resources::{Device, Project};
use saga_coordinator::services::common::{ApiFailure, Step};
use saga_coordinator::services::impls::AccountServiceImpl;
use saga_coordinator::validation::CommonErrorMessage;
use serde_json::Value;

fn devices(prefix: &str) -> DevicesUrls {
    DevicesUrls { web: format!("{}/web", prefix), ios: format!("{}/ios", prefix), android: format!("{}/android", prefix) }
}

fn config() -> Config {
    Config {
        server: Server { host: "0.0.0.0".to_string(), port: "8000".to_string() },
        client: Client { http_timeout_ms: 10_000 },
        service: Service { processing_timeout_ms: 1_000 },
        users_microservice: Microservice { url: "http://users".to_string() },
        stores_microservice: Microservice { url: "http://stores".to_string() },
        orders_microservice: Microservice { url: "http://orders".to_string() },
        billing_microservice: Microservice { url: "http://billing".to_string() },
        warehouses_microservice: Microservice { url: "http://warehouses".to_string() },
        notifications_microservice: Microservice { url: "http://notifications".to_string() },
        delivery_microservice: Microservice { url: "http://delivery".to_string() },
        cluster: Cluster { url: "https://cluster".to_string() },
        notification_urls: NotificationUrls {
            verify_email: ProjectUrls { marketplace: devices("verify-market"), wallet: devices("verify-wallet") },
            reset_password: ProjectUrls { marketplace: devices("reset-market"), wallet: devices("reset-wallet") },
        },
    }
}

fn user(id: i32, email: &str, blocked: bool) -> User {
    User {
        id,
        email: email.to_string(),
        first_name: Some("Jo".to_string()),
        last_name: Some("Doe".to_string()),
        is_blocked: blocked,
        body: Value::Null,
    }
}

fn profile(provider: Provider, project: Option<Project>) -> SagaCreateProfile {
    SagaCreateProfile {
        user: Some(NewUser {
            email: "jo@example.com".to_string(),
            phone: None,
            first_name: Some("Jo".to_string()),
            last_name: None,
            middle_name: None,
            gender: Gender::Undefined,
            birthdate: None,
            last_login_at: "2018-01-01T00:00:00".to_string(),
            saga_id: 0,
        }),
        identity: NewIdentity { email: "jo@example.com".to_string(), password: Some("secret".to_string()), provider, saga_id: 0 },
        device: Some(Device::IOS),
        project,
    }
}

fn call_of<T: std::fmt::Debug>(step: Step<T>) -> ApiCall {
    match step {
        Step::Call(c) => c,
        other => panic!("expected a call, got {:?}", other),
    }
}

fn failed() -> Result<Reply, ApiFailure> {
    Err(ApiFailure { message: None })
}

fn email_refusal_message(e: &Error) -> String {
    match e {
        Error::Validate(v) => {
            assert_eq!(v.fields.len(), 1);
            assert_eq!(v.fields[0].field, "email");
            assert_eq!(v.fields[0].error.code, "email");
            v.fields[0].error.message.clone().unwrap().to_string()
        }
        other => panic!("unexpected {:?}", other),
    }
}

#[test]
fn an_account_by_email_gets_its_roles_and_a_verification_email() {
    let service = AccountServiceImpl::new(config());
    let (saga, first) = service.create(profile(Provider::Email, None));
    let saga_id = match first {
        ApiCall::Users(UsersCall::CreateUser { initiator: Some(Initiator::Superadmin), payload }) => {
            let id = payload.identity.saga_id;
            assert_eq!(payload.user.unwrap().saga_id, id);
            id
        }
        other => panic!("unexpected {:?}", other),
    };
    let (saga, step) = saga.on_outcome(Ok(Reply::User(user(8, "jo@example.com", false))));
    assert!(matches!(call_of(step), ApiCall::Users(UsersCall::CreateRole { payload, .. }) if payload.user_id == 8));
    let (saga, step) = saga.on_outcome(Ok(Reply::Ignored));
    assert!(matches!(call_of(step), ApiCall::Stores(StoresCall::CreateStoresRole { payload, .. }) if payload.user_id == 8));
    let (saga, step) = saga.on_outcome(Ok(Reply::Ignored));
    assert!(matches!(call_of(step), ApiCall::Billing(BillingCall::CreateRole { payload, .. }) if payload.user_id == 8));
    let (saga, step) = saga.on_outcome(Ok(Reply::Ignored));
    assert!(matches!(call_of(step), ApiCall::Delivery(DeliveryCall::CreateDeliveryRole { payload, .. }) if payload.user_id == 8));
    let (saga, step) = saga.on_outcome(Ok(Reply::Ignored));
    assert!(matches!(call_of(step), ApiCall::Billing(BillingCall::CreateUserMerchant { payload, .. }) if payload.id == 8));
    let (saga, step) = saga.on_outcome(Ok(Reply::Ignored));
    match call_of(step) {
        ApiCall::Users(UsersCall::CreateEmailVerifyToken { initiator, payload }) => {
            assert_eq!(initiator, Some(Initiator::User(8)));
            assert_eq!(payload.email, "jo@example.com");
            assert_eq!(payload.device, Some(Device::IOS));
        }
        other => panic!("unexpected {:?}", other),
    }
    let (saga, step) = saga.on_outcome(Ok(Reply::Token("tok".to_string())));
    match call_of(step) {
        ApiCall::Notifications(NotificationsCall::EmailVerification { payload, project, .. }) => {
            assert_eq!(payload.verify_email_path, "verify-market/ios");
            assert_eq!(payload.token, "tok");
            assert_eq!(project, Project::MarketPlace);
        }
        other => panic!("unexpected {:?}", other),
    }
    let mut saga = saga;
    let mut step;
    loop {
        let r = saga.on_outcome(Ok(Reply::Ignored));
        saga = r.0;
        step = r.1;
        if saga.is_over() {
            break;
        }
        let c = match step {
            Step::Call(c) => c,
            other => panic!("unexpected {:?}", other),
        };
        if let ApiCall::Notifications(NotificationsCall::EmarsysCreateContact { .. }) = c {
            let r = saga.on_outcome(Ok(Reply::EmarsysContact(CreatedEmarsysContact { user_id: 8, emarsys_id: 77 })));
            saga = r.0;
            match r.1 {
                Step::Call(ApiCall::Users(UsersCall::UpdateEmarsysId { user_id, emarsys_id, .. })) => {
                    assert_eq!(user_id, 8);
                    assert_eq!(emarsys_id, 77);
                }
                other => panic!("unexpected {:?}", other),
            }
        }
    }
    assert!(matches!(step, Step::Done(u) if u.id == 8));
    assert_ne!(saga_id, 0);
}

#[test]
fn a_failed_account_creation_undoes_it_by_saga_id() {
    let service = AccountServiceImpl::new(config());
    let (saga, first) = service.create(profile(Provider::Google, Some(Project::Wallet)));
    let saga_id = match first {
        ApiCall::Users(UsersCall::CreateUser { payload, .. }) => payload.identity.saga_id,
        other => panic!("unexpected {:?}", other),
    };
    let (saga, _) = saga.on_outcome(Ok(Reply::User(user(8, "jo@example.com", false))));
    let (saga, step) = saga.on_outcome(failed());
    assert!(saga.is_over());
    match step {
        Step::Revert { calls, error } => {
            assert!(matches!(error, Error::HttpClient));
            assert_eq!(calls.len(), 1);
            assert!(matches!(calls[0], ApiCall::Users(UsersCall::DeleteUser { saga_id: id, .. }) if id == saga_id));
        }
        other => panic!("unexpected {:?}", other),
    }
}

#[test]
fn a_wallet_account_by_google_needs_no_follow_up() {
    let service = AccountServiceImpl::new(config());
    let (mut saga, _) = service.create(profile(Provider::Google, Some(Project::Wallet)));
    let (s, _) = saga.on_outcome(Ok(Reply::User(user(8, "jo@example.com", false))));
    saga = s;
    for _ in 0..4 {
        let (s, step) = saga.on_outcome(Ok(Reply::Ignored));
        assert!(matches!(step, Step::Call(_)));
        saga = s;
    }
    let (saga, step) = saga.on_outcome(Ok(Reply::Ignored));
    assert!(saga.is_over());
    assert!(matches!(step, Step::Done(u) if u.id == 8));
}

#[test]
fn a_password_reset_sends_the_token_with_the_project_link() {
    let service = AccountServiceImpl::new(config());
    let input = ResetRequest { email: "jo@example.com".to_string(), device: Some(Device::Android), project: Some(Project::Wallet) };
    let (saga, first) = service.request_password_reset(input);
    assert!(matches!(first, ApiCall::Users(UsersCall::GetByEmail { initiator: Some(Initiator::Superadmin), ref email }) if email == "jo@example.com"));
    let (saga, step) = saga.on_outcome(Ok(Reply::MaybeUser(Some(user(8, "jo@example.com", false)))));
    match call_of(step) {
        ApiCall::Users(UsersCall::CreatePasswordResetToken { initiator, payload }) => {
            assert_eq!(initiator, Some(Initiator::User(8)));
            assert_eq!(payload.email, "jo@example.com");
            assert_eq!(payload.project, Some(Project::Wallet));
        }
        other => panic!("unexpected {:?}", other),
    }
    let (saga, step) = saga.on_outcome(Ok(Reply::Token("reset-token".to_string())));
    match call_of(step) {
        ApiCall::Notifications(NotificationsCall::PasswordReset { initiator, payload, project }) => {
            assert_eq!(initiator, Some(Initiator::Superadmin));
            assert_eq!(payload.reset_password_path, "reset-wallet/android");
            assert_eq!(payload.token, "reset-token");
            assert_eq!(payload.user.first_name, "Jo");
            assert_eq!(project, Project::Wallet);
        }
        other => panic!("unexpected {:?}", other),
    }
    let (saga, step) = saga.on_outcome(Ok(Reply::Ignored));
    assert!(saga.is_over());
    assert!(matches!(step, Step::Done(())));
}

#[test]
fn password_reset_for_an_unknown_address_is_refused() {
    let service = AccountServiceImpl::new(config());
    let input = ResetRequest { email: "nobody@example.com".to_string(), device: None, project: None };
    let (saga, _) = service.request_password_reset(input);
    let (_, step) = saga.on_outcome(Ok(Reply::MaybeUser(None)));
    match step {
        Step::Fail(e) => assert_eq!(email_refusal_message(&e), "Email does not exists"),
        other => panic!("unexpected {:?}", other),
    }
}

#[test]
fn password_reset_for_a_blocked_account_is_refused() {
    let service = AccountServiceImpl::new(config());
    let input = ResetRequest { email: "jo@example.com".to_string(), device: None, project: None };
    let (saga, _) = service.request_password_reset(input);
    let (_, step) = saga.on_outcome(Ok(Reply::MaybeUser(Some(user(8, "jo@example.com", true)))));
    match step {
        Step::Fail(e) => assert_eq!(email_refusal_message(&e), "Email is blocked"),
        other => panic!("unexpected {:?}", other),
    }
}

#[test]
fn a_refused_password_reset_token_is_read_for_the_email_field() {
    let service = AccountServiceImpl::new(config());
    let input = ResetRequest { email: "jo@example.com".to_string(), device: None, project: None };
    let (saga, _) = service.request_password_reset(input);
    let (saga, _) = saga.on_outcome(Ok(Reply::MaybeUser(Some(user(8, "jo@example.com", false)))));
    let failure = ApiFailure { message: Some(CommonErrorMessage { code: 403, description: "no".to_string(), payload: None }) };
    let (_, step) = saga.on_outcome(Err(failure));
    assert!(matches!(step, Step::Fail(Error::Forbidden)));
}

#[test]
fn an_email_verification_uses_the_default_page_and_the_superadmin() {
    let service = AccountServiceImpl::new(config());
    let input = VerifyRequest { email: "jo@example.com".to_string(), device: None, project: None };
    let (saga, _) = service.request_email_verification(input);
    let (saga, step) = saga.on_outcome(Ok(Reply::MaybeUser(Some(user(8, "jo@example.com", false)))));
    assert!(matches!(call_of(step), ApiCall::Users(UsersCall::CreateEmailVerifyToken { initiator: Some(Initiator::Superadmin), .. })));
    let (saga, step) = saga.on_outcome(Ok(Reply::Token("verify-token".to_string())));
    match call_of(step) {
        ApiCall::Notifications(NotificationsCall::EmailVerification { payload, project, .. }) => {
            assert_eq!(payload.verify_email_path, "verify-market/web");
            assert_eq!(project, Project::MarketPlace);
        }
        other => panic!("unexpected {:?}", other),
    }
    let (_, step) = saga.on_outcome(failed());
    assert!(matches!(step, Step::Fail(Error::HttpClient)));
}

#[test]
fn an_applied_password_reset_tells_the_user_and_returns_the_token() {
    let service = AccountServiceImpl::new(config());
    let input = PasswordResetApply { token: "t".to_string(), password: "new".to_string(), project: None };
    let (saga, first) = service.request_password_reset_apply(input);
    assert!(matches!(first, ApiCall::Users(UsersCall::ApplyPasswordResetToken { payload, .. }) if payload.password == "new"));
    let reset = ResetApplyToken { email: "jo@example.com".to_string(), token: "session".to_string() };
    let (saga, step) = saga.on_outcome(Ok(Reply::ResetApplyToken(reset)));
    assert!(matches!(call_of(step), ApiCall::Users(UsersCall::GetByEmail { ref email, .. }) if email == "jo@example.com"));
    let (saga, step) = saga.on_outcome(Ok(Reply::MaybeUser(Some(user(8, "jo@example.com", false)))));
    match call_of(step) {
        ApiCall::Notifications(NotificationsCall::ApplyPasswordReset { payload, project, .. }) => {
            assert_eq!(payload.cluster_url, "https://cluster");
            assert_eq!(payload.user.email, "jo@example.com");
            assert_eq!(project, Project::MarketPlace);
        }
        other => panic!("unexpected {:?}", other),
    }
    let (saga, step) = saga.on_outcome(Ok(Reply::Ignored));
    assert!(saga.is_over());
    assert!(matches!(step, Step::Done(t) if t == "session"));
}

#[test]
fn an_applied_password_reset_for_a_vanished_account_is_refused() {
    let service = AccountServiceImpl::new(config());
    let input = PasswordResetApply { token: "t".to_string(), password: "new".to_string(), project: None };
    let (saga, _) = service.request_password_reset_apply(input);
    let reset = ResetApplyToken { email: "jo@example.com".to_string(), token: "session".to_string() };
    let (saga, _) = saga.on_outcome(Ok(Reply::ResetApplyToken(reset)));
    let (_, step) = saga.on_outcome(Ok(Reply::MaybeUser(None)));
    match step {
        Step::Fail(e) => assert_eq!(email_refusal_message(&e), "Email does not exists"),
        other => panic!("unexpected {:?}", other),
    }
}

#[test]
fn an_applied_email_verification_makes_an_emarsys_contact() {
    let service = AccountServiceImpl::new(config());
    let (saga, first) = service.request_email_verification_apply(EmailVerifyApply { token: "t".to_string(), project: Some(Project::Wallet) });
    assert!(matches!(first, ApiCall::Users(UsersCall::ApplyEmailVerifyToken { initiator: Some(Initiator::Superadmin), .. })));
    let applied = EmailVerifyApplyToken { user: user(8, "jo@example.com", false), token: "session".to_string() };
    let (saga, step) = saga.on_outcome(Ok(Reply::EmailVerifyApplyToken(applied)));
    match call_of(step) {
        ApiCall::Notifications(NotificationsCall::ApplyEmailVerification { payload, project, .. }) => {
            assert_eq!(payload.user.last_name, "Doe");
            assert_eq!(project, Project::Wallet);
        }
        other => panic!("unexpected {:?}", other),
    }
    let (saga, step) = saga.on_outcome(Ok(Reply::Ignored));
    match call_of(step) {
        ApiCall::Notifications(NotificationsCall::EmarsysCreateContact { payload }) => {
            assert_eq!(payload.user_id, 8);
            assert_eq!(payload.email, "jo@example.com");
        }
        other => panic!("unexpected {:?}", other),
    }
    let (saga, step) = saga.on_outcome(Ok(Reply::EmarsysContact(CreatedEmarsysContact { user_id: 8, emarsys_id: 5 })));
    assert!(matches!(call_of(step), ApiCall::Users(UsersCall::UpdateEmarsysId { user_id: 8, emarsys_id: 5, .. })));
    let (saga, step) = saga.on_outcome(failed());
    assert!(saga.is_over());
    assert!(matches!(step, Step::Done(t) if t == "session"));
}

#[test]
fn a_failed_emarsys_contact_does_not_fail_the_verification() {
    let service = AccountServiceImpl::new(config());
    let (saga, _) = service.request_email_verification_apply(EmailVerifyApply { token: "t".to_string(), project: None });
    let applied = EmailVerifyApplyToken { user: user(8, "jo@example.com", false), token: "session".to_string() };
    let (saga, _) = saga.on_outcome(Ok(Reply::EmailVerifyApplyToken(applied)));
    let (saga, _) = saga.on_outcome(Ok(Reply::Ignored));
    let (saga, step) = saga.on_outcome(failed());
    assert!(saga.is_over());
    assert!(matches!(step, Step::Done(t) if t == "session"));
}

#[test]
fn a_failed_verification_email_fails_the_application() {
    let service = AccountServiceImpl::new(config());
    let (saga, _) = service.request_email_verification_apply(EmailVerifyApply { token: "t".to_string(), project: None });
    let applied = EmailVerifyApplyToken { user: user(8, "jo@example.com", false), token: "session".to_string() };
    let (saga, _) = saga.on_outcome(Ok(Reply::EmailVerifyApplyToken(applied)));
    let (_, step) = saga.on_outcome(failed());
    assert!(matches!(step, Step::Fail(Error::HttpClient)));
}
