use vstd::prelude::*;

verus! {

/// Common server settings.
#[derive(Clone, Debug)]
pub struct Server {
    pub host: String,
    pub port: String,
}

/// Where a microservice listens.
#[derive(Clone, Debug)]
pub struct Microservice {
    pub url: String,
}

/// The public address of the marketplace, used in links of notifications.
#[derive(Clone, Debug)]
pub struct Cluster {
    pub url: String,
}

/// Settings of the HTTP client.
#[derive(Clone, Debug)]
pub struct Client {
    pub http_timeout_ms: u64,
}

/// Settings of the service itself.
#[derive(Clone, Debug)]
pub struct Service {
    pub processing_timeout_ms: u64,
}

/// The pages that a link in a notification leads to, one per device.
#[derive(Clone, Debug)]
pub struct DevicesUrls {
    pub web: String,
    pub ios: String,
    pub android: String,
}

/// The pages of each project of the marketplace.
#[derive(Clone, Debug)]
pub struct ProjectUrls {
    pub marketplace: DevicesUrls,
    pub wallet: DevicesUrls,
}

/// The pages that e-mails for e-mail verification and password reset link to.
#[derive(Clone, Debug)]
pub struct NotificationUrls {
    pub verify_email: ProjectUrls,
    pub reset_password: ProjectUrls,
}

/// The configuration of the coordinator.
#[derive(Clone, Debug)]
pub struct Config {
    pub server: Server,
    pub client: Client,
    pub service: Service,
    pub users_microservice: Microservice,
    pub stores_microservice: Microservice,
    pub orders_microservice: Microservice,
    pub billing_microservice: Microservice,
    pub warehouses_microservice: Microservice,
    pub notifications_microservice: Microservice,
    pub delivery_microservice: Microservice,
    pub cluster: Cluster,
    pub notification_urls: NotificationUrls,
}

/// The microservices that the coordinator calls.
#[derive(Clone, Copy, Debug, PartialEq, Eq, Structural)]
pub enum StqService {
    Users,
    Stores,
    Warehouses,
    Orders,
    Billing,
    Notifications,
    Delivery,
}

/// The base URL of a microservice, as the configuration gives it.
pub open spec fn service_url_of(c: Config, service: StqService) -> Seq<char> {
    match service {
        StqService::Users => c.users_microservice.url@,
        StqService::Stores => c.stores_microservice.url@,
        StqService::Warehouses => c.warehouses_microservice.url@,
        StqService::Orders => c.orders_microservice.url@,
        StqService::Billing => c.billing_microservice.url@,
        StqService::Notifications => c.notifications_microservice.url@,
        StqService::Delivery => c.delivery_microservice.url@,
    }
}

impl Config {
    /// The base URL of a microservice.
    pub fn service_url(&self, service: StqService) -> (r: String)
        ensures
            r@ == service_url_of(*self, service),
    {
        match service {
            StqService::Users => self.users_microservice.url.clone(),
            StqService::Stores => self.stores_microservice.url.clone(),
            StqService::Warehouses => self.warehouses_microservice.url.clone(),
            StqService::Orders => self.orders_microservice.url.clone(),
            StqService::Billing => self.billing_microservice.url.clone(),
            StqService::Notifications => self.notifications_microservice.url.clone(),
            StqService::Delivery => self.delivery_microservice.url.clone(),
        }
    }
}

}
