//! What the e-mails that the coordinator has sent say about their addressee,
//! and which page their links lead to.
use vstd::prelude::*;

use crate::config::{DevicesUrls, ProjectUrls};
use crate::models::create_profile::User;
use crate::models::notifications::EmailUser;
use crate::models::resources::{Device, Project};
use crate::text::cat;

verus! {

/// The page of a device, the web page where the device is not known.
pub open spec fn device_url(urls: DevicesUrls, device: Option<Device>) -> Seq<char> {
    match device {
        Some(Device::WEB) => urls.web@,
        Some(Device::IOS) => urls.ios@,
        Some(Device::Android) => urls.android@,
        None => urls.web@,
    }
}

/// The pages of a project; a request that names no project is for the
/// marketplace.
pub open spec fn project_urls(urls: ProjectUrls, project: Option<Project>) -> DevicesUrls {
    match project {
        Some(Project::Wallet) => urls.wallet,
        _ => urls.marketplace,
    }
}

/// The page that a link in an e-mail leads to, for a project and a device.
pub open spec fn link_path(urls: ProjectUrls, project: Option<Project>, device: Option<Device>) -> Seq<char> {
    device_url(project_urls(urls, project), device)
}

/// A link leads to the pages of the wallet for the wallet, and to those of
/// the marketplace for the marketplace or no project; of these, to the web
/// page for the web and for no device, to the iOS page for iOS and to the
/// Android page for Android.
pub proof fn lemma_link_by_project_and_device(urls: ProjectUrls, project: Option<Project>)
    ensures
        ({
            let pages = if project == Some(Project::Wallet) { urls.wallet } else { urls.marketplace };
            &&& link_path(urls, project, Some(Device::WEB)) == pages.web@
            &&& link_path(urls, project, None) == pages.web@
            &&& link_path(urls, project, Some(Device::IOS)) == pages.ios@
            &&& link_path(urls, project, Some(Device::Android)) == pages.android@
        }),
        link_path(urls, None, None) == urls.marketplace.web@,
{
}

/// The project that a request is for: the marketplace unless it names one.
pub open spec fn project_or_marketplace(project: Option<Project>) -> Project {
    match project {
        Some(p) => p,
        None => Project::MarketPlace,
    }
}

/// The project that a request is for.
pub fn project_of(project: Option<Project>) -> (r: Project)
    ensures
        r == project_or_marketplace(project),
{
    match project {
        Some(p) => p,
        None => Project::MarketPlace,
    }
}

/// The page that a link in an e-mail leads to.
pub fn link_for(urls: &ProjectUrls, project: Option<Project>, device: Option<Device>) -> (r: String)
    ensures
        r@ == link_path(*urls, project, device),
{
    let d = match project {
        Some(Project::Wallet) => &urls.wallet,
        _ => &urls.marketplace,
    };
    match device {
        Some(Device::WEB) => d.web.clone(),
        Some(Device::IOS) => d.ios.clone(),
        Some(Device::Android) => d.android.clone(),
        None => d.web.clone(),
    }
}

/// The addressee of an e-mail to a user: the user's address, and the names
/// `user` and the empty name where the user gave none.
pub open spec fn email_user_of(u: User) -> (Seq<char>, Seq<char>, Seq<char>) {
    (
        u.email@,
        match u.first_name { Some(n) => n@, None => "user"@ },
        match u.last_name { Some(n) => n@, None => ""@ },
    )
}

pub open spec fn email_user_view(e: EmailUser) -> (Seq<char>, Seq<char>, Seq<char>) {
    (e.email@, e.first_name@, e.last_name@)
}

/// The addressee of an e-mail to a user.
pub fn email_user(u: &User) -> (r: EmailUser)
    ensures
        email_user_view(r) == email_user_of(*u),
{
    let first_name = match &u.first_name {
        Some(n) => n.clone(),
        None => "user".to_owned(),
    };
    let last_name = match &u.last_name {
        Some(n) => n.clone(),
        None => "".to_owned(),
    };
    EmailUser { email: u.email.clone(), first_name, last_name }
}

/// A fresh copy of a text.
pub fn copy_text(s: &String) -> (r: String)
    ensures
        r@ == s@,
{
    cat(String::new(), s.as_str())
}


/// Whether two sets of pages name the same pages.
pub open spec fn same_urls(a: ProjectUrls, b: ProjectUrls) -> bool {
    &&& a.marketplace.web@ == b.marketplace.web@
    &&& a.marketplace.ios@ == b.marketplace.ios@
    &&& a.marketplace.android@ == b.marketplace.android@
    &&& a.wallet.web@ == b.wallet.web@
    &&& a.wallet.ios@ == b.wallet.ios@
    &&& a.wallet.android@ == b.wallet.android@
}

fn copy_devices(d: &DevicesUrls) -> (r: DevicesUrls)
    ensures
        r.web@ == d.web@,
        r.ios@ == d.ios@,
        r.android@ == d.android@,
{
    DevicesUrls { web: d.web.clone(), ios: d.ios.clone(), android: d.android.clone() }
}

/// A copy of a set of pages.
pub fn copy_urls(p: &ProjectUrls) -> (r: ProjectUrls)
    ensures
        same_urls(r, *p),
{
    ProjectUrls { marketplace: copy_devices(&p.marketplace), wallet: copy_devices(&p.wallet) }
}

}
