//! Requests about an account's address: a password reset or an e-mail
//! verification is asked for (the user gets an e-mail with a link and a
//! token), and later applied with that token (the user is told by e-mail).
//! An unknown address, or one whose account is blocked, is refused as a
//! validation error of the field `email`.
use vstd::prelude::*;

use crate::config::{NotificationUrls, ProjectUrls};
use crate::errors::{Error, ErrorDetail, FieldError, ValidationErrors};
use crate::http::Initiator;
use crate::ids::UserId;
use crate::microservice::{kind_of_reply, ApiCall, NotificationsCall, Reply, ReplyKind, UsersCall};
use crate::models::create_profile::{EmailVerifyApply, PasswordResetApply, ResetRequest, User, VerifyRequest};
use crate::models::notifications::{
    ApplyEmailVerificationForUser, ApplyPasswordResetForUser, CreateEmarsysContactPayload, EmailVerificationForUser,
    PasswordResetForUser,
};
use crate::models::resources::{Device, Project};
use crate::services::common::{service_error, service_error_ok, ApiFailure, Outcome, Step};
use crate::services::notify::{
    copy_text, email_user, email_user_of, email_user_view, link_for, link_path, project_of, project_or_marketplace,
};
use crate::validation::texts_of;

verus! {

/// Whether `e` refuses a request about an address: a validation error of the
/// field `email`, with code `email`, the message `message` and no
/// parameters.
pub open spec fn email_refusal_ok(e: Error, message: Seq<char>) -> bool {
    e matches Error::Validate(v) && v@ == seq![("email"@, ("email"@, Some(message), Map::<Seq<char>, Seq<char>>::empty()))]
}

/// The refusal of a request about an address, with the message `message`.
pub fn email_refusal(message: &'static str) -> (r: Error)
    ensures
        email_refusal_ok(r, message@),
{
    let mut fields: Vec<FieldError> = Vec::new();
    let error = ErrorDetail { code: "email".to_owned(), message: Some(message.to_owned()), params: Vec::new() };
    assert(error.params@ =~= Seq::<(String, String)>::empty());
    fields.push(FieldError { field: "email".to_owned(), error });
    let v = ValidationErrors { fields };
    assert(v@ =~= seq![("email"@, ("email"@, Some(message@), Map::<Seq<char>, Seq<char>>::empty()))]);
    Error::Validate(v)
}

/// The fields whose refusals a password reset reads.
pub open spec fn email_fields() -> Seq<&'static str> {
    seq!["email"]
}

fn email_field_names() -> (r: &'static [&'static str])
    ensures
        r@ == email_fields(),
{
    let v: &'static [&'static str] = &["email"];
    assert(v@ =~= email_fields());
    v
}

/// What is asked for: a password reset or an e-mail verification.
#[derive(Clone, Copy, Debug, PartialEq, Eq, Structural)]
pub enum LinkKind {
    PasswordReset,
    EmailVerification,
}

/// The call that looks up the account of an address, as the superadmin.
pub open spec fn by_email_call_ok(email: Seq<char>, call: ApiCall) -> bool {
    call matches ApiCall::Users(UsersCall::GetByEmail { initiator, email: e })
        && initiator == Some(Initiator::Superadmin) && e@ == email
}

/// Whether `call` asks the users microservice for the token: a password
/// reset's on behalf of the user `user_id`, an e-mail verification's as the
/// superadmin, with the request as it came.
pub open spec fn token_call_ok(
    kind: LinkKind,
    email: Seq<char>,
    device: Option<Device>,
    project: Option<Project>,
    user_id: UserId,
    call: ApiCall,
) -> bool {
    match kind {
        LinkKind::PasswordReset => call matches ApiCall::Users(UsersCall::CreatePasswordResetToken { initiator, payload })
            && initiator == Some(Initiator::User(user_id)) && payload.email@ == email && payload.device == device
            && payload.project == project,
        LinkKind::EmailVerification => call matches ApiCall::Users(UsersCall::CreateEmailVerifyToken { initiator, payload })
            && initiator == Some(Initiator::Superadmin) && payload.email@ == email && payload.device == device
            && payload.project == project,
    }
}

/// Whether `call` sends `to` the e-mail with the link `path` and the token
/// `token`, for the project `project`, as the superadmin.
pub open spec fn link_email_ok(kind: LinkKind, to: User, path: Seq<char>, token: Seq<char>, project: Project, call: ApiCall) -> bool {
    match kind {
        LinkKind::PasswordReset => call matches ApiCall::Notifications(NotificationsCall::PasswordReset { initiator, payload, project: p })
            && initiator == Some(Initiator::Superadmin) && email_user_view(payload.user) == email_user_of(to)
            && payload.reset_password_path@ == path && payload.token@ == token && p == project,
        LinkKind::EmailVerification =>
            call matches ApiCall::Notifications(NotificationsCall::EmailVerification { initiator, payload, project: p })
            && initiator == Some(Initiator::Superadmin) && email_user_view(payload.user) == email_user_of(to)
            && payload.verify_email_path@ == path && payload.token@ == token && p == project,
    }
}

/// The failure that a failed call becomes: for a password reset, the
/// refusal's meaning for the field `email`; for an e-mail verification, a
/// failure of the HTTP client.
pub open spec fn link_error_ok(kind: LinkKind, e: Error, f: ApiFailure) -> bool {
    match kind {
        LinkKind::PasswordReset => service_error_ok(e, f, texts_of(email_fields())),
        LinkKind::EmailVerification => e is HttpClient,
    }
}

fn link_error(kind: LinkKind, f: ApiFailure) -> (r: Error)
    ensures
        link_error_ok(kind, r, f),
{
    match kind {
        LinkKind::PasswordReset => service_error(f, email_field_names()),
        LinkKind::EmailVerification => Error::HttpClient,
    }
}

/// A request for a password reset or an e-mail verification under way.
#[derive(Debug)]
pub struct LinkRequestSaga {
    kind: LinkKind,
    email: String,
    device: Option<Device>,
    project: Option<Project>,
    path: String,
    user: Option<User>,
    stage: usize,
}

impl LinkRequestSaga {
    /// 0 while the account is looked up, 1 while the token is made, 2 while
    /// the e-mail is sent, 3 when over.
    pub closed spec fn stage(&self) -> nat {
        self.stage as nat
    }

    pub closed spec fn kind(&self) -> LinkKind {
        self.kind
    }

    pub closed spec fn email(&self) -> Seq<char> {
        self.email@
    }

    pub closed spec fn device(&self) -> Option<Device> {
        self.device
    }

    pub closed spec fn project(&self) -> Option<Project> {
        self.project
    }

    /// The page that the e-mail's link leads to.
    pub closed spec fn path(&self) -> Seq<char> {
        self.path@
    }

    /// The account, once found.
    pub closed spec fn user(&self) -> Option<User> {
        self.user
    }

    pub closed spec fn wf(&self) -> bool {
        &&& self.stage <= 3
        &&& (self.stage == 1 || self.stage == 2) ==> self.user is Some
    }

    pub open spec fn awaited(&self) -> ReplyKind {
        if self.stage() == 0 {
            ReplyKind::MaybeUser
        } else if self.stage() == 1 {
            ReplyKind::Token
        } else {
            ReplyKind::Ignored
        }
    }

    /// Whether the step under way waits for an answer of kind `k`.
    pub fn awaits(&self, k: ReplyKind) -> (r: bool)
        ensures
            r == (k == self.awaited()),
    {
        if self.stage == 0 {
            k == ReplyKind::MaybeUser
        } else if self.stage == 1 {
            k == ReplyKind::Token
        } else {
            k == ReplyKind::Ignored
        }
    }

    /// Whether the saga is over.
    pub fn is_over(&self) -> (r: bool)
        ensures
            r == (self.stage() == 3),
    {
        self.stage == 3
    }

    fn start(
        kind: LinkKind,
        email: String,
        device: Option<Device>,
        project: Option<Project>,
        urls: &ProjectUrls,
    ) -> (r: (LinkRequestSaga, ApiCall))
        ensures
            r.0.wf(),
            r.0.stage() == 0,
            r.0.kind() == kind,
            r.0.email() == email@,
            r.0.device() == device,
            r.0.project() == project,
            r.0.path() == link_path(*urls, project, device),
            by_email_call_ok(email@, r.1),
    {
        let path = link_for(urls, project, device);
        let call = ApiCall::Users(UsersCall::GetByEmail { initiator: Some(Initiator::Superadmin), email: copy_text(&email) });
        (LinkRequestSaga { kind, email, device, project, path, user: None, stage: 0 }, call)
    }

    /// Starts a request for a password reset; the e-mail's link leads to the
    /// page of the project and device of the request.
    pub fn start_password_reset(input: ResetRequest, urls: &NotificationUrls) -> (r: (LinkRequestSaga, ApiCall))
        ensures
            r.0.wf(),
            r.0.stage() == 0,
            r.0.kind() == LinkKind::PasswordReset,
            r.0.email() == input.email@,
            r.0.device() == input.device,
            r.0.project() == input.project,
            r.0.path() == link_path(urls.reset_password, input.project, input.device),
            by_email_call_ok(input.email@, r.1),
    {
        let ResetRequest { email, device, project } = input;
        LinkRequestSaga::start(LinkKind::PasswordReset, email, device, project, &urls.reset_password)
    }

    /// Starts a request for an e-mail verification; the e-mail's link leads
    /// to the page of the project and device of the request.
    pub fn start_email_verification(input: VerifyRequest, urls: &NotificationUrls) -> (r: (LinkRequestSaga, ApiCall))
        ensures
            r.0.wf(),
            r.0.stage() == 0,
            r.0.kind() == LinkKind::EmailVerification,
            r.0.email() == input.email@,
            r.0.device() == input.device,
            r.0.project() == input.project,
            r.0.path() == link_path(urls.verify_email, input.project, input.device),
            by_email_call_ok(input.email@, r.1),
    {
        let VerifyRequest { email, device, project } = input;
        LinkRequestSaga::start(LinkKind::EmailVerification, email, device, project, &urls.verify_email)
    }

    /// Takes the outcome of the call under way (see `link_request_step_ok`).
    pub fn on_outcome(self, outcome: Outcome) -> (r: (LinkRequestSaga, Step<()>))
        requires
            self.wf(),
            self.stage() <= 2,
            outcome matches Ok(reply) ==> kind_of_reply(reply) == self.awaited(),
        ensures
            r.0.wf(),
            link_request_step_ok(self, outcome, r.0, r.1),
    {
        let LinkRequestSaga { kind, email, device, project, path, user, stage } = self;
        let reply = match outcome {
            Err(f) => {
                let e = link_error(kind, f);
                return (LinkRequestSaga { kind, email, device, project, path, user, stage: 3 }, Step::Fail(e));
            },
            Ok(reply) => reply,
        };
        if stage == 0 {
            match reply {
                Reply::MaybeUser(Some(u)) => {
                    if u.is_blocked {
                        return (LinkRequestSaga { kind, email, device, project, path, user, stage: 3 },
                            Step::Fail(email_refusal("Email is blocked")));
                    }
                    let call = match kind {
                        LinkKind::PasswordReset => ApiCall::Users(UsersCall::CreatePasswordResetToken {
                            initiator: Some(Initiator::User(u.id)),
                            payload: ResetRequest { email: copy_text(&email), device, project },
                        }),
                        LinkKind::EmailVerification => ApiCall::Users(UsersCall::CreateEmailVerifyToken {
                            initiator: Some(Initiator::Superadmin),
                            payload: VerifyRequest { email: copy_text(&email), device, project },
                        }),
                    };
                    (LinkRequestSaga { kind, email, device, project, path, user: Some(u), stage: 1 }, Step::Call(call))
                },
                _ => (LinkRequestSaga { kind, email, device, project, path, user, stage: 3 },
                    Step::Fail(email_refusal("Email does not exists"))),
            }
        } else if stage == 1 {
            let (u, token) = match (user, reply) {
                (Some(u), Reply::Token(t)) => (u, t),
                (user, _) => {
                    return (LinkRequestSaga { kind, email, device, project, path, user, stage: 3 }, Step::Fail(Error::Unknown));
                },
            };
            let to = email_user(&u);
            let p = project_of(project);
            let call = match kind {
                LinkKind::PasswordReset => ApiCall::Notifications(NotificationsCall::PasswordReset {
                    initiator: Some(Initiator::Superadmin),
                    payload: PasswordResetForUser { user: to, reset_password_path: copy_text(&path), token },
                    project: p,
                }),
                LinkKind::EmailVerification => ApiCall::Notifications(NotificationsCall::EmailVerification {
                    initiator: Some(Initiator::Superadmin),
                    payload: EmailVerificationForUser { user: to, verify_email_path: copy_text(&path), token },
                    project: p,
                }),
            };
            (LinkRequestSaga { kind, email, device, project, path, user: Some(u), stage: 2 }, Step::Call(call))
        } else {
            (LinkRequestSaga { kind, email, device, project, path, user, stage: 3 }, Step::Done(()))
        }
    }
}

/// What a step of a request for a password reset or an e-mail verification
/// does. A failed call fails the request (see `link_error_ok`). An address
/// without an account is refused with "Email does not exists", a blocked
/// account with "Email is blocked". Otherwise the users microservice makes
/// the token, and the user gets it by e-mail with the link.
pub open spec fn link_request_step_ok(old: LinkRequestSaga, outcome: Outcome, new: LinkRequestSaga, step: Step<()>) -> bool {
    let st = old.stage();
    let kept = new.kind() == old.kind() && new.email() == old.email() && new.device() == old.device()
        && new.project() == old.project() && new.path() == old.path();
    match outcome {
        Err(f) => new.stage() == 3 && (step matches Step::Fail(e) && link_error_ok(old.kind(), e, f)),
        Ok(reply) => if st == 0 {
            match reply {
                Reply::MaybeUser(Some(u)) => if u.is_blocked {
                    new.stage() == 3 && (step matches Step::Fail(e) && email_refusal_ok(e, "Email is blocked"@))
                } else {
                    &&& new.stage() == 1
                    &&& kept
                    &&& new.user() == Some(u)
                    &&& step matches Step::Call(c) && token_call_ok(old.kind(), old.email(), old.device(), old.project(), u.id, c)
                },
                _ => new.stage() == 3 && (step matches Step::Fail(e) && email_refusal_ok(e, "Email does not exists"@)),
            }
        } else if st == 1 {
            &&& reply matches Reply::Token(t)
            &&& new.stage() == 2
            &&& kept
            &&& new.user() == old.user()
            &&& step matches Step::Call(c)
                && link_email_ok(old.kind(), old.user().unwrap(), old.path(), t@, project_or_marketplace(old.project()), c)
        } else {
            new.stage() == 3 && step == Step::Done(())
        },
    }
}


/// Once the token is made, the found user gets it by e-mail, as the
/// superadmin: a password reset's e-mail carries the reset page, an e-mail
/// verification's the verification page, each chosen when the request
/// started; the e-mail goes out for the request's project, the marketplace
/// where it names none.
pub proof fn lemma_link_email_carries_token_and_page(
    old: LinkRequestSaga,
    token: String,
    new: LinkRequestSaga,
    step: Step<()>,
)
    requires
        old.wf(),
        old.stage() == 1,
        link_request_step_ok(old, Ok(Reply::Token(token)), new, step),
    ensures
        old.kind() == LinkKind::PasswordReset ==> (step matches Step::Call(
            ApiCall::Notifications(NotificationsCall::PasswordReset { initiator, payload, project }),
        ) && initiator == Some(Initiator::Superadmin) && email_user_view(payload.user) == email_user_of(old.user().unwrap())
            && payload.reset_password_path@ == old.path() && payload.token@ == token@
            && project == (if old.project() == Some(Project::Wallet) { Project::Wallet } else { Project::MarketPlace })),
        old.kind() == LinkKind::EmailVerification ==> (step matches Step::Call(
            ApiCall::Notifications(NotificationsCall::EmailVerification { initiator, payload, project }),
        ) && initiator == Some(Initiator::Superadmin) && email_user_view(payload.user) == email_user_of(old.user().unwrap())
            && payload.verify_email_path@ == old.path() && payload.token@ == token@
            && project == (if old.project() == Some(Project::Wallet) { Project::Wallet } else { Project::MarketPlace })),
{
}

/// An address with an account that is not blocked gets its token made by
/// the users microservice: a password reset's on the user's own behalf, an
/// e-mail verification's as the superadmin, each for the address, device
/// and project of the request. An address without an account, and a
/// blocked account, are refused.
pub proof fn lemma_token_asked_for_found_account(
    old: LinkRequestSaga,
    found: Option<User>,
    new: LinkRequestSaga,
    step: Step<()>,
)
    requires
        old.wf(),
        old.stage() == 0,
        link_request_step_ok(old, Ok(Reply::MaybeUser(found)), new, step),
    ensures
        match found {
            None => step matches Step::Fail(e) && email_refusal_ok(e, "Email does not exists"@),
            Some(u) => if u.is_blocked {
                step matches Step::Fail(e) && email_refusal_ok(e, "Email is blocked"@)
            } else if old.kind() == LinkKind::PasswordReset {
                step matches Step::Call(ApiCall::Users(UsersCall::CreatePasswordResetToken { initiator, payload }))
                    && initiator == Some(Initiator::User(u.id)) && payload.email@ == old.email()
                    && payload.device == old.device() && payload.project == old.project()
            } else {
                step matches Step::Call(ApiCall::Users(UsersCall::CreateEmailVerifyToken { initiator, payload }))
                    && initiator == Some(Initiator::Superadmin) && payload.email@ == old.email()
                    && payload.device == old.device() && payload.project == old.project()
            },
        },
{
}

/// A password reset being applied.
#[derive(Debug)]
pub struct PasswordResetApplySaga {
    project: Option<Project>,
    token: Option<String>,
    stage: usize,
    cluster_url: String,
}

impl PasswordResetApplySaga {
    /// 0 while the token is applied, 1 while the account is looked up, 2
    /// while the user is told, 3 when over.
    pub closed spec fn stage(&self) -> nat {
        self.stage as nat
    }

    pub closed spec fn project(&self) -> Option<Project> {
        self.project
    }

    /// The token that the users microservice gave back.
    pub closed spec fn token(&self) -> Option<Seq<char>> {
        match self.token {
            Some(t) => Some(t@),
            None => None,
        }
    }

    pub closed spec fn cluster_url(&self) -> Seq<char> {
        self.cluster_url@
    }

    pub closed spec fn wf(&self) -> bool {
        &&& self.stage <= 3
        &&& (self.stage == 1 || self.stage == 2) ==> self.token is Some
    }

    pub open spec fn awaited(&self) -> ReplyKind {
        if self.stage() == 0 {
            ReplyKind::ResetApplyToken
        } else if self.stage() == 1 {
            ReplyKind::MaybeUser
        } else {
            ReplyKind::Ignored
        }
    }

    /// Whether the step under way waits for an answer of kind `k`.
    pub fn awaits(&self, k: ReplyKind) -> (r: bool)
        ensures
            r == (k == self.awaited()),
    {
        if self.stage == 0 {
            k == ReplyKind::ResetApplyToken
        } else if self.stage == 1 {
            k == ReplyKind::MaybeUser
        } else {
            k == ReplyKind::Ignored
        }
    }

    /// Whether the saga is over.
    pub fn is_over(&self) -> (r: bool)
        ensures
            r == (self.stage() == 3),
    {
        self.stage == 3
    }

    /// Starts applying a password reset: its token and new password go to
    /// the users microservice, as the superadmin.
    pub fn start(input: PasswordResetApply, cluster_url: String) -> (r: (PasswordResetApplySaga, ApiCall))
        ensures
            r.0.wf(),
            r.0.stage() == 0,
            r.0.project() == input.project,
            r.0.cluster_url() == cluster_url@,
            r.1 == ApiCall::Users(UsersCall::ApplyPasswordResetToken { initiator: Some(Initiator::Superadmin), payload: input }),
    {
        let project = input.project;
        (PasswordResetApplySaga { project, token: None, stage: 0, cluster_url },
            ApiCall::Users(UsersCall::ApplyPasswordResetToken { initiator: Some(Initiator::Superadmin), payload: input }))
    }

    /// Takes the outcome of the call under way. A failed call fails the whole
    /// with `HttpClient`. The account of the address that the reset was for
    /// is looked up; without one the request is refused with "Email does not
    /// exists"; with one, the user is told that the password changed, and
    /// the new token comes back.
    pub fn on_outcome(self, outcome: Outcome) -> (r: (PasswordResetApplySaga, Step<String>))
        requires
            self.wf(),
            self.stage() <= 2,
            outcome matches Ok(reply) ==> kind_of_reply(reply) == self.awaited(),
        ensures
            r.0.wf(),
            r.0.project() == self.project(),
            r.0.cluster_url() == self.cluster_url(),
            match outcome {
                Err(_) => r.0.stage() == 3 && (r.1 matches Step::Fail(e) && e is HttpClient),
                Ok(reply) => if self.stage() == 0 {
                    reply matches Reply::ResetApplyToken(t) && r.0.stage() == 1 && r.0.token() == Some(t.token@)
                        && (r.1 matches Step::Call(c) && by_email_call_ok(t.email@, c))
                } else if self.stage() == 1 {
                    match reply {
                        Reply::MaybeUser(Some(u)) => r.0.stage() == 2 && r.0.token() == self.token()
                            && (r.1 matches Step::Call(ApiCall::Notifications(NotificationsCall::ApplyPasswordReset { initiator, payload, project }))
                                && initiator == Some(Initiator::Superadmin)
                                && email_user_view(payload.user) == email_user_of(u)
                                && payload.cluster_url@ == self.cluster_url()
                                && project == project_or_marketplace(self.project())),
                        _ => r.0.stage() == 3 && (r.1 matches Step::Fail(e) && email_refusal_ok(e, "Email does not exists"@)),
                    }
                } else {
                    r.0.stage() == 3 && (r.1 matches Step::Done(t) && Some(t@) == self.token())
                },
            },
    {
        let PasswordResetApplySaga { project, token, stage, cluster_url } = self;
        let reply = match outcome {
            Err(_) => {
                return (PasswordResetApplySaga { project, token, stage: 3, cluster_url }, Step::Fail(Error::HttpClient));
            },
            Ok(reply) => reply,
        };
        if stage == 0 {
            match reply {
                Reply::ResetApplyToken(t) => {
                    let call = ApiCall::Users(UsersCall::GetByEmail { initiator: Some(Initiator::Superadmin), email: t.email });
                    (PasswordResetApplySaga { project, token: Some(t.token), stage: 1, cluster_url }, Step::Call(call))
                },
                _ => (PasswordResetApplySaga { project, token, stage: 3, cluster_url }, Step::Fail(Error::Unknown)),
            }
        } else if stage == 1 {
            match reply {
                Reply::MaybeUser(Some(u)) => {
                    let payload = ApplyPasswordResetForUser { user: email_user(&u), cluster_url: copy_text(&cluster_url) };
                    let call = ApiCall::Notifications(NotificationsCall::ApplyPasswordReset {
                        initiator: Some(Initiator::Superadmin),
                        payload,
                        project: project_of(project),
                    });
                    (PasswordResetApplySaga { project, token, stage: 2, cluster_url }, Step::Call(call))
                },
                _ => (PasswordResetApplySaga { project, token, stage: 3, cluster_url }, Step::Fail(email_refusal("Email does not exists"))),
            }
        } else {
            match token {
                Some(t) => (PasswordResetApplySaga { project, token: None, stage: 3, cluster_url }, Step::Done(t)),
                None => (PasswordResetApplySaga { project, token: None, stage: 3, cluster_url }, Step::Fail(Error::Unknown)),
            }
        }
    }
}

/// An e-mail verification being applied.
#[derive(Debug)]
pub struct EmailVerifyApplySaga {
    project: Option<Project>,
    user_id: UserId,
    token: Option<String>,
    email: String,
    stage: usize,
}

impl EmailVerifyApplySaga {
    /// 0 while the token is applied, 1 while the user is told, 2 while the
    /// Emarsys contact is made, 3 while it is recorded, 4 when over.
    pub closed spec fn stage(&self) -> nat {
        self.stage as nat
    }

    pub closed spec fn project(&self) -> Option<Project> {
        self.project
    }

    /// The verified account and its address.
    pub closed spec fn user_id(&self) -> UserId {
        self.user_id
    }

    pub closed spec fn email(&self) -> Seq<char> {
        self.email@
    }

    /// The token that the users microservice gave back.
    pub closed spec fn token(&self) -> Option<Seq<char>> {
        match self.token {
            Some(t) => Some(t@),
            None => None,
        }
    }

    pub closed spec fn wf(&self) -> bool {
        &&& self.stage <= 4
        &&& 1 <= self.stage <= 3 ==> self.token is Some
    }

    pub open spec fn awaited(&self) -> ReplyKind {
        if self.stage() == 0 {
            ReplyKind::EmailVerifyApplyToken
        } else if self.stage() == 2 {
            ReplyKind::EmarsysContact
        } else {
            ReplyKind::Ignored
        }
    }

    /// Whether the step under way waits for an answer of kind `k`.
    pub fn awaits(&self, k: ReplyKind) -> (r: bool)
        ensures
            r == (k == self.awaited()),
    {
        if self.stage == 0 {
            k == ReplyKind::EmailVerifyApplyToken
        } else if self.stage == 2 {
            k == ReplyKind::EmarsysContact
        } else {
            k == ReplyKind::Ignored
        }
    }

    /// Whether the saga is over.
    pub fn is_over(&self) -> (r: bool)
        ensures
            r == (self.stage() == 4),
    {
        self.stage == 4
    }

    /// Starts applying an e-mail verification: its token goes to the users
    /// microservice, as the superadmin.
    pub fn start(input: EmailVerifyApply) -> (r: (EmailVerifyApplySaga, ApiCall))
        ensures
            r.0.wf(),
            r.0.stage() == 0,
            r.0.project() == input.project,
            r.1 == ApiCall::Users(UsersCall::ApplyEmailVerifyToken { initiator: Some(Initiator::Superadmin), payload: input }),
    {
        let project = input.project;
        (EmailVerifyApplySaga { project, user_id: 0, token: None, email: String::new(), stage: 0 },
            ApiCall::Users(UsersCall::ApplyEmailVerifyToken { initiator: Some(Initiator::Superadmin), payload: input }))
    }

    /// Takes the outcome of the call under way. A failed application or
    /// e-mail fails the whole with `HttpClient`. The verified user is told by
    /// e-mail; then the user becomes a contact in Emarsys, whose id is
    /// recorded with the user; a failure there fails nothing. The new token
    /// comes back.
    pub fn on_outcome(self, outcome: Outcome) -> (r: (EmailVerifyApplySaga, Step<String>))
        requires
            self.wf(),
            self.stage() <= 3,
            outcome matches Ok(reply) ==> kind_of_reply(reply) == self.awaited(),
        ensures
            r.0.wf(),
            r.0.project() == self.project(),
            self.stage() == 0 ==> match outcome {
                Err(_) => r.0.stage() == 4 && (r.1 matches Step::Fail(e) && e is HttpClient),
                Ok(reply) => reply matches Reply::EmailVerifyApplyToken(t) && r.0.stage() == 1
                    && r.0.token() == Some(t.token@) && r.0.user_id() == t.user.id && r.0.email() == t.user.email@
                    && (r.1 matches Step::Call(ApiCall::Notifications(NotificationsCall::ApplyEmailVerification { initiator, payload, project }))
                        && initiator == Some(Initiator::Superadmin)
                        && email_user_view(payload.user) == email_user_of(t.user)
                        && project == project_or_marketplace(self.project())),
            },
            self.stage() == 1 ==> match outcome {
                Err(_) => r.0.stage() == 4 && (r.1 matches Step::Fail(e) && e is HttpClient),
                Ok(_) => r.0.stage() == 2 && r.0.token() == self.token() && r.0.user_id() == self.user_id()
                    && (r.1 matches Step::Call(ApiCall::Notifications(NotificationsCall::EmarsysCreateContact { payload }))
                        && payload.user_id == self.user_id() && payload.email@ == self.email()),
            },
            self.stage() == 2 ==> match outcome {
                Ok(Reply::EmarsysContact(c)) => r.0.stage() == 3 && r.0.token() == self.token()
                    && r.1 == Step::<String>::Call(ApiCall::Users(UsersCall::UpdateEmarsysId {
                        initiator: Some(Initiator::Superadmin),
                        user_id: self.user_id(),
                        emarsys_id: c.emarsys_id,
                    })),
                _ => r.0.stage() == 4 && (r.1 matches Step::Done(t) && Some(t@) == self.token()),
            },
            self.stage() == 3 ==> r.0.stage() == 4 && (r.1 matches Step::Done(t) && Some(t@) == self.token()),
    {
        let EmailVerifyApplySaga { project, user_id, token, email, stage } = self;
        if stage == 0 {
            match outcome {
                Ok(Reply::EmailVerifyApplyToken(t)) => {
                    let payload = ApplyEmailVerificationForUser { user: email_user(&t.user) };
                    let call = ApiCall::Notifications(NotificationsCall::ApplyEmailVerification {
                        initiator: Some(Initiator::Superadmin),
                        payload,
                        project: project_of(project),
                    });
                    (EmailVerifyApplySaga { project, user_id: t.user.id, token: Some(t.token), email: t.user.email, stage: 1 },
                        Step::Call(call))
                },
                Err(_) => (EmailVerifyApplySaga { project, user_id, token, email, stage: 4 }, Step::Fail(Error::HttpClient)),
                Ok(_) => (EmailVerifyApplySaga { project, user_id, token, email, stage: 4 }, Step::Fail(Error::Unknown)),
            }
        } else if stage == 1 {
            match outcome {
                Ok(_) => {
                    let payload = CreateEmarsysContactPayload { user_id, email: copy_text(&email) };
                    let call = ApiCall::Notifications(NotificationsCall::EmarsysCreateContact { payload });
                    (EmailVerifyApplySaga { project, user_id, token, email, stage: 2 }, Step::Call(call))
                },
                Err(_) => (EmailVerifyApplySaga { project, user_id, token, email, stage: 4 }, Step::Fail(Error::HttpClient)),
            }
        } else if stage == 2 {
            match outcome {
                Ok(Reply::EmarsysContact(c)) => {
                    let call = ApiCall::Users(UsersCall::UpdateEmarsysId {
                        initiator: Some(Initiator::Superadmin),
                        user_id,
                        emarsys_id: c.emarsys_id,
                    });
                    (EmailVerifyApplySaga { project, user_id, token, email, stage: 3 }, Step::Call(call))
                },
                _ => EmailVerifyApplySaga { project, user_id, token, email, stage: 4 }.finish(),
            }
        } else {
            EmailVerifyApplySaga { project, user_id, token, email, stage: 4 }.finish()
        }
    }

    fn finish(self) -> (r: (EmailVerifyApplySaga, Step<String>))
        requires
            self.token() is Some,
        ensures
            r.0.wf(),
            r.0.stage() == 4,
            r.0.project() == self.project(),
            r.1 matches Step::Done(t) && Some(t@) == self.token(),
    {
        let EmailVerifyApplySaga { project, user_id, token, email, stage: _ } = self;
        match token {
            Some(t) => (EmailVerifyApplySaga { project, user_id, token: None, email, stage: 4 }, Step::Done(t)),
            None => (EmailVerifyApplySaga { project, user_id, token: None, email, stage: 4 }, Step::Fail(Error::Unknown)),
        }
    }
}

}
