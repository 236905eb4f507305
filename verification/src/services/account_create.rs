//! The creation of an account: the user, then the user's roles in the
//! users, stores, billing and delivery microservices, then the user's
//! merchant in billing. Each step is logged when it starts and when it has
//! succeeded; when a step fails, every step that succeeded is undone. After
//! the last step, a user who signs in by e-mail gets an e-mail to verify the
//! address, and a user of the marketplace who signs in with Google or
//! Facebook becomes a contact in Emarsys; a failure there fails nothing.
use vstd::prelude::*;

use crate::config::{Config, ProjectUrls};
use crate::http::Initiator;
use crate::ids::{fresh_uuid, RoleId, SagaId, UserId};
use crate::microservice::{
    kind_of_reply, ApiCall, BillingCall, DeliveryCall, NotificationsCall, Reply, ReplyKind, StoresCall, UsersCall,
};
use crate::models::create_profile::{
    CreateProfileOperationStage, CreateUserMerchantPayload, NewIdentity, NewUser, Provider, SagaCreateProfile, User,
    VerifyRequest,
};
use crate::models::notifications::{CreateEmarsysContactPayload, EmailVerificationForUser};
use crate::models::resources::{Device, Project};
use crate::models::roles::{BillingRole, DeliveryRole, NewRole, StoresRole, UsersRole};
use crate::services::common::{service_error, service_error_ok, Outcome, Step};
use crate::services::notify::{
    copy_text, copy_urls, email_user, same_urls, email_user_of, email_user_view, link_for, link_path, project_of, project_or_marketplace,
};
use crate::validation::texts_of;

verus! {

/// The fields whose validation errors an account's creation reports.
pub open spec fn account_fields() -> Seq<&'static str> {
    seq!["email", "password"]
}

fn account_field_names() -> (r: &'static [&'static str])
    ensures
        r@ == account_fields(),
{
    let v: &'static [&'static str] = &["email", "password"];
    assert(v@ =~= account_fields());
    v
}

/// What undoes a completed step of the log; nothing undoes a start.
pub open spec fn account_stage_revert(e: CreateProfileOperationStage) -> Option<ApiCall> {
    let sa = Some(Initiator::Superadmin);
    match e {
        CreateProfileOperationStage::AccountCreationComplete(id) => Some(ApiCall::Users(UsersCall::DeleteUser { initiator: sa, saga_id: id })),
        CreateProfileOperationStage::UsersRoleSetComplete(id) => Some(ApiCall::Users(UsersCall::DeleteRole { initiator: sa, role_id: id })),
        CreateProfileOperationStage::StoreRoleSetComplete(id) =>
            Some(ApiCall::Stores(StoresCall::DeleteStoresRole { initiator: sa, role_id: id })),
        CreateProfileOperationStage::BillingRoleSetComplete(id) => Some(ApiCall::Billing(BillingCall::DeleteRole { initiator: sa, role_id: id })),
        CreateProfileOperationStage::DeliveryRoleSetComplete(id) =>
            Some(ApiCall::Delivery(DeliveryCall::DeleteDeliveryRole { initiator: sa, role_id: id })),
        CreateProfileOperationStage::BillingCreateMerchantComplete(id) =>
            Some(ApiCall::Billing(BillingCall::DeleteUserMerchant { initiator: sa, user_id: id })),
        _ => None,
    }
}

/// The calls that undo a log: one for each completed step, in the order of
/// the log.
pub open spec fn account_reverts_of_log(log: Seq<CreateProfileOperationStage>) -> Seq<ApiCall>
    decreases log.len(),
{
    if log.len() == 0 {
        seq![]
    } else {
        let rest = account_reverts_of_log(log.drop_last());
        match account_stage_revert(log.last()) {
            Some(c) => rest.push(c),
            None => rest,
        }
    }
}

fn stage_revert(e: CreateProfileOperationStage) -> (r: Option<ApiCall>)
    ensures
        r == account_stage_revert(e),
{
    let sa = Some(Initiator::Superadmin);
    match e {
        CreateProfileOperationStage::AccountCreationComplete(id) => Some(ApiCall::Users(UsersCall::DeleteUser { initiator: sa, saga_id: id })),
        CreateProfileOperationStage::UsersRoleSetComplete(id) => Some(ApiCall::Users(UsersCall::DeleteRole { initiator: sa, role_id: id })),
        CreateProfileOperationStage::StoreRoleSetComplete(id) =>
            Some(ApiCall::Stores(StoresCall::DeleteStoresRole { initiator: sa, role_id: id })),
        CreateProfileOperationStage::BillingRoleSetComplete(id) => Some(ApiCall::Billing(BillingCall::DeleteRole { initiator: sa, role_id: id })),
        CreateProfileOperationStage::DeliveryRoleSetComplete(id) =>
            Some(ApiCall::Delivery(DeliveryCall::DeleteDeliveryRole { initiator: sa, role_id: id })),
        CreateProfileOperationStage::BillingCreateMerchantComplete(id) =>
            Some(ApiCall::Billing(BillingCall::DeleteUserMerchant { initiator: sa, user_id: id })),
        _ => None,
    }
}

/// The calls that undo what an account-creation log records as done.
pub fn create_account_revert(log: &Vec<CreateProfileOperationStage>) -> (r: Vec<ApiCall>)
    ensures
        r@ == account_reverts_of_log(log@),
{
    let mut r: Vec<ApiCall> = Vec::new();
    let mut i: usize = 0;
    while i < log.len()
        invariant
            i <= log.len(),
            r@ == account_reverts_of_log(log@.take(i as int)),
        decreases log.len() - i,
    {
        assert(log@.take(i as int + 1).drop_last() =~= log@.take(i as int));
        match stage_revert(log[i]) {
            Some(c) => r.push(c),
            None => {},
        }
        i = i + 1;
    }
    assert(log@.take(log.len() as int) =~= log@);
    r
}

/// The log entry with which step `k` starts.
pub open spec fn account_start_entry(k: int, saga: SagaId, user_id: UserId, ids: Seq<RoleId>) -> CreateProfileOperationStage {
    if k == 0 {
        CreateProfileOperationStage::AccountCreationStart(saga)
    } else if k == 1 {
        CreateProfileOperationStage::UsersRoleSetStart(ids[0])
    } else if k == 2 {
        CreateProfileOperationStage::StoreRoleSetStart(ids[1])
    } else if k == 3 {
        CreateProfileOperationStage::BillingRoleSetStart(ids[2])
    } else if k == 4 {
        CreateProfileOperationStage::DeliveryRoleSetStart(ids[3])
    } else {
        CreateProfileOperationStage::BillingCreateMerchantStart(user_id)
    }
}

/// The log entry with which step `k` is recorded as done.
pub open spec fn account_complete_entry(k: int, saga: SagaId, user_id: UserId, ids: Seq<RoleId>) -> CreateProfileOperationStage {
    if k == 0 {
        CreateProfileOperationStage::AccountCreationComplete(saga)
    } else if k == 1 {
        CreateProfileOperationStage::UsersRoleSetComplete(ids[0])
    } else if k == 2 {
        CreateProfileOperationStage::StoreRoleSetComplete(ids[1])
    } else if k == 3 {
        CreateProfileOperationStage::BillingRoleSetComplete(ids[2])
    } else if k == 4 {
        CreateProfileOperationStage::DeliveryRoleSetComplete(ids[3])
    } else {
        CreateProfileOperationStage::BillingCreateMerchantComplete(user_id)
    }
}

/// The log of the first `k` steps, all done.
pub open spec fn account_done_log(k: nat, saga: SagaId, user_id: UserId, ids: Seq<RoleId>) -> Seq<CreateProfileOperationStage>
    decreases k,
{
    if k == 0 {
        seq![]
    } else {
        account_done_log((k - 1) as nat, saga, user_id, ids)
            .push(account_start_entry(k - 1, saga, user_id, ids))
            .push(account_complete_entry(k - 1, saga, user_id, ids))
    }
}

/// The log while step `k` is under way.
pub open spec fn account_log_at(k: nat, saga: SagaId, user_id: UserId, ids: Seq<RoleId>) -> Seq<CreateProfileOperationStage> {
    account_done_log(k, saga, user_id, ids).push(account_start_entry(k as int, saga, user_id, ids))
}

/// What undoes step `k` once it is done.
pub open spec fn account_step_revert(k: int, saga: SagaId, user_id: UserId, ids: Seq<RoleId>) -> ApiCall {
    account_stage_revert(account_complete_entry(k, saga, user_id, ids))->Some_0
}

/// The calls that undo the first `k` steps, in the order in which they were
/// done.
pub open spec fn account_undo_first(k: nat, saga: SagaId, user_id: UserId, ids: Seq<RoleId>) -> Seq<ApiCall> {
    Seq::new(k, |i: int| account_step_revert(i, saga, user_id, ids))
}

/// Undoing the log of a creation whose step `k` is under way undoes exactly
/// the first `k` steps, one call each, in the order in which they were done.
pub proof fn lemma_account_revert_undoes_done_steps(k: nat, saga: SagaId, user_id: UserId, ids: Seq<RoleId>)
    requires
        k <= 5,
    ensures
        account_reverts_of_log(account_log_at(k, saga, user_id, ids)) == account_undo_first(k, saga, user_id, ids),
{
    let log = account_log_at(k, saga, user_id, ids);
    assert(log.drop_last() =~= account_done_log(k, saga, user_id, ids));
    lemma_account_done_log_reverts(k, saga, user_id, ids);
}

proof fn lemma_account_done_log_reverts(k: nat, saga: SagaId, user_id: UserId, ids: Seq<RoleId>)
    requires
        k <= 6,
    ensures
        account_reverts_of_log(account_done_log(k, saga, user_id, ids)) == account_undo_first(k, saga, user_id, ids),
    decreases k,
{
    if k == 0 {
        assert(account_undo_first(0, saga, user_id, ids) =~= Seq::<ApiCall>::empty());
    } else {
        let prev = account_done_log((k - 1) as nat, saga, user_id, ids);
        let with_start = prev.push(account_start_entry(k - 1, saga, user_id, ids));
        let full = with_start.push(account_complete_entry(k - 1, saga, user_id, ids));
        lemma_account_done_log_reverts((k - 1) as nat, saga, user_id, ids);
        assert(full.drop_last() =~= with_start);
        assert(with_start.drop_last() =~= prev);
        assert(account_reverts_of_log(with_start) == account_reverts_of_log(prev));
        assert(account_reverts_of_log(full) == account_reverts_of_log(with_start).push(account_step_revert(k - 1, saga, user_id, ids)));
        assert(account_undo_first(k, saga, user_id, ids) =~= account_undo_first((k - 1) as nat, saga, user_id, ids).push(
            account_step_revert(k - 1, saga, user_id, ids)));
    }
}

proof fn lemma_account_done_log_agree(k: nat, saga: SagaId, user_id: UserId, a: Seq<RoleId>, b: Seq<RoleId>)
    requires
        k <= 5,
        forall|i: int| 0 <= i < k && i < 4 ==> a[i] == b[i],
    ensures
        account_done_log(k, saga, user_id, a) == account_done_log(k, saga, user_id, b),
    decreases k,
{
    if k > 0 {
        lemma_account_done_log_agree((k - 1) as nat, saga, user_id, a, b);
    }
}

/// Each completed step is undone on the microservice that did it, on the
/// superadmin's behalf: the user is deleted in users by the saga's id, the
/// users role in users, the stores role in stores, the billing role and
/// then the user's merchant in billing, the delivery role in delivery. A
/// start undoes nothing.
pub proof fn lemma_account_step_undone_where_done(e: CreateProfileOperationStage)
    ensures
        account_reverts_of_log(seq![e]) == match e {
            CreateProfileOperationStage::AccountCreationComplete(id) =>
                seq![ApiCall::Users(UsersCall::DeleteUser { initiator: Some(Initiator::Superadmin), saga_id: id })],
            CreateProfileOperationStage::UsersRoleSetComplete(id) =>
                seq![ApiCall::Users(UsersCall::DeleteRole { initiator: Some(Initiator::Superadmin), role_id: id })],
            CreateProfileOperationStage::StoreRoleSetComplete(id) =>
                seq![ApiCall::Stores(StoresCall::DeleteStoresRole { initiator: Some(Initiator::Superadmin), role_id: id })],
            CreateProfileOperationStage::BillingRoleSetComplete(id) =>
                seq![ApiCall::Billing(BillingCall::DeleteRole { initiator: Some(Initiator::Superadmin), role_id: id })],
            CreateProfileOperationStage::DeliveryRoleSetComplete(id) =>
                seq![ApiCall::Delivery(DeliveryCall::DeleteDeliveryRole { initiator: Some(Initiator::Superadmin), role_id: id })],
            CreateProfileOperationStage::BillingCreateMerchantComplete(id) =>
                seq![ApiCall::Billing(BillingCall::DeleteUserMerchant { initiator: Some(Initiator::Superadmin), user_id: id })],
            _ => Seq::<ApiCall>::empty(),
        },
{
    let log = seq![e];
    assert(log.len() == 1 && log.last() == e);
    assert(log.drop_last() =~= Seq::<CreateProfileOperationStage>::empty());
    assert(account_reverts_of_log(Seq::<CreateProfileOperationStage>::empty()) =~= Seq::<ApiCall>::empty());
    assert(account_reverts_of_log(log) == match account_stage_revert(e) {
        Some(c) => Seq::<ApiCall>::empty().push(c),
        None => Seq::<ApiCall>::empty(),
    });
    match account_stage_revert(e) {
        Some(c) => assert(Seq::<ApiCall>::empty().push(c) =~= seq![c]),
        None => {},
    }
}

/// When the step that creates the merchant fails, the user and the four
/// roles are undone, in the order in which they were made, each on its own
/// microservice; when an earlier step fails, the steps before it are undone
/// in the same way and nothing else.
pub proof fn lemma_account_failure_undoes_user_and_roles(
    k: nat,
    saga: SagaId,
    user_id: UserId,
    users_role: RoleId,
    stores_role: RoleId,
    billing_role: RoleId,
    delivery_role: RoleId,
)
    requires
        k <= 5,
    ensures
        account_reverts_of_log(account_log_at(k, saga, user_id, seq![users_role, stores_role, billing_role, delivery_role]))
            == seq![
            ApiCall::Users(UsersCall::DeleteUser { initiator: Some(Initiator::Superadmin), saga_id: saga }),
            ApiCall::Users(UsersCall::DeleteRole { initiator: Some(Initiator::Superadmin), role_id: users_role }),
            ApiCall::Stores(StoresCall::DeleteStoresRole { initiator: Some(Initiator::Superadmin), role_id: stores_role }),
            ApiCall::Billing(BillingCall::DeleteRole { initiator: Some(Initiator::Superadmin), role_id: billing_role }),
            ApiCall::Delivery(DeliveryCall::DeleteDeliveryRole { initiator: Some(Initiator::Superadmin), role_id: delivery_role }),
        ].take(k as int),
{
    let ids = seq![users_role, stores_role, billing_role, delivery_role];
    lemma_account_revert_undoes_done_steps(k, saga, user_id, ids);
    let all = seq![
        ApiCall::Users(UsersCall::DeleteUser { initiator: Some(Initiator::Superadmin), saga_id: saga }),
        ApiCall::Users(UsersCall::DeleteRole { initiator: Some(Initiator::Superadmin), role_id: users_role }),
        ApiCall::Stores(StoresCall::DeleteStoresRole { initiator: Some(Initiator::Superadmin), role_id: stores_role }),
        ApiCall::Billing(BillingCall::DeleteRole { initiator: Some(Initiator::Superadmin), role_id: billing_role }),
        ApiCall::Delivery(DeliveryCall::DeleteDeliveryRole { initiator: Some(Initiator::Superadmin), role_id: delivery_role }),
    ];
    assert(account_undo_first(k, saga, user_id, ids) =~= all.take(k as int));
}

/// An account's creation under way.
pub struct CreateAccountSaga {
    log: Vec<CreateProfileOperationStage>,
    stage: usize,
    saga_id: SagaId,
    user: Option<User>,
    role_ids: Vec<RoleId>,
    provider: Provider,
    device: Option<Device>,
    project: Option<Project>,
    verify_email_urls: ProjectUrls,
}

impl CreateAccountSaga {
    pub closed spec fn log(&self) -> Seq<CreateProfileOperationStage> {
        self.log@
    }

    /// The step under way: 0 creates the user, 1 to 4 give the user's roles
    /// (users, stores, billing, delivery), 5 creates the merchant; 6 and 7
    /// ask for a verification token and send the verification e-mail, 8 and
    /// 9 create the Emarsys contact and record it; 10 means the saga is over.
    pub closed spec fn stage(&self) -> nat {
        self.stage as nat
    }

    /// The saga's id, under which the user is created.
    pub closed spec fn saga_id(&self) -> SagaId {
        self.saga_id
    }

    /// The created user's id, once it exists.
    pub closed spec fn user_id(&self) -> UserId {
        match self.user {
            Some(u) => u.id,
            None => 0,
        }
    }

    /// The created user's e-mail and names as an addressee, once it exists.
    pub closed spec fn addressee(&self) -> (Seq<char>, Seq<char>, Seq<char>) {
        match self.user {
            Some(u) => email_user_of(u),
            None => (seq![], seq![], seq![]),
        }
    }

    pub closed spec fn email(&self) -> Seq<char> {
        match self.user {
            Some(u) => u.email@,
            None => seq![],
        }
    }

    /// The created user as the users microservice returned it, while the
    /// saga holds it.
    pub closed spec fn user(&self) -> Option<User> {
        self.user
    }

    pub closed spec fn role_ids(&self) -> Seq<RoleId> {
        self.role_ids@
    }

    pub closed spec fn provider(&self) -> Provider {
        self.provider
    }

    pub closed spec fn device(&self) -> Option<Device> {
        self.device
    }

    pub closed spec fn project(&self) -> Option<Project> {
        self.project
    }

    pub closed spec fn verify_email_urls(&self) -> ProjectUrls {
        self.verify_email_urls
    }

    pub closed spec fn wf(&self) -> bool {
        &&& self.stage <= 10
        &&& self.stage <= 5 ==> self.log@ == account_log_at(self.stage as nat, self.saga_id, self.user_id(), self.role_ids@)
        &&& (self.stage >= 1 && self.stage <= 9) <==> self.user is Some
        &&& self.stage <= 5 ==> self.role_ids@.len() == if self.stage <= 4 { self.stage as int } else { 4 }
    }

    /// The kind of answer that the step under way waits for.
    pub open spec fn awaited(&self) -> ReplyKind {
        if self.stage() == 0 {
            ReplyKind::User
        } else if self.stage() == 6 {
            ReplyKind::Token
        } else if self.stage() == 8 {
            ReplyKind::EmarsysContact
        } else {
            ReplyKind::Ignored
        }
    }

    /// Whether the step under way waits for an answer of kind `k`.
    pub fn awaits(&self, k: ReplyKind) -> (r: bool)
        ensures
            r == (k == self.awaited()),
    {
        if self.stage == 0 {
            k == ReplyKind::User
        } else if self.stage == 6 {
            k == ReplyKind::Token
        } else if self.stage == 8 {
            k == ReplyKind::EmarsysContact
        } else {
            k == ReplyKind::Ignored
        }
    }

    /// Whether the saga is over.
    pub fn is_over(&self) -> (r: bool)
        ensures
            r == (self.stage() == 10),
    {
        self.stage == 10
    }

    /// Starts the creation of an account under a fresh saga id: logs its
    /// start and asks the users microservice to create the user, with the
    /// saga id set in the user's data and identity.
    pub fn start(input: SagaCreateProfile, config: &Config) -> (r: (CreateAccountSaga, ApiCall))
        ensures
            r.0.wf(),
            r.0.stage() == 0,
            r.0.provider() == input.identity.provider,
            r.0.device() == input.device,
            r.0.project() == input.project,
            same_urls(r.0.verify_email_urls(), config.notification_urls.verify_email),
            r.0.log() == seq![CreateProfileOperationStage::AccountCreationStart(r.0.saga_id())],
            r.1 == ApiCall::Users(UsersCall::CreateUser {
                initiator: Some(Initiator::Superadmin),
                payload: SagaCreateProfile {
                    user: match input.user {
                        Some(u) => Some(NewUser { saga_id: r.0.saga_id(), ..u }),
                        None => None,
                    },
                    identity: NewIdentity { saga_id: r.0.saga_id(), ..input.identity },
                    device: input.device,
                    project: input.project,
                },
            }),
    {
        let saga_id = fresh_uuid();
        let SagaCreateProfile { user, identity, device, project } = input;
        let provider = identity.provider;
        let new_user = match user {
            Some(u) => Some(NewUser { saga_id, ..u }),
            None => None,
        };
        let new_identity = NewIdentity { saga_id, ..identity };
        let payload = SagaCreateProfile { user: new_user, identity: new_identity, device, project };
        let mut log: Vec<CreateProfileOperationStage> = Vec::new();
        log.push(CreateProfileOperationStage::AccountCreationStart(saga_id));
        let saga = CreateAccountSaga {
            log,
            stage: 0,
            saga_id,
            user: None,
            role_ids: Vec::new(),
            provider,
            device,
            project,
            verify_email_urls: copy_urls(&config.notification_urls.verify_email),
        };
        assert(saga.log@ =~= account_log_at(0, saga_id, 0, saga.role_ids@));
        (saga, ApiCall::Users(UsersCall::CreateUser { initiator: Some(Initiator::Superadmin), payload }))
    }

    /// Takes the outcome of the step under way. A step of the creation that
    /// succeeded is logged as done and the next one is started; one that
    /// failed ends the saga by undoing, in order, every step that was done.
    /// After the creation, the follow-up calls are made one after the other,
    /// and the user is handed back whatever their outcome.
    pub fn on_outcome(self, outcome: Outcome) -> (r: (CreateAccountSaga, Step<User>))
        requires
            self.wf(),
            self.stage() <= 9,
            outcome matches Ok(reply) ==> kind_of_reply(reply) == self.awaited(),
        ensures
            r.0.wf(),
            same_request(self, r.0),
            match outcome {
                Err(f) => if self.stage() <= 5 {
                    &&& r.0.stage() == 10
                    &&& r.1 matches Step::Revert { calls, error }
                        && calls@ == account_undo_first(self.stage(), self.saga_id(), self.user_id(), self.role_ids())
                        && service_error_ok(error, f, texts_of(account_fields()))
                } else {
                    &&& r.0.stage() == 10
                    &&& r.1 matches Step::Done(u) && self.user() == Some(u) && u.id == self.user_id() && email_user_of(u) == self.addressee()
                },
                Ok(reply) => create_account_advance(self, reply, r.0, r.1),
            },
    {
        match outcome {
            Err(f) => {
                if self.stage <= 5 {
                    proof {
                        lemma_account_revert_undoes_done_steps(self.stage as nat, self.saga_id, self.user_id(), self.role_ids@);
                    }
                    let calls = create_account_revert(&self.log);
                    let error = service_error(f, account_field_names());
                    let CreateAccountSaga { log, stage: _, saga_id, user: _, role_ids, provider, device, project, verify_email_urls } = self;
                    (CreateAccountSaga { log, stage: 10, saga_id, user: None, role_ids, provider, device, project, verify_email_urls },
                        Step::Revert { calls, error })
                } else {
                    self.finish()
                }
            },
            Ok(reply) => self.advance(reply),
        }
    }

    fn finish(self) -> (r: (CreateAccountSaga, Step<User>))
        requires
            self.wf(),
            6 <= self.stage() <= 9,
        ensures
            r.0.wf(),
            same_request(self, r.0),
            r.0.stage() == 10,
            r.1 matches Step::Done(u) && self.user() == Some(u) && u.id == self.user_id() && email_user_of(u) == self.addressee(),
    {
        let CreateAccountSaga { log, stage: _, saga_id, user, role_ids, provider, device, project, verify_email_urls } = self;
        let u = match user {
            Some(u) => u,
            None => { assert(false); return (CreateAccountSaga { log, stage: 10, saga_id, user: None, role_ids, provider, device, project, verify_email_urls }, Step::Fail(crate::errors::Error::Unknown)); },
        };
        (CreateAccountSaga { log, stage: 10, saga_id, user: None, role_ids, provider, device, project, verify_email_urls }, Step::Done(u))
    }

    fn advance(self, reply: Reply) -> (r: (CreateAccountSaga, Step<User>))
        requires
            self.wf(),
            self.stage() <= 9,
            kind_of_reply(reply) == self.awaited(),
        ensures
            r.0.wf(),
            same_request(self, r.0),
            create_account_advance(self, reply, r.0, r.1),
    {
        if self.stage >= 6 {
            return self.follow_up(reply);
        }
        let CreateAccountSaga { mut log, stage, saga_id, user, mut role_ids, provider, device, project, verify_email_urls } = self;
        let ghost old_log = log@;
        let ghost old_ids = role_ids@;
        let sa = Some(Initiator::Superadmin);
        if stage == 0 {
            let created = match reply {
                Reply::User(u) => u,
                _ => { assert(false); return (CreateAccountSaga { log, stage: 10, saga_id, user: None, role_ids, provider, device, project, verify_email_urls }, Step::Fail(crate::errors::Error::Unknown)); },
            };
            let id = fresh_uuid();
            log.push(CreateProfileOperationStage::AccountCreationComplete(saga_id));
            log.push(CreateProfileOperationStage::UsersRoleSetStart(id));
            role_ids.push(id);
            let role = NewRole::new(id, created.id, UsersRole::User, None);
            let call = ApiCall::Users(UsersCall::CreateRole { initiator: sa, payload: role });
            let next = CreateAccountSaga { log, stage: 1, saga_id, user: Some(created), role_ids, provider, device, project, verify_email_urls };
            proof {
                assert(account_done_log(0, saga_id, next.user_id(), role_ids@) == Seq::<CreateProfileOperationStage>::empty());
                assert(old_log =~= seq![CreateProfileOperationStage::AccountCreationStart(saga_id)]);
                assert(next.log@ =~= account_log_at(1, saga_id, next.user_id(), next.role_ids@));
            }
            return (next, Step::Call(call));
        }
        let u = match user {
            Some(u) => u,
            None => { assert(false); return (CreateAccountSaga { log, stage: 10, saga_id, user: None, role_ids, provider, device, project, verify_email_urls }, Step::Fail(crate::errors::Error::Unknown)); },
        };
        let user_id = u.id;
        if stage == 1 {
            let done_id = role_ids[0];
            let id = fresh_uuid();
            log.push(CreateProfileOperationStage::UsersRoleSetComplete(done_id));
            log.push(CreateProfileOperationStage::StoreRoleSetStart(id));
            role_ids.push(id);
            let call = ApiCall::Stores(StoresCall::CreateStoresRole { initiator: sa, payload: NewRole::new(id, user_id, StoresRole::User, None) });
            let next = CreateAccountSaga { log, stage: 2, saga_id, user: Some(u), role_ids, provider, device, project, verify_email_urls };
            proof {
                lemma_account_done_log_agree(1, saga_id, user_id, old_ids, next.role_ids@);
                assert(next.role_ids@.take(1) =~= old_ids);
                assert(next.log@ =~= account_log_at(2, saga_id, next.user_id(), next.role_ids@));
            }
            (next, Step::Call(call))
        } else if stage == 2 {
            let done_id = role_ids[1];
            let id = fresh_uuid();
            log.push(CreateProfileOperationStage::StoreRoleSetComplete(done_id));
            log.push(CreateProfileOperationStage::BillingRoleSetStart(id));
            role_ids.push(id);
            let call = ApiCall::Billing(BillingCall::CreateRole { initiator: sa, payload: NewRole::new(id, user_id, BillingRole::User, None) });
            let next = CreateAccountSaga { log, stage: 3, saga_id, user: Some(u), role_ids, provider, device, project, verify_email_urls };
            proof {
                lemma_account_done_log_agree(2, saga_id, user_id, old_ids, next.role_ids@);
                assert(next.role_ids@.take(2) =~= old_ids);
                assert(next.log@ =~= account_log_at(3, saga_id, next.user_id(), next.role_ids@));
            }
            (next, Step::Call(call))
        } else if stage == 3 {
            let done_id = role_ids[2];
            let id = fresh_uuid();
            log.push(CreateProfileOperationStage::BillingRoleSetComplete(done_id));
            log.push(CreateProfileOperationStage::DeliveryRoleSetStart(id));
            role_ids.push(id);
            let call = ApiCall::Delivery(DeliveryCall::CreateDeliveryRole { initiator: sa, payload: NewRole::new(id, user_id, DeliveryRole::User, None) });
            let next = CreateAccountSaga { log, stage: 4, saga_id, user: Some(u), role_ids, provider, device, project, verify_email_urls };
            proof {
                lemma_account_done_log_agree(3, saga_id, user_id, old_ids, next.role_ids@);
                assert(next.role_ids@.take(3) =~= old_ids);
                assert(next.log@ =~= account_log_at(4, saga_id, next.user_id(), next.role_ids@));
            }
            (next, Step::Call(call))
        } else if stage == 4 {
            let done_id = role_ids[3];
            log.push(CreateProfileOperationStage::DeliveryRoleSetComplete(done_id));
            log.push(CreateProfileOperationStage::BillingCreateMerchantStart(user_id));
            let call = ApiCall::Billing(BillingCall::CreateUserMerchant { initiator: sa, payload: CreateUserMerchantPayload { id: user_id } });
            let next = CreateAccountSaga { log, stage: 5, saga_id, user: Some(u), role_ids, provider, device, project, verify_email_urls };
            proof {
                assert(next.log@ =~= account_log_at(5, saga_id, next.user_id(), next.role_ids@));
            }
            (next, Step::Call(call))
        } else {
            log.push(CreateProfileOperationStage::BillingCreateMerchantComplete(user_id));
            match provider {
                Provider::Email => {
                    let verify = VerifyRequest { email: copy_text(&u.email), device, project };
                    let call = ApiCall::Users(UsersCall::CreateEmailVerifyToken { initiator: Some(Initiator::User(user_id)), payload: verify });
                    (CreateAccountSaga { log, stage: 6, saga_id, user: Some(u), role_ids, provider, device, project, verify_email_urls }, Step::Call(call))
                },
                _ => {
                    let marketplace = match project {
                        Some(Project::Wallet) => false,
                        _ => true,
                    };
                    if marketplace {
                        let payload = CreateEmarsysContactPayload { user_id, email: copy_text(&u.email) };
                        let call = ApiCall::Notifications(NotificationsCall::EmarsysCreateContact { payload });
                        (CreateAccountSaga { log, stage: 8, saga_id, user: Some(u), role_ids, provider, device, project, verify_email_urls }, Step::Call(call))
                    } else {
                        (CreateAccountSaga { log, stage: 10, saga_id, user: None, role_ids, provider, device, project, verify_email_urls }, Step::Done(u))
                    }
                },
            }
        }
    }

    fn follow_up(self, reply: Reply) -> (r: (CreateAccountSaga, Step<User>))
        requires
            self.wf(),
            6 <= self.stage() <= 9,
            kind_of_reply(reply) == self.awaited(),
        ensures
            r.0.wf(),
            same_request(self, r.0),
            create_account_advance(self, reply, r.0, r.1),
    {
        if self.stage == 6 {
            let token = match reply {
                Reply::Token(t) => t,
                _ => { assert(false); return self.finish(); },
            };
            let path = link_for(&self.verify_email_urls, self.project, self.device);
            let addressee = match &self.user {
                Some(u) => email_user(u),
                None => { assert(false); return self.finish(); },
            };
            let payload = EmailVerificationForUser { user: addressee, verify_email_path: path, token };
            let call = ApiCall::Notifications(NotificationsCall::EmailVerification {
                initiator: Some(Initiator::Superadmin),
                payload,
                project: project_of(self.project),
            });
            let CreateAccountSaga { log, stage: _, saga_id, user, role_ids, provider, device, project, verify_email_urls } = self;
            (CreateAccountSaga { log, stage: 7, saga_id, user, role_ids, provider, device, project, verify_email_urls }, Step::Call(call))
        } else if self.stage == 8 {
            let contact = match reply {
                Reply::EmarsysContact(c) => c,
                _ => { assert(false); return self.finish(); },
            };
            let user_id = match &self.user {
                Some(u) => u.id,
                None => { assert(false); return self.finish(); },
            };
            let call = ApiCall::Users(UsersCall::UpdateEmarsysId {
                initiator: Some(Initiator::Superadmin),
                user_id,
                emarsys_id: contact.emarsys_id,
            });
            let CreateAccountSaga { log, stage: _, saga_id, user, role_ids, provider, device, project, verify_email_urls } = self;
            (CreateAccountSaga { log, stage: 9, saga_id, user, role_ids, provider, device, project, verify_email_urls }, Step::Call(call))
        } else {
            self.finish()
        }
    }
}

/// Whether a step keeps what the request asked for: how the user signs in,
/// the device and project, and the pages that the verification e-mail links
/// to.
pub open spec fn same_request(old: CreateAccountSaga, new: CreateAccountSaga) -> bool {
    &&& new.provider() == old.provider()
    &&& new.device() == old.device()
    &&& new.project() == old.project()
    &&& new.verify_email_urls() == old.verify_email_urls()
}

/// What a step that succeeded does.
pub open spec fn create_account_advance(old: CreateAccountSaga, reply: Reply, new: CreateAccountSaga, step: Step<User>) -> bool {
    let sa = Some(Initiator::Superadmin);
    let k = old.stage();
    if k == 0 {
        &&& reply matches Reply::User(u)
        &&& new.stage() == 1
        &&& new.saga_id() == old.saga_id()
        &&& new.user() == Some(u)
        &&& new.user_id() == u.id
        &&& new.addressee() == email_user_of(u)
        &&& new.role_ids().len() == 1
        &&& new.log() == old.log().push(CreateProfileOperationStage::AccountCreationComplete(old.saga_id()))
                .push(CreateProfileOperationStage::UsersRoleSetStart(new.role_ids()[0]))
        &&& step == Step::<User>::Call(ApiCall::Users(UsersCall::CreateRole { initiator: sa,
                payload: NewRole { id: new.role_ids()[0], user_id: u.id, name: UsersRole::User, data: None } }))
    } else if k <= 3 {
        &&& new.stage() == k + 1
        &&& new.saga_id() == old.saga_id()
        &&& new.user() == old.user()
        &&& new.user_id() == old.user_id()
        &&& new.addressee() == old.addressee()
        &&& new.role_ids().len() == k + 1
        &&& new.role_ids().take(k as int) == old.role_ids()
        &&& new.log() == old.log().push(account_complete_entry(k as int, old.saga_id(), old.user_id(), old.role_ids()))
                .push(account_start_entry(k + 1 as int, old.saga_id(), old.user_id(), new.role_ids()))
        &&& step == Step::<User>::Call(if k == 1 {
                ApiCall::Stores(StoresCall::CreateStoresRole { initiator: sa,
                    payload: NewRole { id: new.role_ids()[1], user_id: old.user_id(), name: StoresRole::User, data: None } })
            } else if k == 2 {
                ApiCall::Billing(BillingCall::CreateRole { initiator: sa,
                    payload: NewRole { id: new.role_ids()[2], user_id: old.user_id(), name: BillingRole::User, data: None } })
            } else {
                ApiCall::Delivery(DeliveryCall::CreateDeliveryRole { initiator: sa,
                    payload: NewRole { id: new.role_ids()[3], user_id: old.user_id(), name: DeliveryRole::User, data: None } })
            })
    } else if k == 4 {
        &&& new.stage() == 5
        &&& new.user() == old.user()
        &&& new.user_id() == old.user_id()
        &&& new.addressee() == old.addressee()
        &&& new.log() == old.log().push(account_complete_entry(4, old.saga_id(), old.user_id(), old.role_ids()))
                .push(CreateProfileOperationStage::BillingCreateMerchantStart(old.user_id()))
        &&& step == Step::<User>::Call(ApiCall::Billing(BillingCall::CreateUserMerchant { initiator: sa,
                payload: CreateUserMerchantPayload { id: old.user_id() } }))
    } else if k == 5 {
        if old.provider() == Provider::Email {
            &&& new.stage() == 6
            &&& new.user() == old.user()
            &&& new.user_id() == old.user_id()
            &&& new.addressee() == old.addressee()
            &&& step matches Step::Call(ApiCall::Users(UsersCall::CreateEmailVerifyToken { initiator, payload }))
            &&& initiator == Some(Initiator::User(old.user_id()))
            &&& payload.email@ == old.email()
            &&& payload.device == old.device()
            &&& payload.project == old.project()
        } else if project_or_marketplace(old.project()) == Project::MarketPlace {
            &&& new.stage() == 8
            &&& new.user() == old.user()
            &&& new.user_id() == old.user_id()
            &&& new.addressee() == old.addressee()
            &&& step matches Step::Call(ApiCall::Notifications(NotificationsCall::EmarsysCreateContact { payload }))
            &&& payload.user_id == old.user_id()
            &&& payload.email@ == old.email()
        } else {
            &&& new.stage() == 10
            &&& step matches Step::Done(u) && old.user() == Some(u) && u.id == old.user_id() && email_user_of(u) == old.addressee()
        }
    } else if k == 6 {
        &&& reply matches Reply::Token(t)
        &&& new.stage() == 7
        &&& new.user() == old.user()
        &&& new.user_id() == old.user_id()
        &&& new.addressee() == old.addressee()
        &&& step matches Step::Call(ApiCall::Notifications(NotificationsCall::EmailVerification { initiator, payload, project }))
        &&& initiator == Some(Initiator::Superadmin)
        &&& project == project_or_marketplace(old.project())
        &&& email_user_view(payload.user) == old.addressee()
        &&& payload.verify_email_path@ == link_path(old.verify_email_urls(), old.project(), old.device())
        &&& payload.token@ == t@
    } else if k == 8 {
        &&& reply matches Reply::EmarsysContact(c)
        &&& new.stage() == 9
        &&& new.user() == old.user()
        &&& new.user_id() == old.user_id()
        &&& new.addressee() == old.addressee()
        &&& step == Step::<User>::Call(ApiCall::Users(UsersCall::UpdateEmarsysId { initiator: sa, user_id: old.user_id(), emarsys_id: c.emarsys_id }))
    } else {
        &&& new.stage() == 10
        &&& step matches Step::Done(u) && old.user() == Some(u) && u.id == old.user_id() && email_user_of(u) == old.addressee()
    }
}

}
