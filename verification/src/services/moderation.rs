//! Moderation of stores and base products. A moderator's decision is
//! applied to an active store or base product; one that stops being
//! published leaves every cart, and the store's manager is told by e-mail.
//! A manager's request for moderation is told to every moderator.
//! E-mails that cannot be sent do not fail the request; lookups that fail do.
use vstd::prelude::*;

use crate::errors::Error;
use crate::http::Initiator;
use crate::ids::{BaseProductId, StoreId, UserId};
use crate::microservice::{it, kind_of_reply, ApiCall, NotificationsCall, Reply, ReplyKind, StoresCall, UsersCall};
use crate::models::create_profile::User;
use crate::models::create_store::Store;
use crate::models::moderate::{BaseProductModerate, StoreModerate};
use crate::models::notifications::{
    BaseProductModerationStatusForModerator, BaseProductModerationStatusForUser, StoreModerationStatusForModerator,
    StoreModerationStatusForUser,
};
use crate::models::resources::ModerationStatus;
use crate::models::visibility::Visibility;
use crate::services::carts::{
    is_status_change_requires_to_delete_product, product_ids, product_ids_of, removal_call, removal_call_ok, removes_products,
    CartRemoval,
};
use crate::services::common::{Outcome, Step};
use crate::services::notify::{copy_text, email_user, email_user_of, email_user_view};
use crate::text::i32_to_string;

verus! {

/// What a moderation e-mail is about: a store, or a base product of a store.
#[derive(Clone, Copy, Debug, PartialEq, Eq, Structural)]
pub enum Moderated {
    Store(StoreId),
    BaseProduct(StoreId, BaseProductId),
}

/// The call that looks up a user, as the superadmin.
pub open spec fn user_lookup_call(user_id: UserId) -> ApiCall {
    ApiCall::Users(UsersCall::Get { initiator: Some(Initiator::Superadmin), user_id })
}

/// Whether `call` tells the manager at address `email` the new status of
/// what was moderated.
pub open spec fn manager_email_ok(m: Moderated, status: ModerationStatus, email: Seq<char>, cluster: Seq<char>, call: ApiCall) -> bool {
    match m {
        Moderated::Store(s) => call matches ApiCall::Notifications(NotificationsCall::StoreModerationStatusForUser { initiator, payload })
            && initiator == Initiator::Superadmin && payload.store_email@ == email && payload.store_id@ == it(s)
            && payload.cluster_url@ == cluster && payload.status == status,
        Moderated::BaseProduct(s, b) =>
            call matches ApiCall::Notifications(NotificationsCall::BaseProductModerationStatusForUser { initiator, payload })
            && initiator == Initiator::Superadmin && payload.store_email@ == email && payload.store_id@ == it(s)
            && payload.base_product_id@ == it(b) && payload.cluster_url@ == cluster && payload.status == status,
    }
}

/// Whether `call` tells the moderator `to` the status of what was sent to
/// moderation.
pub open spec fn moderator_email_ok(m: Moderated, status: ModerationStatus, to: User, cluster: Seq<char>, call: ApiCall) -> bool {
    match m {
        Moderated::Store(s) =>
            call matches ApiCall::Notifications(NotificationsCall::StoreModerationStatusForModerator { initiator, payload })
            && initiator == Initiator::Superadmin && email_user_view(payload.user) == email_user_of(to)
            && payload.store_id@ == it(s) && payload.cluster_url@ == cluster && payload.status == status,
        Moderated::BaseProduct(s, b) =>
            call matches ApiCall::Notifications(NotificationsCall::BaseProductModerationStatusForModerator { initiator, payload })
            && initiator == Initiator::Superadmin && email_user_view(payload.user) == email_user_of(to)
            && payload.store_id@ == it(s) && payload.base_product_id@ == it(b) && payload.cluster_url@ == cluster
            && payload.status == status,
    }
}

fn user_lookup(user_id: UserId) -> (r: ApiCall)
    ensures
        r == user_lookup_call(user_id),
{
    ApiCall::Users(UsersCall::Get { initiator: Some(Initiator::Superadmin), user_id })
}

/// The e-mail that tells a manager the new status of what was moderated.
pub fn manager_email(m: Moderated, status: ModerationStatus, email: &String, cluster_url: &String) -> (r: ApiCall)
    ensures
        manager_email_ok(m, status, email@, cluster_url@, r),
{
    match m {
        Moderated::Store(s) => ApiCall::Notifications(NotificationsCall::StoreModerationStatusForUser {
            initiator: Initiator::Superadmin,
            payload: StoreModerationStatusForUser {
                store_email: copy_text(email),
                store_id: i32_to_string(s),
                cluster_url: copy_text(cluster_url),
                status,
            },
        }),
        Moderated::BaseProduct(s, b) => ApiCall::Notifications(NotificationsCall::BaseProductModerationStatusForUser {
            initiator: Initiator::Superadmin,
            payload: BaseProductModerationStatusForUser {
                store_email: copy_text(email),
                store_id: i32_to_string(s),
                base_product_id: i32_to_string(b),
                cluster_url: copy_text(cluster_url),
                status,
            },
        }),
    }
}

/// The e-mail that tells a moderator the status of what was sent to
/// moderation.
pub fn moderator_email(m: Moderated, status: ModerationStatus, to: &User, cluster_url: &String) -> (r: ApiCall)
    ensures
        moderator_email_ok(m, status, *to, cluster_url@, r),
{
    match m {
        Moderated::Store(s) => ApiCall::Notifications(NotificationsCall::StoreModerationStatusForModerator {
            initiator: Initiator::Superadmin,
            payload: StoreModerationStatusForModerator {
                user: email_user(to),
                store_id: i32_to_string(s),
                cluster_url: copy_text(cluster_url),
                status,
            },
        }),
        Moderated::BaseProduct(s, b) => ApiCall::Notifications(NotificationsCall::BaseProductModerationStatusForModerator {
            initiator: Initiator::Superadmin,
            payload: BaseProductModerationStatusForModerator {
                user: email_user(to),
                store_id: i32_to_string(s),
                base_product_id: i32_to_string(b),
                cluster_url: copy_text(cluster_url),
                status,
            },
        }),
    }
}

/// A moderator's decision on a store under way.
#[derive(Debug)]
pub struct StoreModerationSaga {
    payload: StoreModerate,
    initial: ModerationStatus,
    store: Option<Store>,
    stage: usize,
    cluster_url: String,
}

impl StoreModerationSaga {
    /// 0 while the store is looked up, 1 while its status is set, 2 while
    /// its products are looked up, 3 while they leave the carts, 4 while the
    /// manager is looked up, 5 while the manager is told, 6 when over.
    pub closed spec fn stage(&self) -> nat {
        self.stage as nat
    }

    pub closed spec fn payload(&self) -> StoreModerate {
        self.payload
    }

    /// The status that the store had before the decision.
    pub closed spec fn initial(&self) -> ModerationStatus {
        self.initial
    }

    /// The store as the decision left it.
    pub closed spec fn store(&self) -> Option<Store> {
        self.store
    }

    pub closed spec fn cluster_url(&self) -> Seq<char> {
        self.cluster_url@
    }

    pub closed spec fn wf(&self) -> bool {
        &&& self.stage <= 6
        &&& 2 <= self.stage <= 5 ==> self.store is Some
    }

    pub open spec fn awaited(&self) -> ReplyKind {
        if self.stage() == 0 {
            ReplyKind::MaybeStore
        } else if self.stage() == 1 {
            ReplyKind::Store
        } else if self.stage() == 2 {
            ReplyKind::Products
        } else if self.stage() == 4 {
            ReplyKind::MaybeUser
        } else {
            ReplyKind::Ignored
        }
    }

    /// Whether the step under way waits for an answer of kind `k`.
    pub fn awaits(&self, k: ReplyKind) -> (r: bool)
        ensures
            r == (k == self.awaited()),
    {
        if self.stage == 0 {
            k == ReplyKind::MaybeStore
        } else if self.stage == 1 {
            k == ReplyKind::Store
        } else if self.stage == 2 {
            k == ReplyKind::Products
        } else if self.stage == 4 {
            k == ReplyKind::MaybeUser
        } else {
            k == ReplyKind::Ignored
        }
    }

    /// Whether the saga is over.
    pub fn is_over(&self) -> (r: bool)
        ensures
            r == (self.stage() == 6),
    {
        self.stage == 6
    }

    /// Starts applying the decision `payload`: the active store is looked up
    /// first.
    pub fn start(payload: StoreModerate, cluster_url: String) -> (r: (StoreModerationSaga, ApiCall))
        ensures
            r.0.wf(),
            r.0.stage() == 0,
            r.0.payload() == payload,
            r.0.cluster_url() == cluster_url@,
            r.1 == ApiCall::Stores(StoresCall::Get { store_id: payload.store_id, visibility: Visibility::Active }),
    {
        (StoreModerationSaga { payload, initial: ModerationStatus::Draft, store: None, stage: 0, cluster_url },
            ApiCall::Stores(StoresCall::Get { store_id: payload.store_id, visibility: Visibility::Active }))
    }

    /// Takes the outcome of the call under way (see `store_moderation_step_ok`).
    pub fn on_outcome(self, outcome: Outcome) -> (r: (StoreModerationSaga, Step<Store>))
        requires
            self.wf(),
            self.stage() <= 5,
            outcome matches Ok(reply) ==> kind_of_reply(reply) == self.awaited(),
        ensures
            r.0.wf(),
            store_moderation_step_ok(self, outcome, r.0, r.1),
    {
        let StoreModerationSaga { payload, initial, store, stage, cluster_url } = self;
        let reply = match outcome {
            Err(_) => {
                if stage == 5 {
                    return match store {
                        Some(s) => (StoreModerationSaga { payload, initial, store: None, stage: 6, cluster_url }, Step::Done(s)),
                        None => (StoreModerationSaga { payload, initial, store: None, stage: 6, cluster_url }, Step::Fail(Error::Unknown)),
                    };
                }
                let e = if stage == 1 { Error::Unknown } else { Error::HttpClient };
                return (StoreModerationSaga { payload, initial, store, stage: 6, cluster_url }, Step::Fail(e));
            },
            Ok(reply) => reply,
        };
        if stage == 0 {
            match reply {
                Reply::MaybeStore(Some(s)) => {
                    let call = ApiCall::Stores(StoresCall::SetStoreModerationStatus { payload });
                    (StoreModerationSaga { payload, initial: s.status, store, stage: 1, cluster_url }, Step::Call(call))
                },
                _ => (StoreModerationSaga { payload, initial, store, stage: 6, cluster_url }, Step::Fail(Error::NotFound)),
            }
        } else if stage == 1 {
            match reply {
                Reply::Store(s) => {
                    if is_status_change_requires_to_delete_product(initial, s.status) {
                        let call = ApiCall::Stores(StoresCall::GetProductsByStore { store_id: s.id });
                        (StoreModerationSaga { payload, initial, store: Some(s), stage: 2, cluster_url }, Step::Call(call))
                    } else {
                        let call = user_lookup(s.user_id);
                        (StoreModerationSaga { payload, initial, store: Some(s), stage: 4, cluster_url }, Step::Call(call))
                    }
                },
                _ => (StoreModerationSaga { payload, initial, store, stage: 6, cluster_url }, Step::Fail(Error::Unknown)),
            }
        } else if stage == 2 {
            match reply {
                Reply::Products(ps) => {
                    let call = removal_call(CartRemoval::Products, product_ids(&ps));
                    (StoreModerationSaga { payload, initial, store, stage: 3, cluster_url }, Step::Call(call))
                },
                _ => (StoreModerationSaga { payload, initial, store, stage: 6, cluster_url }, Step::Fail(Error::Unknown)),
            }
        } else {
            let s = match store {
                Some(s) => s,
                None => {
                    return (StoreModerationSaga { payload, initial, store: None, stage: 6, cluster_url }, Step::Fail(Error::Unknown));
                },
            };
            if stage == 3 {
                let call = user_lookup(s.user_id);
                (StoreModerationSaga { payload, initial, store: Some(s), stage: 4, cluster_url }, Step::Call(call))
            } else if stage == 4 {
                match reply {
                    Reply::MaybeUser(Some(u)) => {
                        let call = manager_email(Moderated::Store(s.id), s.status, &u.email, &cluster_url);
                        (StoreModerationSaga { payload, initial, store: Some(s), stage: 5, cluster_url }, Step::Call(call))
                    },
                    _ => (StoreModerationSaga { payload, initial, store: None, stage: 6, cluster_url }, Step::Done(s)),
                }
            } else {
                (StoreModerationSaga { payload, initial, store: None, stage: 6, cluster_url }, Step::Done(s))
            }
        }
    }
}

/// What a step of a moderator's decision on a store does. A failed change
/// of status fails the decision with `Unknown`, any other failed call but
/// the e-mail with `HttpClient`; a failed e-mail is passed over. A store
/// that is not active is `NotFound`. A published store that stops being
/// published has its products taken out of every cart. The manager, where
/// found, is told the new status; the store as the decision left it comes
/// back.
pub open spec fn store_moderation_step_ok(old: StoreModerationSaga, outcome: Outcome, new: StoreModerationSaga, step: Step<Store>) -> bool {
    let st = old.stage();
    let s = old.store().unwrap();
    match outcome {
        Err(_) => new.stage() == 6 && if st == 5 {
            step == Step::Done(s)
        } else {
            step matches Step::Fail(e) && (if st == 1 { e is Unknown } else { e is HttpClient })
        },
        Ok(reply) => if st == 0 {
            match reply {
                Reply::MaybeStore(Some(found)) => new.stage() == 1 && new.initial() == found.status
                    && new.payload() == old.payload() && new.cluster_url() == old.cluster_url()
                    && step == Step::<Store>::Call(ApiCall::Stores(StoresCall::SetStoreModerationStatus { payload: old.payload() })),
                _ => new.stage() == 6 && (step matches Step::Fail(e) && e is NotFound),
            }
        } else if st == 1 {
            reply matches Reply::Store(changed) && new.store() == Some(changed) && new.initial() == old.initial()
                && new.cluster_url() == old.cluster_url()
                && if removes_products(old.initial(), changed.status) {
                    new.stage() == 2 && step == Step::<Store>::Call(ApiCall::Stores(StoresCall::GetProductsByStore { store_id: changed.id }))
                } else {
                    new.stage() == 4 && step == Step::<Store>::Call(user_lookup_call(changed.user_id))
                }
        } else if st == 2 {
            reply matches Reply::Products(ps) && new.stage() == 3 && new.store() == old.store()
                && new.cluster_url() == old.cluster_url()
                && (step matches Step::Call(c) && removal_call_ok(CartRemoval::Products, product_ids_of(ps@), c))
        } else if st == 3 {
            new.stage() == 4 && new.store() == old.store() && new.cluster_url() == old.cluster_url()
                && step == Step::<Store>::Call(user_lookup_call(s.user_id))
        } else if st == 4 {
            match reply {
                Reply::MaybeUser(Some(u)) => new.stage() == 5 && new.store() == old.store()
                    && (step matches Step::Call(c) && manager_email_ok(Moderated::Store(s.id), s.status, u.email@, old.cluster_url(), c)),
                _ => new.stage() == 6 && step == Step::Done(s),
            }
        } else {
            new.stage() == 6 && step == Step::Done(s)
        },
    }
}


/// A moderator's decision on a base product under way.
#[derive(Debug)]
pub struct BaseProductModerationSaga {
    payload: BaseProductModerate,
    initial: ModerationStatus,
    changed: Option<(StoreId, BaseProductId, ModerationStatus)>,
    stage: usize,
    cluster_url: String,
}

impl BaseProductModerationSaga {
    /// 0 while the base product is looked up, 1 while its status is set, 2
    /// while its products are looked up, 3 while they leave the carts, 4
    /// while its store is looked up, 5 while the manager is looked up, 6
    /// while the manager is told, 7 when over.
    pub closed spec fn stage(&self) -> nat {
        self.stage as nat
    }

    pub closed spec fn payload(&self) -> BaseProductModerate {
        self.payload
    }

    /// The status that the base product had before the decision.
    pub closed spec fn initial(&self) -> ModerationStatus {
        self.initial
    }

    /// The store, the id and the status of the base product as the decision
    /// left it.
    pub closed spec fn changed(&self) -> Option<(StoreId, BaseProductId, ModerationStatus)> {
        self.changed
    }

    pub closed spec fn cluster_url(&self) -> Seq<char> {
        self.cluster_url@
    }

    pub closed spec fn wf(&self) -> bool {
        &&& self.stage <= 7
        &&& 2 <= self.stage <= 6 ==> self.changed is Some
    }

    pub open spec fn awaited(&self) -> ReplyKind {
        if self.stage() == 0 {
            ReplyKind::MaybeBaseProduct
        } else if self.stage() == 1 {
            ReplyKind::BaseProduct
        } else if self.stage() == 2 {
            ReplyKind::Products
        } else if self.stage() == 4 {
            ReplyKind::MaybeStore
        } else if self.stage() == 5 {
            ReplyKind::MaybeUser
        } else {
            ReplyKind::Ignored
        }
    }

    /// Whether the step under way waits for an answer of kind `k`.
    pub fn awaits(&self, k: ReplyKind) -> (r: bool)
        ensures
            r == (k == self.awaited()),
    {
        if self.stage == 0 {
            k == ReplyKind::MaybeBaseProduct
        } else if self.stage == 1 {
            k == ReplyKind::BaseProduct
        } else if self.stage == 2 {
            k == ReplyKind::Products
        } else if self.stage == 4 {
            k == ReplyKind::MaybeStore
        } else if self.stage == 5 {
            k == ReplyKind::MaybeUser
        } else {
            k == ReplyKind::Ignored
        }
    }

    /// Whether the saga is over.
    pub fn is_over(&self) -> (r: bool)
        ensures
            r == (self.stage() == 7),
    {
        self.stage == 7
    }

    /// Starts applying the decision `payload`: the active base product is
    /// looked up first.
    pub fn start(payload: BaseProductModerate, cluster_url: String) -> (r: (BaseProductModerationSaga, ApiCall))
        ensures
            r.0.wf(),
            r.0.stage() == 0,
            r.0.payload() == payload,
            r.0.cluster_url() == cluster_url@,
            r.1 == ApiCall::Stores(StoresCall::GetBaseProduct { base_product_id: payload.base_product_id, visibility: Visibility::Active }),
    {
        (BaseProductModerationSaga { payload, initial: ModerationStatus::Draft, changed: None, stage: 0, cluster_url },
            ApiCall::Stores(StoresCall::GetBaseProduct { base_product_id: payload.base_product_id, visibility: Visibility::Active }))
    }

    /// Takes the outcome of the call under way (see
    /// `base_product_moderation_step_ok`).
    pub fn on_outcome(self, outcome: Outcome) -> (r: (BaseProductModerationSaga, Step<()>))
        requires
            self.wf(),
            self.stage() <= 6,
            outcome matches Ok(reply) ==> kind_of_reply(reply) == self.awaited(),
        ensures
            r.0.wf(),
            base_product_moderation_step_ok(self, outcome, r.0, r.1),
    {
        let BaseProductModerationSaga { payload, initial, changed, stage, cluster_url } = self;
        let reply = match outcome {
            Err(_) => {
                if stage == 6 {
                    return (BaseProductModerationSaga { payload, initial, changed, stage: 7, cluster_url }, Step::Done(()));
                }
                let e = if stage == 1 { Error::Unknown } else { Error::HttpClient };
                return (BaseProductModerationSaga { payload, initial, changed, stage: 7, cluster_url }, Step::Fail(e));
            },
            Ok(reply) => reply,
        };
        if stage == 0 {
            match reply {
                Reply::MaybeBaseProduct(Some(b)) => {
                    let call = ApiCall::Stores(StoresCall::SetModerationStatusBaseProduct { payload });
                    (BaseProductModerationSaga { payload, initial: b.status, changed, stage: 1, cluster_url }, Step::Call(call))
                },
                _ => (BaseProductModerationSaga { payload, initial, changed, stage: 7, cluster_url }, Step::Fail(Error::NotFound)),
            }
        } else if stage == 1 {
            match reply {
                Reply::BaseProduct(b) => {
                    let c = Some((b.store_id, b.id, b.status));
                    if is_status_change_requires_to_delete_product(initial, b.status) {
                        let call = ApiCall::Stores(StoresCall::GetProductsByBaseProduct { base_product_id: b.id });
                        (BaseProductModerationSaga { payload, initial, changed: c, stage: 2, cluster_url }, Step::Call(call))
                    } else {
                        let call = ApiCall::Stores(StoresCall::Get { store_id: b.store_id, visibility: Visibility::Active });
                        (BaseProductModerationSaga { payload, initial, changed: c, stage: 4, cluster_url }, Step::Call(call))
                    }
                },
                _ => (BaseProductModerationSaga { payload, initial, changed, stage: 7, cluster_url }, Step::Fail(Error::Unknown)),
            }
        } else {
            let (store_id, base_product_id, status) = match changed {
                Some(c) => c,
                None => {
                    return (BaseProductModerationSaga { payload, initial, changed, stage: 7, cluster_url }, Step::Fail(Error::Unknown));
                },
            };
            if stage == 2 {
                match reply {
                    Reply::Products(ps) => {
                        let call = removal_call(CartRemoval::Products, product_ids(&ps));
                        (BaseProductModerationSaga { payload, initial, changed, stage: 3, cluster_url }, Step::Call(call))
                    },
                    _ => (BaseProductModerationSaga { payload, initial, changed, stage: 7, cluster_url }, Step::Fail(Error::Unknown)),
                }
            } else if stage == 3 {
                let call = ApiCall::Stores(StoresCall::Get { store_id, visibility: Visibility::Active });
                (BaseProductModerationSaga { payload, initial, changed, stage: 4, cluster_url }, Step::Call(call))
            } else if stage == 4 {
                match reply {
                    Reply::MaybeStore(Some(s)) => {
                        let call = user_lookup(s.user_id);
                        (BaseProductModerationSaga { payload, initial, changed, stage: 5, cluster_url }, Step::Call(call))
                    },
                    _ => (BaseProductModerationSaga { payload, initial, changed, stage: 7, cluster_url }, Step::Fail(Error::NotFound)),
                }
            } else if stage == 5 {
                match reply {
                    Reply::MaybeUser(Some(u)) => {
                        let call = manager_email(Moderated::BaseProduct(store_id, base_product_id), status, &u.email, &cluster_url);
                        (BaseProductModerationSaga { payload, initial, changed, stage: 6, cluster_url }, Step::Call(call))
                    },
                    _ => (BaseProductModerationSaga { payload, initial, changed, stage: 7, cluster_url }, Step::Done(())),
                }
            } else {
                (BaseProductModerationSaga { payload, initial, changed, stage: 7, cluster_url }, Step::Done(()))
            }
        }
    }
}

/// What a step of a moderator's decision on a base product does. A failed
/// change of status fails the decision with `Unknown`, any other failed call
/// but the e-mail with `HttpClient`; a failed e-mail is passed over. A base
/// product that is not active, or whose store is not, is `NotFound`. A
/// published base product that stops being published has its products taken
/// out of every cart. The store's manager, where found, is told the new
/// status.
pub open spec fn base_product_moderation_step_ok(
    old: BaseProductModerationSaga,
    outcome: Outcome,
    new: BaseProductModerationSaga,
    step: Step<()>,
) -> bool {
    let st = old.stage();
    let c = old.changed().unwrap();
    let kept = new.changed() == old.changed() && new.cluster_url() == old.cluster_url();
    match outcome {
        Err(_) => new.stage() == 7 && if st == 6 {
            step == Step::Done(())
        } else {
            step matches Step::Fail(e) && (if st == 1 { e is Unknown } else { e is HttpClient })
        },
        Ok(reply) => if st == 0 {
            match reply {
                Reply::MaybeBaseProduct(Some(found)) => new.stage() == 1 && new.initial() == found.status && kept
                    && step == Step::<()>::Call(ApiCall::Stores(StoresCall::SetModerationStatusBaseProduct { payload: old.payload() })),
                _ => new.stage() == 7 && (step matches Step::Fail(e) && e is NotFound),
            }
        } else if st == 1 {
            reply matches Reply::BaseProduct(b) && new.changed() == Some((b.store_id, b.id, b.status))
                && new.cluster_url() == old.cluster_url()
                && if removes_products(old.initial(), b.status) {
                    new.stage() == 2
                        && step == Step::<()>::Call(ApiCall::Stores(StoresCall::GetProductsByBaseProduct { base_product_id: b.id }))
                } else {
                    new.stage() == 4
                        && step == Step::<()>::Call(ApiCall::Stores(StoresCall::Get { store_id: b.store_id, visibility: Visibility::Active }))
                }
        } else if st == 2 {
            reply matches Reply::Products(ps) && new.stage() == 3 && kept
                && (step matches Step::Call(call) && removal_call_ok(CartRemoval::Products, product_ids_of(ps@), call))
        } else if st == 3 {
            new.stage() == 4 && kept
                && step == Step::<()>::Call(ApiCall::Stores(StoresCall::Get { store_id: c.0, visibility: Visibility::Active }))
        } else if st == 4 {
            match reply {
                Reply::MaybeStore(Some(s)) => new.stage() == 5 && kept && step == Step::<()>::Call(user_lookup_call(s.user_id)),
                _ => new.stage() == 7 && (step matches Step::Fail(e) && e is NotFound),
            }
        } else if st == 5 {
            match reply {
                Reply::MaybeUser(Some(u)) => new.stage() == 6 && kept
                    && (step matches Step::Call(call)
                        && manager_email_ok(Moderated::BaseProduct(c.0, c.1), c.2, u.email@, old.cluster_url(), call)),
                _ => new.stage() == 7 && step == Step::Done(()),
            }
        } else {
            new.stage() == 7 && step == Step::Done(())
        },
    }
}

/// Once a moderator's decision is applied to a store, the store's products
/// are looked up (to take them out of every cart) exactly when the store was
/// published and is no longer; otherwise its manager is looked up, as the
/// superadmin.
pub proof fn lemma_store_decision_empties_carts_when_unpublished(
    old: StoreModerationSaga,
    changed: Store,
    new: StoreModerationSaga,
    step: Step<Store>,
)
    requires
        old.wf(),
        old.stage() == 1,
        store_moderation_step_ok(old, Ok(Reply::Store(changed)), new, step),
    ensures
        new.store() == Some(changed),
        if old.initial() == ModerationStatus::Published && changed.status != ModerationStatus::Published {
            step == Step::<Store>::Call(ApiCall::Stores(StoresCall::GetProductsByStore { store_id: changed.id }))
        } else {
            step == Step::<Store>::Call(
                ApiCall::Users(UsersCall::Get { initiator: Some(Initiator::Superadmin), user_id: changed.user_id }),
            )
        },
{
}

/// The manager of a moderated store, once found, is told at the manager's
/// address the store's id and the status that the decision left it in.
pub proof fn lemma_store_manager_told_new_status(old: StoreModerationSaga, manager: User, new: StoreModerationSaga, step: Step<Store>)
    requires
        old.wf(),
        old.stage() == 4,
        store_moderation_step_ok(old, Ok(Reply::MaybeUser(Some(manager))), new, step),
    ensures
        step matches Step::Call(ApiCall::Notifications(NotificationsCall::StoreModerationStatusForUser { initiator, payload }))
            && initiator == Initiator::Superadmin
            && payload.store_email@ == manager.email@
            && payload.store_id@ == it(old.store().unwrap().id)
            && payload.status == old.store().unwrap().status
            && payload.cluster_url@ == old.cluster_url(),
{
}

/// Once a moderator's decision is applied to a base product, its store, id
/// and new status are kept; its products are looked up (to take them out
/// of every cart) exactly when it was published and is no longer; otherwise
/// its active store is looked up.
pub proof fn lemma_base_product_decision_empties_carts_when_unpublished(
    old: BaseProductModerationSaga,
    changed: crate::models::moderate::BaseProduct,
    new: BaseProductModerationSaga,
    step: Step<()>,
)
    requires
        old.wf(),
        old.stage() == 1,
        base_product_moderation_step_ok(old, Ok(Reply::BaseProduct(changed)), new, step),
    ensures
        new.changed() == Some((changed.store_id, changed.id, changed.status)),
        if old.initial() == ModerationStatus::Published && changed.status != ModerationStatus::Published {
            step == Step::<()>::Call(ApiCall::Stores(StoresCall::GetProductsByBaseProduct { base_product_id: changed.id }))
        } else {
            step == Step::<()>::Call(ApiCall::Stores(StoresCall::Get { store_id: changed.store_id, visibility: Visibility::Active }))
        },
{
}

/// The manager of the store of a moderated base product, once found, is
/// told at the manager's address the store's id, the base product's id and
/// the status that the decision left it in.
pub proof fn lemma_base_product_manager_told_new_status(
    old: BaseProductModerationSaga,
    manager: User,
    new: BaseProductModerationSaga,
    step: Step<()>,
)
    requires
        old.wf(),
        old.stage() == 5,
        base_product_moderation_step_ok(old, Ok(Reply::MaybeUser(Some(manager))), new, step),
    ensures
        step matches Step::Call(ApiCall::Notifications(NotificationsCall::BaseProductModerationStatusForUser { initiator, payload }))
            && initiator == Initiator::Superadmin
            && payload.store_email@ == manager.email@
            && payload.store_id@ == it(old.changed().unwrap().0)
            && payload.base_product_id@ == it(old.changed().unwrap().1)
            && payload.status == old.changed().unwrap().2
            && payload.cluster_url@ == old.cluster_url(),
{
}

/// What was sent to moderation, and its status, from the answer to the
/// sending.
pub open spec fn moderated_of(reply: Reply) -> (Moderated, ModerationStatus) {
    match reply {
        Reply::Store(s) => (Moderated::Store(s.id), s.status),
        Reply::BaseProduct(b) => (Moderated::BaseProduct(b.store_id, b.id), b.status),
        _ => (Moderated::Store(0), ModerationStatus::Moderation),
    }
}

/// A moderator who is found while a base product is under moderation gets
/// the e-mail about base products: it names the moderator, the store of the
/// base product that the sending gave back by its id's text, the base
/// product by its own id's text, and the status that the sending gave back.
pub proof fn lemma_moderator_told_of_sent_base_product(
    old: ModerationRequestSaga,
    base: crate::models::moderate::BaseProduct,
    moderator: User,
    new: ModerationRequestSaga,
    step: Step<Reply>,
)
    requires
        old.wf(),
        old.stage() == 2,
        old.sent() == Some(Reply::BaseProduct(base)),
        moderation_request_step_ok(old, Ok(Reply::MaybeUser(Some(moderator))), new, step),
    ensures
        step matches Step::Call(ApiCall::Notifications(NotificationsCall::BaseProductModerationStatusForModerator { initiator, payload }))
            && initiator == Initiator::Superadmin
            && email_user_view(payload.user) == email_user_of(moderator)
            && payload.store_id@ == it(base.store_id)
            && payload.base_product_id@ == it(base.id)
            && payload.status == base.status
            && payload.cluster_url@ == old.cluster_url(),
{
}

/// A moderator who is found while a store is under moderation gets the
/// e-mail about stores: it names the moderator, the store that the sending
/// gave back by its id's text, and the status that the sending gave back.
pub proof fn lemma_moderator_told_of_sent_store(
    old: ModerationRequestSaga,
    store: Store,
    moderator: User,
    new: ModerationRequestSaga,
    step: Step<Reply>,
)
    requires
        old.wf(),
        old.stage() == 2,
        old.sent() == Some(Reply::Store(store)),
        moderation_request_step_ok(old, Ok(Reply::MaybeUser(Some(moderator))), new, step),
    ensures
        step matches Step::Call(ApiCall::Notifications(NotificationsCall::StoreModerationStatusForModerator { initiator, payload }))
            && initiator == Initiator::Superadmin
            && email_user_view(payload.user) == email_user_of(moderator)
            && payload.store_id@ == it(store.id)
            && payload.status == store.status
            && payload.cluster_url@ == old.cluster_url(),
{
}

/// A manager's request for moderation under way: the store or base product
/// is sent to moderation, then every moderator is told in turn.
#[derive(Debug)]
pub struct ModerationRequestSaga {
    sent_kind: ReplyKind,
    sent: Option<Reply>,
    moderated: Moderated,
    status: ModerationStatus,
    moderators: Vec<UserId>,
    next: usize,
    stage: usize,
    cluster_url: String,
}

impl ModerationRequestSaga {
    /// 0 while sent to moderation, 1 while the moderators are looked up, 2
    /// while the moderator `next` is looked up, 3 while that moderator is
    /// told, 4 when over.
    pub closed spec fn stage(&self) -> nat {
        self.stage as nat
    }

    /// The kind of answer that the sending gets.
    pub closed spec fn sent_kind(&self) -> ReplyKind {
        self.sent_kind
    }

    /// The answer to the sending, once it came.
    pub closed spec fn sent(&self) -> Option<Reply> {
        self.sent
    }

    pub closed spec fn moderators(&self) -> Seq<UserId> {
        self.moderators@
    }

    pub closed spec fn next(&self) -> nat {
        self.next as nat
    }

    pub closed spec fn cluster_url(&self) -> Seq<char> {
        self.cluster_url@
    }

    pub closed spec fn wf(&self) -> bool {
        &&& self.stage <= 4
        &&& 1 <= self.stage <= 3 ==> self.sent is Some
            && (self.moderated, self.status) == moderated_of(self.sent.unwrap())
        &&& (self.stage == 2 || self.stage == 3) ==> self.next < self.moderators@.len()
    }

    pub open spec fn awaited(&self) -> ReplyKind {
        if self.stage() == 0 {
            self.sent_kind()
        } else if self.stage() == 1 {
            ReplyKind::UserIds
        } else if self.stage() == 2 {
            ReplyKind::MaybeUser
        } else {
            ReplyKind::Ignored
        }
    }

    /// Whether the step under way waits for an answer of kind `k`.
    pub fn awaits(&self, k: ReplyKind) -> (r: bool)
        ensures
            r == (k == self.awaited()),
    {
        if self.stage == 0 {
            k == self.sent_kind
        } else if self.stage == 1 {
            k == ReplyKind::UserIds
        } else if self.stage == 2 {
            k == ReplyKind::MaybeUser
        } else {
            k == ReplyKind::Ignored
        }
    }

    /// Whether the saga is over.
    pub fn is_over(&self) -> (r: bool)
        ensures
            r == (self.stage() == 4),
    {
        self.stage == 4
    }

    /// Sends the store `store_id` to moderation.
    pub fn start_store(store_id: StoreId, cluster_url: String) -> (r: (ModerationRequestSaga, ApiCall))
        ensures
            r.0.wf(),
            r.0.stage() == 0,
            r.0.sent_kind() == ReplyKind::Store,
            r.0.cluster_url() == cluster_url@,
            r.1 == ApiCall::Stores(StoresCall::SendToModeration { store_id }),
    {
        (ModerationRequestSaga {
            sent_kind: ReplyKind::Store,
            sent: None,
            moderated: Moderated::Store(store_id),
            status: ModerationStatus::Moderation,
            moderators: Vec::new(),
            next: 0,
            stage: 0,
            cluster_url,
        }, ApiCall::Stores(StoresCall::SendToModeration { store_id }))
    }

    /// Sends the base product `base_product_id` to moderation.
    pub fn start_base_product(base_product_id: BaseProductId, cluster_url: String) -> (r: (ModerationRequestSaga, ApiCall))
        ensures
            r.0.wf(),
            r.0.stage() == 0,
            r.0.sent_kind() == ReplyKind::BaseProduct,
            r.0.cluster_url() == cluster_url@,
            r.1 == ApiCall::Stores(StoresCall::SendToModerationBaseProduct { base_product_id }),
    {
        (ModerationRequestSaga {
            sent_kind: ReplyKind::BaseProduct,
            sent: None,
            moderated: Moderated::BaseProduct(0, base_product_id),
            status: ModerationStatus::Moderation,
            moderators: Vec::new(),
            next: 0,
            stage: 0,
            cluster_url,
        }, ApiCall::Stores(StoresCall::SendToModerationBaseProduct { base_product_id }))
    }

    /// Takes the outcome of the call under way (see
    /// `moderation_request_step_ok`).
    pub fn on_outcome(self, outcome: Outcome) -> (r: (ModerationRequestSaga, Step<Reply>))
        requires
            self.wf(),
            self.stage() <= 3,
            self.stage() == 0 ==> self.sent_kind() == ReplyKind::Store || self.sent_kind() == ReplyKind::BaseProduct,
            outcome matches Ok(reply) ==> kind_of_reply(reply) == self.awaited(),
        ensures
            r.0.wf(),
            moderation_request_step_ok(self, outcome, r.0, r.1),
    {
        let ModerationRequestSaga { sent_kind, sent, moderated, status, moderators, next, stage, cluster_url } = self;
        if stage == 3 {
            let s = ModerationRequestSaga { sent_kind, sent, moderated, status, moderators, next, stage, cluster_url };
            return s.next_moderator();
        }
        let reply = match outcome {
            Err(_) => {
                let e = if stage == 0 { Error::Unknown } else { Error::HttpClient };
                return (ModerationRequestSaga { sent_kind, sent, moderated, status, moderators, next, stage: 4, cluster_url }, Step::Fail(e));
            },
            Ok(reply) => reply,
        };
        if stage == 0 {
            let (m, st) = match &reply {
                Reply::Store(s) => (Moderated::Store(s.id), s.status),
                Reply::BaseProduct(b) => (Moderated::BaseProduct(b.store_id, b.id), b.status),
                _ => (Moderated::Store(0), ModerationStatus::Moderation),
            };
            let call = ApiCall::Stores(StoresCall::GetModerators { initiator: Initiator::Superadmin });
            (ModerationRequestSaga { sent_kind, sent: Some(reply), moderated: m, status: st, moderators, next, stage: 1, cluster_url },
                Step::Call(call))
        } else if stage == 1 {
            match reply {
                Reply::UserIds(ids) => {
                    if ids.len() == 0 {
                        let s = ModerationRequestSaga { sent_kind, sent, moderated, status, moderators: ids, next: 0, stage: 4, cluster_url };
                        s.finish()
                    } else {
                        let call = user_lookup(ids[0]);
                        (ModerationRequestSaga { sent_kind, sent, moderated, status, moderators: ids, next: 0, stage: 2, cluster_url },
                            Step::Call(call))
                    }
                },
                _ => (ModerationRequestSaga { sent_kind, sent, moderated, status, moderators, next, stage: 4, cluster_url },
                    Step::Fail(Error::Unknown)),
            }
        } else {
            match reply {
                Reply::MaybeUser(Some(u)) => {
                    let call = moderator_email(moderated, status, &u, &cluster_url);
                    (ModerationRequestSaga { sent_kind, sent, moderated, status, moderators, next, stage: 3, cluster_url }, Step::Call(call))
                },
                _ => {
                    let s = ModerationRequestSaga { sent_kind, sent, moderated, status, moderators, next, stage, cluster_url };
                    s.next_moderator()
                },
            }
        }
    }

    /// The next moderator is looked up; after the last, the answer to the
    /// sending comes back.
    fn next_moderator(self) -> (r: (ModerationRequestSaga, Step<Reply>))
        requires
            self.wf(),
            self.stage() == 2 || self.stage() == 3,
        ensures
            r.0.wf(),
            next_moderator_ok(self, r.0, r.1),
    {
        let ModerationRequestSaga { sent_kind, sent, moderated, status, moderators, next, stage: _, cluster_url } = self;
        let count = moderators.len();
        assert(next < count);
        let n = next + 1;
        if n < count {
            let call = user_lookup(moderators[n]);
            (ModerationRequestSaga { sent_kind, sent, moderated, status, moderators, next: n, stage: 2, cluster_url }, Step::Call(call))
        } else {
            let s = ModerationRequestSaga { sent_kind, sent, moderated, status, moderators, next, stage: 4, cluster_url };
            s.finish()
        }
    }

    fn finish(self) -> (r: (ModerationRequestSaga, Step<Reply>))
        requires
            self.sent() is Some,
        ensures
            r.0.wf(),
            r.0.stage() == 4,
            r.0.moderators() == self.moderators(),
            r.1 == Step::Done(self.sent().unwrap()),
    {
        let ModerationRequestSaga { sent_kind, sent, moderated, status, moderators, next, stage: _, cluster_url } = self;
        match sent {
            Some(reply) => (ModerationRequestSaga { sent_kind, sent: None, moderated, status, moderators, next, stage: 4, cluster_url },
                Step::Done(reply)),
            None => (ModerationRequestSaga { sent_kind, sent: None, moderated, status, moderators, next, stage: 4, cluster_url },
                Step::Fail(Error::Unknown)),
        }
    }
}

/// After a moderator: the next one is looked up; after the last, the answer
/// to the sending comes back.
pub open spec fn next_moderator_ok(old: ModerationRequestSaga, new: ModerationRequestSaga, step: Step<Reply>) -> bool {
    let n = old.next() + 1;
    if n < old.moderators().len() {
        &&& new.stage() == 2
        &&& new.next() == n
        &&& new.moderators() == old.moderators()
        &&& new.sent() == old.sent()
        &&& new.cluster_url() == old.cluster_url()
        &&& step == Step::<Reply>::Call(user_lookup_call(old.moderators()[n as int]))
    } else {
        new.stage() == 4 && step == Step::Done(old.sent().unwrap())
    }
}

/// What a step of a request for moderation does. A failed sending fails the
/// request with `Unknown`, a failed lookup with `HttpClient`; a failed e-mail
/// is passed over. Every moderator that is found is told the status of what
/// was sent, in the order in which the stores microservice listed them; the
/// answer to the sending comes back.
pub open spec fn moderation_request_step_ok(
    old: ModerationRequestSaga,
    outcome: Outcome,
    new: ModerationRequestSaga,
    step: Step<Reply>,
) -> bool {
    let st = old.stage();
    if st == 3 {
        next_moderator_ok(old, new, step)
    } else {
        match outcome {
            Err(_) => new.stage() == 4 && (step matches Step::Fail(e) && (if st == 0 { e is Unknown } else { e is HttpClient })),
            Ok(reply) => if st == 0 {
                &&& new.stage() == 1
                &&& new.sent() == Some(reply)
                &&& new.cluster_url() == old.cluster_url()
                &&& step == Step::<Reply>::Call(ApiCall::Stores(StoresCall::GetModerators { initiator: Initiator::Superadmin }))
            } else if st == 1 {
                reply matches Reply::UserIds(ids) && new.moderators() == ids@ && if ids@.len() == 0 {
                    new.stage() == 4 && step == Step::Done(old.sent().unwrap())
                } else {
                    new.stage() == 2 && new.next() == 0 && new.sent() == old.sent() && new.cluster_url() == old.cluster_url()
                        && step == Step::<Reply>::Call(user_lookup_call(ids@[0]))
                }
            } else {
                match reply {
                    Reply::MaybeUser(Some(u)) => {
                        let (m, status) = moderated_of(old.sent().unwrap());
                        &&& new.stage() == 3
                        &&& new.next() == old.next()
                        &&& new.moderators() == old.moderators()
                        &&& new.sent() == old.sent()
                        &&& new.cluster_url() == old.cluster_url()
                        &&& step matches Step::Call(call) && moderator_email_ok(m, status, u, old.cluster_url(), call)
                    },
                    _ => next_moderator_ok(old, new, step),
                }
            },
        }
    }
}

}
