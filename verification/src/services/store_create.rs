//! The creation of a store: the store itself, then the roles of its manager
//! in the warehouses, orders, billing and delivery microservices, then its
//! merchant in billing. Each step is logged when it starts and when it has
//! succeeded; when a step fails, every step that succeeded is undone.
use vstd::prelude::*;

use crate::errors::Error;
use crate::http::Initiator;
use crate::ids::{fresh_uuid, RoleEntryId, StoreId, UserId};
use crate::microservice::{
    kind_of_reply, ApiCall, BillingCall, DeliveryCall, OrdersCall, Reply, ReplyKind, StoresCall, WarehousesCall,
};
use crate::models::create_store::{CreateStoreMerchantPayload, CreateStoreOperationStage, NewStore, Store};
use crate::models::roles::{BillingRole, DeliveryRole, NewOrdersRole, NewRole, NewWarehouseRole, OrderRole, RoleEntry, WarehouseRole};
use crate::services::common::{service_error, service_error_ok, Outcome, Step};
use crate::validation::texts_of;
use crate::http::opt_text;

verus! {

/// The fields whose validation errors a store's creation reports.
pub open spec fn store_fields() -> Seq<&'static str> {
    seq!["name", "short_description", "long_description", "slug", "phone", "email", "default_language", "store"]
}

fn store_field_names() -> (r: &'static [&'static str])
    ensures
        r@ == store_fields(),
{
    let v: &'static [&'static str] = &["name", "short_description", "long_description", "slug", "phone", "email", "default_language", "store"];
    assert(v@ =~= store_fields());
    v
}

/// What undoes a completed step of the log; nothing undoes a start.
pub open spec fn store_stage_revert(e: CreateStoreOperationStage) -> Option<ApiCall> {
    let sa = Some(Initiator::Superadmin);
    match e {
        CreateStoreOperationStage::StoreCreationComplete(id) =>
            Some(ApiCall::Stores(StoresCall::DeleteStore { initiator: sa, store_id: id })),
        CreateStoreOperationStage::WarehousesRoleSetComplete(id) =>
            Some(ApiCall::Warehouses(WarehousesCall::DeleteWarehouseRole { initiator: sa, role_id: id })),
        CreateStoreOperationStage::OrdersRoleSetComplete(id) =>
            Some(ApiCall::Orders(OrdersCall::DeleteRole { initiator: sa, role_id: id })),
        CreateStoreOperationStage::BillingRoleSetComplete(id) =>
            Some(ApiCall::Billing(BillingCall::DeleteRole { initiator: sa, role_id: id })),
        CreateStoreOperationStage::DeliveryRoleSetComplete(id) =>
            Some(ApiCall::Delivery(DeliveryCall::DeleteDeliveryRole { initiator: sa, role_id: id })),
        CreateStoreOperationStage::BillingCreateMerchantComplete(id) =>
            Some(ApiCall::Billing(BillingCall::DeleteStoreMerchant { initiator: sa, store_id: id })),
        _ => None,
    }
}

/// The calls that undo a log: one for each completed step, in the order of
/// the log.
pub open spec fn store_reverts_of_log(log: Seq<CreateStoreOperationStage>) -> Seq<ApiCall>
    decreases log.len(),
{
    if log.len() == 0 {
        seq![]
    } else {
        let rest = store_reverts_of_log(log.drop_last());
        match store_stage_revert(log.last()) {
            Some(c) => rest.push(c),
            None => rest,
        }
    }
}

fn stage_revert(e: CreateStoreOperationStage) -> (r: Option<ApiCall>)
    ensures
        r == store_stage_revert(e),
{
    let sa = Some(Initiator::Superadmin);
    match e {
        CreateStoreOperationStage::StoreCreationComplete(id) =>
            Some(ApiCall::Stores(StoresCall::DeleteStore { initiator: sa, store_id: id })),
        CreateStoreOperationStage::WarehousesRoleSetComplete(id) =>
            Some(ApiCall::Warehouses(WarehousesCall::DeleteWarehouseRole { initiator: sa, role_id: id })),
        CreateStoreOperationStage::OrdersRoleSetComplete(id) =>
            Some(ApiCall::Orders(OrdersCall::DeleteRole { initiator: sa, role_id: id })),
        CreateStoreOperationStage::BillingRoleSetComplete(id) =>
            Some(ApiCall::Billing(BillingCall::DeleteRole { initiator: sa, role_id: id })),
        CreateStoreOperationStage::DeliveryRoleSetComplete(id) =>
            Some(ApiCall::Delivery(DeliveryCall::DeleteDeliveryRole { initiator: sa, role_id: id })),
        CreateStoreOperationStage::BillingCreateMerchantComplete(id) =>
            Some(ApiCall::Billing(BillingCall::DeleteStoreMerchant { initiator: sa, store_id: id })),
        _ => None,
    }
}

/// The calls that undo what a store-creation log records as done.
pub fn create_store_revert(log: &Vec<CreateStoreOperationStage>) -> (r: Vec<ApiCall>)
    ensures
        r@ == store_reverts_of_log(log@),
{
    let mut r: Vec<ApiCall> = Vec::new();
    let mut i: usize = 0;
    while i < log.len()
        invariant
            i <= log.len(),
            r@ == store_reverts_of_log(log@.take(i as int)),
        decreases log.len() - i,
    {
        assert(log@.take(i as int + 1).drop_last() =~= log@.take(i as int));
        match stage_revert(log[i]) {
            Some(c) => r.push(c),
            None => {},
        }
        i = i + 1;
    }
    assert(log@.take(log.len() as int) =~= log@);
    r
}

/// The log entry with which step `k` starts.
pub open spec fn store_start_entry(k: int, owner: UserId, store_id: StoreId, ids: Seq<RoleEntryId>) -> CreateStoreOperationStage {
    if k == 0 {
        CreateStoreOperationStage::StoreCreationStart(owner)
    } else if k == 1 {
        CreateStoreOperationStage::WarehousesRoleSetStart(ids[0])
    } else if k == 2 {
        CreateStoreOperationStage::OrdersRoleSetStart(ids[1])
    } else if k == 3 {
        CreateStoreOperationStage::BillingRoleSetStart(ids[2])
    } else if k == 4 {
        CreateStoreOperationStage::DeliveryRoleSetStart(ids[3])
    } else {
        CreateStoreOperationStage::BillingCreateMerchantStart(store_id)
    }
}

/// The log entry with which step `k` is recorded as done.
pub open spec fn store_complete_entry(k: int, store_id: StoreId, ids: Seq<RoleEntryId>) -> CreateStoreOperationStage {
    if k == 0 {
        CreateStoreOperationStage::StoreCreationComplete(store_id)
    } else if k == 1 {
        CreateStoreOperationStage::WarehousesRoleSetComplete(ids[0])
    } else if k == 2 {
        CreateStoreOperationStage::OrdersRoleSetComplete(ids[1])
    } else if k == 3 {
        CreateStoreOperationStage::BillingRoleSetComplete(ids[2])
    } else if k == 4 {
        CreateStoreOperationStage::DeliveryRoleSetComplete(ids[3])
    } else {
        CreateStoreOperationStage::BillingCreateMerchantComplete(store_id)
    }
}

/// The log of the first `k` steps, all done.
pub open spec fn store_done_log(k: nat, owner: UserId, store_id: StoreId, ids: Seq<RoleEntryId>) -> Seq<CreateStoreOperationStage>
    decreases k,
{
    if k == 0 {
        seq![]
    } else {
        store_done_log((k - 1) as nat, owner, store_id, ids)
            .push(store_start_entry(k - 1, owner, store_id, ids))
            .push(store_complete_entry(k - 1, store_id, ids))
    }
}

/// The log while step `k` is under way: the first `k` steps done, and step
/// `k` started.
pub open spec fn store_log_at(k: nat, owner: UserId, store_id: StoreId, ids: Seq<RoleEntryId>) -> Seq<CreateStoreOperationStage> {
    store_done_log(k, owner, store_id, ids).push(store_start_entry(k as int, owner, store_id, ids))
}

/// What undoes step `k` once it is done.
pub open spec fn store_step_revert(k: int, store_id: StoreId, ids: Seq<RoleEntryId>) -> ApiCall {
    store_stage_revert(store_complete_entry(k, store_id, ids))->Some_0
}

/// The calls that undo the first `k` steps, in the order in which they were
/// done.
pub open spec fn store_undo_first(k: nat, store_id: StoreId, ids: Seq<RoleEntryId>) -> Seq<ApiCall> {
    Seq::new(k, |i: int| store_step_revert(i, store_id, ids))
}

/// Undoing the log of a creation whose step `k` is under way undoes exactly
/// the first `k` steps, one call each, in the order in which they were done.
pub proof fn lemma_store_revert_undoes_done_steps(k: nat, owner: UserId, store_id: StoreId, ids: Seq<RoleEntryId>)
    requires
        k <= 5,
    ensures
        store_reverts_of_log(store_log_at(k, owner, store_id, ids)) == store_undo_first(k, store_id, ids),
    decreases k,
{
    let log = store_log_at(k, owner, store_id, ids);
    assert(log.drop_last() =~= store_done_log(k, owner, store_id, ids));
    assert(store_stage_revert(store_start_entry(k as int, owner, store_id, ids)) is None);
    lemma_store_done_log_reverts(k, owner, store_id, ids);
}

proof fn lemma_store_done_log_reverts(k: nat, owner: UserId, store_id: StoreId, ids: Seq<RoleEntryId>)
    requires
        k <= 6,
    ensures
        store_reverts_of_log(store_done_log(k, owner, store_id, ids)) == store_undo_first(k, store_id, ids),
    decreases k,
{
    if k == 0 {
        assert(store_undo_first(0, store_id, ids) =~= Seq::<ApiCall>::empty());
    } else {
        let prev = store_done_log((k - 1) as nat, owner, store_id, ids);
        let with_start = prev.push(store_start_entry(k - 1, owner, store_id, ids));
        let full = with_start.push(store_complete_entry(k - 1, store_id, ids));
        lemma_store_done_log_reverts((k - 1) as nat, owner, store_id, ids);
        assert(full.drop_last() =~= with_start);
        assert(with_start.drop_last() =~= prev);
        assert(store_stage_revert(store_start_entry(k - 1, owner, store_id, ids)) is None);
        assert(store_stage_revert(store_complete_entry(k - 1, store_id, ids)) is Some);
        assert(store_reverts_of_log(with_start) == store_reverts_of_log(prev));
        assert(store_reverts_of_log(full) == store_reverts_of_log(with_start).push(store_step_revert(k - 1, store_id, ids)));
        assert(store_undo_first(k, store_id, ids) =~= store_undo_first((k - 1) as nat, store_id, ids).push(
            store_step_revert(k - 1, store_id, ids)));
    }
}

/// Each completed step is undone on the microservice that did it, on the
/// superadmin's behalf: the store is deleted in stores, the warehouses role
/// in warehouses, the orders role in orders, the billing role and then the
/// merchant in billing, the delivery role in delivery. A start undoes
/// nothing.
pub proof fn lemma_store_step_undone_where_done(e: CreateStoreOperationStage)
    ensures
        store_reverts_of_log(seq![e]) == match e {
            CreateStoreOperationStage::StoreCreationComplete(id) =>
                seq![ApiCall::Stores(StoresCall::DeleteStore { initiator: Some(Initiator::Superadmin), store_id: id })],
            CreateStoreOperationStage::WarehousesRoleSetComplete(id) =>
                seq![ApiCall::Warehouses(WarehousesCall::DeleteWarehouseRole { initiator: Some(Initiator::Superadmin), role_id: id })],
            CreateStoreOperationStage::OrdersRoleSetComplete(id) =>
                seq![ApiCall::Orders(OrdersCall::DeleteRole { initiator: Some(Initiator::Superadmin), role_id: id })],
            CreateStoreOperationStage::BillingRoleSetComplete(id) =>
                seq![ApiCall::Billing(BillingCall::DeleteRole { initiator: Some(Initiator::Superadmin), role_id: id })],
            CreateStoreOperationStage::DeliveryRoleSetComplete(id) =>
                seq![ApiCall::Delivery(DeliveryCall::DeleteDeliveryRole { initiator: Some(Initiator::Superadmin), role_id: id })],
            CreateStoreOperationStage::BillingCreateMerchantComplete(id) =>
                seq![ApiCall::Billing(BillingCall::DeleteStoreMerchant { initiator: Some(Initiator::Superadmin), store_id: id })],
            _ => Seq::<ApiCall>::empty(),
        },
{
    let log = seq![e];
    assert(log.len() == 1 && log.last() == e);
    assert(log.drop_last() =~= Seq::<CreateStoreOperationStage>::empty());
    assert(store_reverts_of_log(Seq::<CreateStoreOperationStage>::empty()) =~= Seq::<ApiCall>::empty());
    assert(store_reverts_of_log(log) == match store_stage_revert(e) {
        Some(c) => Seq::<ApiCall>::empty().push(c),
        None => Seq::<ApiCall>::empty(),
    });
    match store_stage_revert(e) {
        Some(c) => assert(Seq::<ApiCall>::empty().push(c) =~= seq![c]),
        None => {},
    }
}

/// When the step that creates the merchant fails, the store and the four
/// roles of its manager are undone, in the order in which they were made,
/// each on its own microservice; when an earlier step fails, the steps
/// before it are undone in the same way and nothing else.
pub proof fn lemma_store_failure_undoes_store_and_roles(
    k: nat,
    owner: UserId,
    store_id: StoreId,
    warehouses_role: RoleEntryId,
    orders_role: RoleEntryId,
    billing_role: RoleEntryId,
    delivery_role: RoleEntryId,
)
    requires
        k <= 5,
    ensures
        store_reverts_of_log(store_log_at(k, owner, store_id, seq![warehouses_role, orders_role, billing_role, delivery_role]))
            == seq![
            ApiCall::Stores(StoresCall::DeleteStore { initiator: Some(Initiator::Superadmin), store_id: store_id }),
            ApiCall::Warehouses(WarehousesCall::DeleteWarehouseRole { initiator: Some(Initiator::Superadmin), role_id: warehouses_role }),
            ApiCall::Orders(OrdersCall::DeleteRole { initiator: Some(Initiator::Superadmin), role_id: orders_role }),
            ApiCall::Billing(BillingCall::DeleteRole { initiator: Some(Initiator::Superadmin), role_id: billing_role }),
            ApiCall::Delivery(DeliveryCall::DeleteDeliveryRole { initiator: Some(Initiator::Superadmin), role_id: delivery_role }),
        ].take(k as int),
{
    let ids = seq![warehouses_role, orders_role, billing_role, delivery_role];
    lemma_store_revert_undoes_done_steps(k, owner, store_id, ids);
    let all = seq![
        ApiCall::Stores(StoresCall::DeleteStore { initiator: Some(Initiator::Superadmin), store_id: store_id }),
        ApiCall::Warehouses(WarehousesCall::DeleteWarehouseRole { initiator: Some(Initiator::Superadmin), role_id: warehouses_role }),
        ApiCall::Orders(OrdersCall::DeleteRole { initiator: Some(Initiator::Superadmin), role_id: orders_role }),
        ApiCall::Billing(BillingCall::DeleteRole { initiator: Some(Initiator::Superadmin), role_id: billing_role }),
        ApiCall::Delivery(DeliveryCall::DeleteDeliveryRole { initiator: Some(Initiator::Superadmin), role_id: delivery_role }),
    ];
    assert(store_undo_first(k, store_id, ids) =~= all.take(k as int));
}

/// A store's creation under way.
pub struct CreateStoreSaga {
    log: Vec<CreateStoreOperationStage>,
    stage: usize,
    owner: UserId,
    store: Option<Store>,
    role_ids: Vec<RoleEntryId>,
}

impl CreateStoreSaga {
    /// The log so far.
    pub closed spec fn log(&self) -> Seq<CreateStoreOperationStage> {
        self.log@
    }

    /// The step under way: 0 creates the store, 1 to 4 give the manager's
    /// roles (warehouses, orders, billing, delivery), 5 creates the merchant;
    /// 6 means the saga is over.
    pub closed spec fn stage(&self) -> nat {
        self.stage as nat
    }

    /// The owner named in the request.
    pub closed spec fn owner(&self) -> UserId {
        self.owner
    }

    /// The id of the created store, once it exists.
    pub closed spec fn store_id(&self) -> StoreId {
        match self.store {
            Some(s) => s.id,
            None => 0,
        }
    }

    /// The manager of the created store, once it exists.
    pub closed spec fn manager(&self) -> UserId {
        match self.store {
            Some(s) => s.user_id,
            None => 0,
        }
    }

    /// The country code of the created store, once it exists.
    pub closed spec fn country_code(&self) -> Option<Seq<char>> {
        match self.store {
            Some(s) => opt_text(s.country_code),
            None => None,
        }
    }

    /// The created store as the stores microservice returned it, while the
    /// saga holds it.
    pub closed spec fn store(&self) -> Option<Store> {
        self.store
    }

    /// The ids drawn for the manager's roles so far.
    pub closed spec fn role_ids(&self) -> Seq<RoleEntryId> {
        self.role_ids@
    }

    /// Whether the saga is consistent: under way, its log is that of
    /// `store_log_at` for the step under way.
    pub closed spec fn wf(&self) -> bool {
        &&& self.stage <= 6
        &&& self.stage <= 5 ==> self.log@ == store_log_at(self.stage as nat, self.owner, self.store_id(), self.role_ids@)
        &&& (self.stage >= 1 && self.stage <= 5) <==> self.store is Some
        &&& self.stage <= 5 ==> self.role_ids@.len() == if self.stage <= 4 { self.stage as int } else { 4 }
    }

    /// The kind of answer that the step under way waits for.
    pub open spec fn awaited(&self) -> ReplyKind {
        if self.stage() == 0 {
            ReplyKind::Store
        } else {
            ReplyKind::Ignored
        }
    }

    /// Whether the step under way waits for an answer of kind `k`.
    pub fn awaits(&self, k: ReplyKind) -> (r: bool)
        ensures
            r == (k == self.awaited()),
    {
        if self.stage == 0 {
            k == ReplyKind::Store
        } else {
            k == ReplyKind::Ignored
        }
    }

    /// Whether the saga is over.
    pub fn is_over(&self) -> (r: bool)
        ensures
            r == (self.stage() == 6),
    {
        self.stage == 6
    }

    /// Starts the creation of a store: logs its start and asks the stores
    /// microservice to create it.
    pub fn start(input: NewStore) -> (r: (CreateStoreSaga, ApiCall))
        ensures
            r.0.wf(),
            r.0.stage() == 0,
            r.0.owner() == input.user_id,
            r.0.log() == seq![CreateStoreOperationStage::StoreCreationStart(input.user_id)],
            r.1 == ApiCall::Stores(StoresCall::CreateStore { initiator: None, payload: input }),
    {
        let owner = input.user_id;
        let mut log: Vec<CreateStoreOperationStage> = Vec::new();
        log.push(CreateStoreOperationStage::StoreCreationStart(owner));
        let saga = CreateStoreSaga { log, stage: 0, owner, store: None, role_ids: Vec::new() };
        assert(saga.log@ =~= store_log_at(0, owner, 0, saga.role_ids@));
        (saga, ApiCall::Stores(StoresCall::CreateStore { initiator: None, payload: input }))
    }

    /// Takes the outcome of the step under way. On success the step is
    /// logged as done and the next one is started (or the store is handed
    /// back after the last one); on failure the saga ends by undoing, in
    /// order, every step that was done, and reports the failure.
    pub fn on_outcome(self, outcome: Outcome) -> (r: (CreateStoreSaga, Step<Store>))
        requires
            self.wf(),
            self.stage() <= 5,
            outcome matches Ok(reply) ==> kind_of_reply(reply) == self.awaited(),
        ensures
            r.0.wf(),
            match outcome {
                Err(f) => {
                    &&& r.0.stage() == 6
                    &&& r.1 matches Step::Revert { calls, error } && calls@ == store_undo_first(self.stage(), self.store_id(), self.role_ids())
                        && service_error_ok(error, f, texts_of(store_fields()))
                },
                Ok(reply) => create_store_advance(self, reply, r.0, r.1),
            },
    {
        let ghost old_self = self;
        match outcome {
            Err(f) => {
                proof {
                    lemma_store_revert_undoes_done_steps(self.stage as nat, self.owner, self.store_id(), self.role_ids@);
                }
                let calls = create_store_revert(&self.log);
                let error = service_error(f, store_field_names());
                let CreateStoreSaga { log, stage: _, owner, store: _, role_ids } = self;
                (CreateStoreSaga { log, stage: 6, owner, store: None, role_ids }, Step::Revert { calls, error })
            },
            Ok(reply) => self.advance(reply),
        }
    }

    fn advance(self, reply: Reply) -> (r: (CreateStoreSaga, Step<Store>))
        requires
            self.wf(),
            self.stage() <= 5,
            kind_of_reply(reply) == self.awaited(),
        ensures
            r.0.wf(),
            create_store_advance(self, reply, r.0, r.1),
    {
        let CreateStoreSaga { mut log, stage, owner, store, mut role_ids } = self;
        let ghost old_log = log@;
        let ghost old_ids = role_ids@;
        let sa = Some(Initiator::Superadmin);
        if stage == 0 {
            let created = match reply {
                Reply::Store(s) => s,
                _ => { assert(false); return (CreateStoreSaga { log, stage: 6, owner, store: None, role_ids }, Step::Fail(Error::Unknown)); },
            };
            let id = fresh_uuid();
            log.push(CreateStoreOperationStage::StoreCreationComplete(created.id));
            log.push(CreateStoreOperationStage::WarehousesRoleSetStart(id));
            role_ids.push(id);
            let role = RoleEntry::new(id, created.user_id, NewWarehouseRole { name: WarehouseRole::StoreManager, data: created.id });
            let call = ApiCall::Warehouses(WarehousesCall::CreateWarehouseRole { initiator: sa, payload: role });
            let next = CreateStoreSaga { log, stage: 1, owner, store: Some(created), role_ids };
            proof {
                assert(old_ids.len() == 0);
                assert(store_done_log(0, owner, 0, old_ids) == Seq::<CreateStoreOperationStage>::empty());
                assert(old_log =~= seq![CreateStoreOperationStage::StoreCreationStart(owner)]);
                assert(store_done_log(0, owner, created.id, role_ids@) == Seq::<CreateStoreOperationStage>::empty());
                assert(store_done_log(1, owner, created.id, role_ids@) =~= seq![CreateStoreOperationStage::StoreCreationStart(owner), CreateStoreOperationStage::StoreCreationComplete(created.id)]);
                assert(next.log@ =~= store_log_at(1, owner, next.store_id(), next.role_ids@));
            }
            (next, Step::Call(call))
        } else {
            let s = match store {
                Some(s) => s,
                None => { assert(false); return (CreateStoreSaga { log, stage: 6, owner, store: None, role_ids }, Step::Fail(Error::Unknown)); },
            };
            let store_id = s.id;
            let manager = s.user_id;
            if stage == 1 {
                let done_id = role_ids[0];
                let id = fresh_uuid();
                log.push(CreateStoreOperationStage::WarehousesRoleSetComplete(done_id));
                log.push(CreateStoreOperationStage::OrdersRoleSetStart(id));
                role_ids.push(id);
                let role = RoleEntry::new(id, manager, NewOrdersRole { name: OrderRole::StoreManager, data: store_id });
                let call = ApiCall::Orders(OrdersCall::CreateRole { initiator: sa, payload: role });
                let next = CreateStoreSaga { log, stage: 2, owner, store: Some(s), role_ids };
                proof {
                    assert(next.role_ids@.take(1) =~= old_ids);
                    lemma_store_done_log_agree(1, owner, store_id, old_ids, next.role_ids@);
                    assert(next.role_ids@.take(1) =~= old_ids);
                    assert(next.log@ =~= store_log_at(2, owner, next.store_id(), next.role_ids@));
                }
                (next, Step::Call(call))
            } else if stage == 2 {
                let done_id = role_ids[1];
                let id = fresh_uuid();
                log.push(CreateStoreOperationStage::OrdersRoleSetComplete(done_id));
                log.push(CreateStoreOperationStage::BillingRoleSetStart(id));
                role_ids.push(id);
                let role = NewRole::new(id, manager, BillingRole::StoreManager, Some(store_id));
                let call = ApiCall::Billing(BillingCall::CreateRole { initiator: sa, payload: role });
                let next = CreateStoreSaga { log, stage: 3, owner, store: Some(s), role_ids };
                proof {
                    lemma_store_done_log_agree(2, owner, store_id, old_ids, next.role_ids@);
                    assert(next.role_ids@.take(2) =~= old_ids);
                    assert(next.log@ =~= store_log_at(3, owner, next.store_id(), next.role_ids@));
                }
                (next, Step::Call(call))
            } else if stage == 3 {
                let done_id = role_ids[2];
                let id = fresh_uuid();
                log.push(CreateStoreOperationStage::BillingRoleSetComplete(done_id));
                log.push(CreateStoreOperationStage::DeliveryRoleSetStart(id));
                role_ids.push(id);
                let role = NewRole::new(id, manager, DeliveryRole::StoreManager, Some(store_id));
                let call = ApiCall::Delivery(DeliveryCall::CreateDeliveryRole { initiator: sa, payload: role });
                let next = CreateStoreSaga { log, stage: 4, owner, store: Some(s), role_ids };
                proof {
                    lemma_store_done_log_agree(3, owner, store_id, old_ids, next.role_ids@);
                    assert(next.role_ids@.take(3) =~= old_ids);
                    assert(next.log@ =~= store_log_at(4, owner, next.store_id(), next.role_ids@));
                }
                (next, Step::Call(call))
            } else if stage == 4 {
                let done_id = role_ids[3];
                log.push(CreateStoreOperationStage::DeliveryRoleSetComplete(done_id));
                log.push(CreateStoreOperationStage::BillingCreateMerchantStart(store_id));
                let country_code = match &s.country_code {
                    Some(c) => Some(c.clone()),
                    None => None,
                };
                let payload = CreateStoreMerchantPayload { id: store_id, country_code };
                let call = ApiCall::Billing(BillingCall::CreateStoreMerchant { initiator: sa, payload });
                let next = CreateStoreSaga { log, stage: 5, owner, store: Some(s), role_ids };
                proof {
                    assert(next.log@ =~= store_log_at(5, owner, next.store_id(), next.role_ids@));
                }
                (next, Step::Call(call))
            } else {
                log.push(CreateStoreOperationStage::BillingCreateMerchantComplete(store_id));
                let next = CreateStoreSaga { log, stage: 6, owner, store: None, role_ids };
                (next, Step::Done(s))
            }
        }
    }
}

proof fn lemma_store_done_log_agree(k: nat, owner: UserId, store_id: StoreId, a: Seq<RoleEntryId>, b: Seq<RoleEntryId>)
    requires
        k <= 5,
        forall|i: int| 0 <= i < k && i < 4 ==> a[i] == b[i],
    ensures
        store_done_log(k, owner, store_id, a) == store_done_log(k, owner, store_id, b),
    decreases k,
{
    if k > 0 {
        lemma_store_done_log_agree((k - 1) as nat, owner, store_id, a, b);
    }
}

/// What a step that succeeded does: the log entries and the call of the next
/// step, or the store when the last step is done.
pub open spec fn create_store_advance(old: CreateStoreSaga, reply: Reply, new: CreateStoreSaga, step: Step<Store>) -> bool {
    let sa = Some(Initiator::Superadmin);
    let k = old.stage();
    if k == 0 {
        &&& reply matches Reply::Store(s)
        &&& new.stage() == 1
        &&& new.store() == Some(s)
        &&& new.store_id() == s.id
        &&& new.manager() == s.user_id
        &&& new.country_code() == opt_text(s.country_code)
        &&& new.role_ids().len() == 1
        &&& new.log() == old.log().push(CreateStoreOperationStage::StoreCreationComplete(s.id))
                .push(CreateStoreOperationStage::WarehousesRoleSetStart(new.role_ids()[0]))
        &&& step == Step::<Store>::Call(ApiCall::Warehouses(WarehousesCall::CreateWarehouseRole {
                initiator: sa,
                payload: RoleEntry { id: new.role_ids()[0], user_id: s.user_id,
                    role: NewWarehouseRole { name: WarehouseRole::StoreManager, data: s.id } },
            }))
    } else if k <= 3 {
        &&& new.stage() == k + 1
        &&& new.store() == old.store()
        &&& new.store_id() == old.store_id()
        &&& new.manager() == old.manager()
        &&& new.country_code() == old.country_code()
        &&& new.role_ids().len() == k + 1
        &&& new.role_ids().take(k as int) == old.role_ids()
        &&& new.log() == old.log().push(store_complete_entry(k as int, old.store_id(), old.role_ids()))
                .push(store_start_entry(k + 1 as int, old.owner(), old.store_id(), new.role_ids()))
        &&& step == Step::<Store>::Call(if k == 1 {
                ApiCall::Orders(OrdersCall::CreateRole { initiator: sa, payload: RoleEntry { id: new.role_ids()[1],
                    user_id: old.manager(), role: NewOrdersRole { name: OrderRole::StoreManager, data: old.store_id() } } })
            } else if k == 2 {
                ApiCall::Billing(BillingCall::CreateRole { initiator: sa, payload: NewRole { id: new.role_ids()[2],
                    user_id: old.manager(), name: BillingRole::StoreManager, data: Some(old.store_id()) } })
            } else {
                ApiCall::Delivery(DeliveryCall::CreateDeliveryRole { initiator: sa, payload: NewRole { id: new.role_ids()[3],
                    user_id: old.manager(), name: DeliveryRole::StoreManager, data: Some(old.store_id()) } })
            })
    } else if k == 4 {
        &&& new.stage() == 5
        &&& new.store() == old.store()
        &&& new.store_id() == old.store_id()
        &&& new.manager() == old.manager()
        &&& new.country_code() == old.country_code()
        &&& new.role_ids() == old.role_ids()
        &&& new.log() == old.log().push(store_complete_entry(4, old.store_id(), old.role_ids()))
                .push(CreateStoreOperationStage::BillingCreateMerchantStart(old.store_id()))
        &&& step matches Step::Call(ApiCall::Billing(BillingCall::CreateStoreMerchant { initiator, payload }))
        &&& initiator == sa
        &&& payload.id == old.store_id()
        &&& opt_text(payload.country_code) == old.country_code()
    } else {
        &&& new.stage() == 6
        &&& new.log() == old.log().push(CreateStoreOperationStage::BillingCreateMerchantComplete(old.store_id()))
        &&& step matches Step::Done(s)
        &&& old.store() == Some(s)
        &&& s.id == old.store_id()
        &&& s.user_id == old.manager()
    }
}

}
