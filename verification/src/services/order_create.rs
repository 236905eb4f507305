//! The creation of orders, from a cart or from a purchase of one product:
//! the orders, then their invoice, then (for a cart) the use of the
//! orders' coupons. Each step is logged when it starts and when it has
//! succeeded; a cart's conversion that fails is undone step by step. The
//! result is the invoice and the sender of the e-mails that the new orders
//! cause.
use vstd::prelude::*;

use crate::errors::Error;
use crate::http::Initiator;
use crate::ids::{fresh_uuid, ConversionId, CouponId, SagaId, UserId};
use crate::microservice::{kind_of_reply, ApiCall, BillingCall, OrdersCall, Reply, ReplyKind, StoresCall};
use crate::models::create_order::{
    BuyNow, BuyNowPayload, ConvertCart, ConvertCartPayload, ConvertCartRevert, CreateInvoice, CreateOrderOperationStage,
    Order,
};
use crate::services::common::{service_error, service_error_ok, Outcome, Step};
use crate::services::coupons::{coupon_pairs, coupon_uses, coupon_uses_ok, last_user};
use crate::services::notify::copy_text;
use crate::services::order_notify::{facts_of, order_facts, order_tasks, OrderFacts, OrderNotifier};
use crate::validation::texts_of;

verus! {

pub open spec fn order_fields() -> Seq<&'static str> {
    seq!["order"]
}

pub open spec fn phone_fields() -> Seq<&'static str> {
    seq!["phone"]
}

fn order_field_names() -> (r: &'static [&'static str])
    ensures
        r@ == order_fields(),
{
    let v: &'static [&'static str] = &["order"];
    assert(v@ =~= order_fields());
    v
}

fn phone_field_names() -> (r: &'static [&'static str])
    ensures
        r@ == phone_fields(),
{
    let v: &'static [&'static str] = &["phone"];
    assert(v@ =~= phone_fields());
    v
}

/// What undoes a completed step of the log; nothing undoes a start.
pub open spec fn order_stage_revert(e: CreateOrderOperationStage) -> Option<ApiCall> {
    match e {
        CreateOrderOperationStage::OrdersConvertCartComplete(id) => Some(ApiCall::Orders(OrdersCall::RevertConvertCart {
            initiator: Initiator::Superadmin,
            payload: ConvertCartRevert { conversion_id: id },
        })),
        CreateOrderOperationStage::BillingCreateInvoiceComplete(id) =>
            Some(ApiCall::Billing(BillingCall::RevertCreateInvoice { initiator: Initiator::Superadmin, saga_id: id })),
        _ => None,
    }
}

/// The calls that undo a log: one for each completed step, in the order of
/// the log.
pub open spec fn order_reverts_of_log(log: Seq<CreateOrderOperationStage>) -> Seq<ApiCall>
    decreases log.len(),
{
    if log.len() == 0 {
        seq![]
    } else {
        let rest = order_reverts_of_log(log.drop_last());
        match order_stage_revert(log.last()) {
            Some(c) => rest.push(c),
            None => rest,
        }
    }
}

fn stage_revert(e: CreateOrderOperationStage) -> (r: Option<ApiCall>)
    ensures
        r == order_stage_revert(e),
{
    match e {
        CreateOrderOperationStage::OrdersConvertCartComplete(id) => Some(ApiCall::Orders(OrdersCall::RevertConvertCart {
            initiator: Initiator::Superadmin,
            payload: ConvertCartRevert { conversion_id: id },
        })),
        CreateOrderOperationStage::BillingCreateInvoiceComplete(id) =>
            Some(ApiCall::Billing(BillingCall::RevertCreateInvoice { initiator: Initiator::Superadmin, saga_id: id })),
        _ => None,
    }
}

/// The calls that undo what an order-creation log records as done.
pub fn create_order_revert(log: &Vec<CreateOrderOperationStage>) -> (r: Vec<ApiCall>)
    ensures
        r@ == order_reverts_of_log(log@),
{
    let mut r: Vec<ApiCall> = Vec::new();
    let mut i: usize = 0;
    while i < log.len()
        invariant
            i <= log.len(),
            r@ == order_reverts_of_log(log@.take(i as int)),
        decreases log.len() - i,
    {
        assert(log@.take(i as int + 1).drop_last() =~= log@.take(i as int));
        match stage_revert(log[i]) {
            Some(c) => r.push(c),
            None => {},
        }
        i = i + 1;
    }
    assert(log@.take(log.len() as int) =~= log@);
    r
}

/// Where new orders come from.
#[derive(Clone, Copy, Debug, PartialEq, Eq, Structural)]
pub enum OrderSource {
    Cart,
    BuyNow,
}

/// What the creation of orders gives back: the invoice, as billing returned
/// it, and the sender of the e-mails about the new orders with its first
/// call.
#[derive(Debug)]
pub struct OrdersCreated {
    pub invoice: serde_json::Value,
    pub notifier: OrderNotifier,
    pub first_call: Option<ApiCall>,
}

/// The log of a creation that has done `done` steps and is in step `done`,
/// when `started` says that step has begun.
pub open spec fn order_log(done: nat, conversion: ConversionId, saga: SagaId) -> Seq<CreateOrderOperationStage> {
    if done == 0 {
        seq![CreateOrderOperationStage::OrdersConvertCartStart(conversion)]
    } else if done == 1 {
        seq![
            CreateOrderOperationStage::OrdersConvertCartStart(conversion),
            CreateOrderOperationStage::OrdersConvertCartComplete(conversion),
            CreateOrderOperationStage::BillingCreateInvoiceStart(saga),
        ]
    } else {
        seq![
            CreateOrderOperationStage::OrdersConvertCartStart(conversion),
            CreateOrderOperationStage::OrdersConvertCartComplete(conversion),
            CreateOrderOperationStage::BillingCreateInvoiceStart(saga),
            CreateOrderOperationStage::BillingCreateInvoiceComplete(saga),
        ]
    }
}

/// The calls that undo the first `done` steps, in the order in which they
/// were done.
pub open spec fn order_undo_first(done: nat, conversion: ConversionId, saga: SagaId) -> Seq<ApiCall> {
    let revert_cart = ApiCall::Orders(OrdersCall::RevertConvertCart {
        initiator: Initiator::Superadmin,
        payload: ConvertCartRevert { conversion_id: conversion },
    });
    let revert_invoice = ApiCall::Billing(BillingCall::RevertCreateInvoice { initiator: Initiator::Superadmin, saga_id: saga });
    if done == 0 {
        seq![]
    } else if done == 1 {
        seq![revert_cart]
    } else {
        seq![revert_cart, revert_invoice]
    }
}

/// Undoing the log of a creation undoes exactly the steps that were done.
pub proof fn lemma_order_revert_undoes_done_steps(done: nat, conversion: ConversionId, saga: SagaId)
    requires
        done <= 2,
    ensures
        order_reverts_of_log(order_log(done, conversion, saga)) == order_undo_first(done, conversion, saga),
{
    let s0 = CreateOrderOperationStage::OrdersConvertCartStart(conversion);
    let c0 = CreateOrderOperationStage::OrdersConvertCartComplete(conversion);
    let s1 = CreateOrderOperationStage::BillingCreateInvoiceStart(saga);
    let c1 = CreateOrderOperationStage::BillingCreateInvoiceComplete(saga);
    let e = Seq::<CreateOrderOperationStage>::empty();
    assert(seq![s0].drop_last() =~= e);
    assert(seq![s0, c0].drop_last() =~= seq![s0]);
    assert(seq![s0, c0, s1].drop_last() =~= seq![s0, c0]);
    assert(seq![s0, c0, s1, c1].drop_last() =~= seq![s0, c0, s1]);
    assert(order_reverts_of_log(e) == Seq::<ApiCall>::empty());
    assert(order_reverts_of_log(seq![s0]) == Seq::<ApiCall>::empty());
    assert(order_reverts_of_log(seq![s0, c0]) =~= order_undo_first(1, conversion, saga));
    assert(order_reverts_of_log(seq![s0, c0, s1]) =~= order_undo_first(1, conversion, saga));
    assert(order_reverts_of_log(seq![s0, c0, s1, c1]) =~= order_undo_first(2, conversion, saga));
}

/// A creation of orders under way.
#[derive(Debug)]
pub struct CreateOrderSaga {
    source: OrderSource,
    log: Vec<CreateOrderOperationStage>,
    stage: usize,
    conversion_id: ConversionId,
    saga_id: SagaId,
    customer_id: UserId,
    currency: String,
    orders: Vec<OrderFacts>,
    invoice: Option<serde_json::Value>,
    coupons: Vec<(CouponId, UserId)>,
    coupon_next: usize,
    cluster_url: String,
}

impl CreateOrderSaga {
    pub closed spec fn source(&self) -> OrderSource {
        self.source
    }

    pub closed spec fn log(&self) -> Seq<CreateOrderOperationStage> {
        self.log@
    }

    /// The step under way: 0 creates the orders, 1 the invoice, 2 uses the
    /// coupons; 3 means the saga is over.
    pub closed spec fn stage(&self) -> nat {
        self.stage as nat
    }

    pub closed spec fn conversion_id(&self) -> ConversionId {
        self.conversion_id
    }

    pub closed spec fn saga_id(&self) -> SagaId {
        self.saga_id
    }

    pub closed spec fn customer_id(&self) -> UserId {
        self.customer_id
    }

    pub closed spec fn currency(&self) -> Seq<char> {
        self.currency@
    }

    /// What the coordinator read of the new orders.
    pub closed spec fn orders(&self) -> Seq<OrderFacts> {
        self.orders@
    }

    /// The coupons to use, and how many of them have been used.
    pub closed spec fn coupons(&self) -> Seq<(CouponId, UserId)> {
        self.coupons@
    }

    pub closed spec fn coupon_next(&self) -> nat {
        self.coupon_next as nat
    }

    pub closed spec fn cluster_url(&self) -> Seq<char> {
        self.cluster_url@
    }

    /// The invoice that billing created, once it exists.
    pub closed spec fn invoice(&self) -> Option<serde_json::Value> {
        self.invoice
    }

    pub closed spec fn wf(&self) -> bool {
        &&& self.stage <= 3
        &&& self.stage <= 2 ==> self.log@ == order_log(self.stage as nat, self.conversion_id, self.saga_id)
        &&& self.stage == 2 ==> self.invoice is Some && self.coupon_next < self.coupons@.len() && self.source == OrderSource::Cart
        &&& self.stage == 2 ==> coupon_uses_ok(self.coupons@, coupon_pairs(self.orders@))
    }

    pub open spec fn awaited(&self) -> ReplyKind {
        if self.stage() == 0 {
            ReplyKind::Orders
        } else if self.stage() == 1 {
            ReplyKind::Invoice
        } else {
            ReplyKind::UsedCoupon
        }
    }

    /// Whether the step under way waits for an answer of kind `k`.
    pub fn awaits(&self, k: ReplyKind) -> (r: bool)
        ensures
            r == (k == self.awaited()),
    {
        if self.stage == 0 {
            k == ReplyKind::Orders
        } else if self.stage == 1 {
            k == ReplyKind::Invoice
        } else {
            k == ReplyKind::UsedCoupon
        }
    }

    /// Whether the saga is over.
    pub fn is_over(&self) -> (r: bool)
        ensures
            r == (self.stage() == 3),
    {
        self.stage == 3
    }

    /// Starts turning a cart into orders under a fresh conversion id.
    pub fn start_cart(input: ConvertCart, cluster_url: String) -> (r: (CreateOrderSaga, ApiCall))
        ensures
            r.0.wf(),
            r.0.stage() == 0,
            r.0.source() == OrderSource::Cart,
            r.0.customer_id() == input.customer_id,
            r.0.currency() == input.currency@,
            r.0.cluster_url() == cluster_url@,
            r.0.log() == seq![CreateOrderOperationStage::OrdersConvertCartStart(r.0.conversion_id())],
            r.1 == ApiCall::Orders(OrdersCall::ConvertCart {
                payload: ConvertCartPayload { conversion_id: Some(r.0.conversion_id()), cart: input },
            }),
    {
        let conversion_id = fresh_uuid();
        let customer_id = input.customer_id;
        let currency = copy_text(&input.currency);
        let mut log: Vec<CreateOrderOperationStage> = Vec::new();
        log.push(CreateOrderOperationStage::OrdersConvertCartStart(conversion_id));
        let saga = CreateOrderSaga {
            source: OrderSource::Cart,
            log,
            stage: 0,
            conversion_id,
            saga_id: 0,
            customer_id,
            currency,
            orders: Vec::new(),
            invoice: None,
            coupons: Vec::new(),
            coupon_next: 0,
            cluster_url,
        };
        assert(saga.log@ =~= order_log(0, conversion_id, 0));
        (saga, ApiCall::Orders(OrdersCall::ConvertCart { payload: ConvertCartPayload { conversion_id: Some(conversion_id), cart: input } }))
    }

    /// Starts creating the order of a purchase of one product under a fresh
    /// conversion id.
    pub fn start_buy_now(input: BuyNow, cluster_url: String) -> (r: (CreateOrderSaga, ApiCall))
        ensures
            r.0.wf(),
            r.0.stage() == 0,
            r.0.source() == OrderSource::BuyNow,
            r.0.customer_id() == input.customer_id,
            r.0.currency() == input.currency@,
            r.0.cluster_url() == cluster_url@,
            r.0.log() == seq![CreateOrderOperationStage::OrdersConvertCartStart(r.0.conversion_id())],
            r.1 == ApiCall::Orders(OrdersCall::CreateBuyNow {
                payload: BuyNowPayload { conversion_id: Some(r.0.conversion_id()), buy_now: input },
            }),
    {
        let conversion_id = fresh_uuid();
        let customer_id = input.customer_id;
        let currency = copy_text(&input.currency);
        let mut log: Vec<CreateOrderOperationStage> = Vec::new();
        log.push(CreateOrderOperationStage::OrdersConvertCartStart(conversion_id));
        let saga = CreateOrderSaga {
            source: OrderSource::BuyNow,
            log,
            stage: 0,
            conversion_id,
            saga_id: 0,
            customer_id,
            currency,
            orders: Vec::new(),
            invoice: None,
            coupons: Vec::new(),
            coupon_next: 0,
            cluster_url,
        };
        assert(saga.log@ =~= order_log(0, conversion_id, 0));
        (saga, ApiCall::Orders(OrdersCall::CreateBuyNow { payload: BuyNowPayload { conversion_id: Some(conversion_id), buy_now: input } }))
    }

    fn finish(self) -> (r: (CreateOrderSaga, Step<OrdersCreated>))
        requires
            self.invoice is Some,
        ensures
            r.0.wf(),
            r.0.stage() == 3,
            r.0.log() == self.log(),
            r.0.coupons() == self.coupons(),
            r.1 matches Step::Done(c) && self.invoice() == Some(c.invoice) && c.notifier.tasks() == order_tasks(self.orders().map_values(|o: OrderFacts| Some(o)))
                && c.notifier.next() == 0 && !c.notifier.sending() && c.notifier.cluster_url() == self.cluster_url()
                && (c.notifier.done() ==> c.first_call is None)
                && (!c.notifier.done() ==> c.first_call == Some(crate::services::order_notify::lookup_call(c.notifier.tasks()[0]))),
    {
        let CreateOrderSaga { source, log, stage: _, conversion_id, saga_id, customer_id, currency, orders, invoice, coupons, coupon_next, cluster_url } = self;
        let mut some_orders: Vec<Option<OrderFacts>> = Vec::new();
        let mut i: usize = 0;
        while i < orders.len()
            invariant
                i <= orders.len(),
                some_orders@ == orders@.take(i as int).map_values(|o: OrderFacts| Some(o)),
            decreases orders.len() - i,
        {
            some_orders.push(Some(orders[i]));
            i = i + 1;
            assert(some_orders@ =~= orders@.take(i as int).map_values(|o: OrderFacts| Some(o)));
        }
        assert(orders@.take(orders.len() as int) =~= orders@);
        let (notifier, first_call) = OrderNotifier::new(&some_orders, copy_text(&cluster_url));
        let inv = match invoice {
            Some(v) => v,
            None => { assert(false); return (CreateOrderSaga { source, log, stage: 3, conversion_id, saga_id, customer_id, currency, orders, invoice: None, coupons, coupon_next, cluster_url }, Step::Fail(Error::Unknown)); },
        };
        (CreateOrderSaga { source, log, stage: 3, conversion_id, saga_id, customer_id, currency, orders, invoice: None, coupons, coupon_next, cluster_url },
            Step::Done(OrdersCreated { invoice: inv, notifier, first_call }))
    }

    /// Takes the outcome of the step under way. The created orders get an
    /// invoice for the customer in the currency of the request, under a fresh
    /// saga id; a created invoice is followed, for a cart, by the use of each
    /// coupon of the orders (once, for the customer of the last order with
    /// it), and then by the result. A failure of a cart's conversion undoes,
    /// in order, every step that was done; that of a purchase just fails.
    pub fn on_outcome(self, outcome: Outcome) -> (r: (CreateOrderSaga, Step<OrdersCreated>))
        requires
            self.wf(),
            self.stage() <= 2,
            outcome matches Ok(reply) ==> kind_of_reply(reply) == self.awaited(),
        ensures
            r.0.wf(),
            match outcome {
                Err(f) => {
                    let fields = if self.stage() == 0 { order_fields() } else { phone_fields() };
                    &&& r.0.stage() == 3
                    &&& if self.source() == OrderSource::Cart {
                        r.1 matches Step::Revert { calls, error }
                            && calls@ == order_undo_first(self.stage(), self.conversion_id(), self.saga_id())
                            && service_error_ok(error, f, texts_of(fields))
                    } else {
                        r.1 matches Step::Fail(error) && service_error_ok(error, f, texts_of(fields))
                    }
                },
                Ok(reply) => create_order_advance(self, reply, r.0, r.1),
            },
    {
        match outcome {
            Err(f) => {
                let fields = if self.stage == 0 { order_field_names() } else { phone_field_names() };
                let error = service_error(f, fields);
                let CreateOrderSaga { source, log, stage, conversion_id, saga_id, customer_id, currency, orders, invoice: _, coupons, coupon_next, cluster_url } = self;
                let next = CreateOrderSaga { source, log, stage: 3, conversion_id, saga_id, customer_id, currency, orders, invoice: None, coupons, coupon_next, cluster_url };
                match source {
                    OrderSource::Cart => {
                        proof {
                            lemma_order_revert_undoes_done_steps(stage as nat, conversion_id, saga_id);
                        }
                        let calls = create_order_revert(&next.log);
                        (next, Step::Revert { calls, error })
                    },
                    OrderSource::BuyNow => (next, Step::Fail(error)),
                }
            },
            Ok(reply) => self.advance(reply),
        }
    }

    fn advance(self, reply: Reply) -> (r: (CreateOrderSaga, Step<OrdersCreated>))
        requires
            self.wf(),
            self.stage() <= 2,
            kind_of_reply(reply) == self.awaited(),
        ensures
            r.0.wf(),
            create_order_advance(self, reply, r.0, r.1),
    {
        if self.stage == 0 {
            let created = match reply {
                Reply::Orders(o) => o,
                _ => { assert(false); return self.finish(); },
            };
            let CreateOrderSaga { source, mut log, stage: _, conversion_id, saga_id: _, customer_id, currency, orders: _, invoice, coupons, coupon_next, cluster_url } = self;
            let mut facts: Vec<OrderFacts> = Vec::new();
            let mut bodies: Vec<serde_json::Value> = Vec::new();
            let mut rest = created;
            let total = rest.len();
            let ghost all = rest@;
            let mut i: usize = 0;
            while rest.len() > 0
                invariant
                    i + rest@.len() == all.len(),
                    all.len() == total,
                    rest@ == all.skip(i as int),
                    facts@ == all.take(i as int).map_values(|o: Order| facts_of(o)),
                    bodies@ == all.take(i as int).map_values(|o: Order| o.body),
                decreases rest.len(),
            {
                let o = rest.remove(0);
                facts.push(order_facts(&o));
                let Order { body, .. } = o;
                bodies.push(body);
                assert(all.skip(i as int + 1) =~= all.skip(i as int).drop_first());
                i = i + 1;
                assert(facts@ =~= all.take(i as int).map_values(|o: Order| facts_of(o)));
                assert(bodies@ =~= all.take(i as int).map_values(|o: Order| o.body));
            }
            assert(all.take(all.len() as int) =~= all);
            let saga_id = fresh_uuid();
            log.push(CreateOrderOperationStage::OrdersConvertCartComplete(conversion_id));
            log.push(CreateOrderOperationStage::BillingCreateInvoiceStart(saga_id));
            let payload = CreateInvoice { orders: bodies, customer_id, saga_id, currency: copy_text(&currency) };
            let call = ApiCall::Billing(BillingCall::CreateInvoice { initiator: Initiator::Superadmin, payload });
            let next = CreateOrderSaga { source, log, stage: 1, conversion_id, saga_id, customer_id, currency, orders: facts, invoice, coupons, coupon_next, cluster_url };
            assert(next.log@ =~= order_log(1, conversion_id, saga_id));
            (next, Step::Call(call))
        } else if self.stage == 1 {
            let inv = match reply {
                Reply::Invoice(v) => v,
                _ => { assert(false); return (self, Step::Fail(Error::Unknown)); },
            };
            let CreateOrderSaga { source, mut log, stage: _, conversion_id, saga_id, customer_id, currency, orders, invoice: _, coupons: _, coupon_next: _, cluster_url } = self;
            log.push(CreateOrderOperationStage::BillingCreateInvoiceComplete(saga_id));
            assert(log@ =~= order_log(2, conversion_id, saga_id));
            let coupons = match source {
                OrderSource::Cart => coupon_uses(&orders),
                OrderSource::BuyNow => Vec::new(),
            };
            if coupons.len() == 0 {
                proof {
                    if source == OrderSource::Cart {
                        let p = coupon_pairs(orders@);
                        if p.len() > 0 {
                            assert(last_user(p, p.last().0) is Some);
                        }
                    }
                }
                let s = CreateOrderSaga { source, log, stage: 1, conversion_id, saga_id, customer_id, currency, orders, invoice: Some(inv), coupons, coupon_next: 0, cluster_url };
                return s.finish();
            }
            let (coupon_id, user_id) = coupons[0];
            let call = ApiCall::Stores(StoresCall::UseCoupon { initiator: Initiator::Superadmin, coupon_id, user_id });
            let next = CreateOrderSaga { source, log, stage: 2, conversion_id, saga_id, customer_id, currency, orders, invoice: Some(inv), coupons, coupon_next: 0, cluster_url };
            (next, Step::Call(call))
        } else {
            assert(self.coupon_next < self.coupons.len());
            let CreateOrderSaga { source, log, stage, conversion_id, saga_id, customer_id, currency, orders, invoice, coupons, coupon_next, cluster_url } = self;
            assert(coupon_next < coupons.len());
            let n = coupon_next + 1;
            if n < coupons.len() {
                let (coupon_id, user_id) = coupons[n];
                let call = ApiCall::Stores(StoresCall::UseCoupon { initiator: Initiator::Superadmin, coupon_id, user_id });
                (CreateOrderSaga { source, log, stage, conversion_id, saga_id, customer_id, currency, orders, invoice, coupons, coupon_next: n, cluster_url }, Step::Call(call))
            } else {
                let s = CreateOrderSaga { source, log, stage, conversion_id, saga_id, customer_id, currency, orders, invoice, coupons, coupon_next: n - 1, cluster_url };
                s.finish()
            }
        }
    }
}

/// Whether `step` ends the creation with the invoice and the e-mails that
/// `orders` cause.
pub open spec fn orders_created_ok(step: Step<OrdersCreated>, orders: Seq<OrderFacts>, cluster: Seq<char>) -> bool {
    step matches Step::Done(c) && c.notifier.tasks() == order_tasks(orders.map_values(|o: OrderFacts| Some(o)))
        && c.notifier.next() == 0 && !c.notifier.sending() && c.notifier.cluster_url() == cluster
        && (c.notifier.done() ==> c.first_call is None)
        && (!c.notifier.done() ==> c.first_call == Some(crate::services::order_notify::lookup_call(c.notifier.tasks()[0])))
}

/// What a step that succeeded does.
pub open spec fn create_order_advance(old: CreateOrderSaga, reply: Reply, new: CreateOrderSaga, step: Step<OrdersCreated>) -> bool {
    let k = old.stage();
    if k == 0 {
        &&& reply matches Reply::Orders(created)
        &&& new.stage() == 1
        &&& new.orders() == created@.map_values(|o: Order| facts_of(o))
        &&& new.log() == old.log().push(CreateOrderOperationStage::OrdersConvertCartComplete(old.conversion_id()))
                .push(CreateOrderOperationStage::BillingCreateInvoiceStart(new.saga_id()))
        &&& new.source() == old.source()
        &&& new.cluster_url() == old.cluster_url()
        &&& step matches Step::Call(ApiCall::Billing(BillingCall::CreateInvoice { initiator, payload }))
        &&& initiator == Initiator::Superadmin
        &&& payload.customer_id == old.customer_id()
        &&& payload.saga_id == new.saga_id()
        &&& payload.currency@ == old.currency()
        &&& payload.orders@ == created@.map_values(|o: Order| o.body)
    } else if k == 1 {
        let uses = new.coupons();
        &&& reply matches Reply::Invoice(inv)
        &&& new.log() == old.log().push(CreateOrderOperationStage::BillingCreateInvoiceComplete(old.saga_id()))
        &&& if old.source() == OrderSource::Cart && uses.len() > 0 {
            &&& new.stage() == 2
            &&& new.invoice() == Some(inv)
            &&& coupon_uses_ok(uses, coupon_pairs(old.orders()))
            &&& new.coupon_next() == 0
            &&& step == Step::<OrdersCreated>::Call(ApiCall::Stores(StoresCall::UseCoupon {
                    initiator: Initiator::Superadmin, coupon_id: uses[0].0, user_id: uses[0].1 }))
        } else {
            &&& new.stage() == 3
            &&& old.source() == OrderSource::Cart ==> coupon_pairs(old.orders()).len() == 0
            &&& orders_created_ok(step, old.orders(), old.cluster_url())
            &&& step matches Step::Done(c) && c.invoice == inv
        }
    } else {
        let n = old.coupon_next() + 1;
        if n < old.coupons().len() {
            &&& new.stage() == 2
            &&& new.invoice() == old.invoice()
            &&& new.coupons() == old.coupons()
            &&& new.coupon_next() == n
            &&& step == Step::<OrdersCreated>::Call(ApiCall::Stores(StoresCall::UseCoupon {
                    initiator: Initiator::Superadmin, coupon_id: old.coupons()[n as int].0, user_id: old.coupons()[n as int].1 }))
        } else {
            &&& new.stage() == 3
            &&& orders_created_ok(step, old.orders(), old.cluster_url())
            &&& step matches Step::Done(c) && old.invoice() == Some(c.invoice)
        }
    }
}

}
