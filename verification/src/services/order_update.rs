//! Changes of orders' states: those that billing reports, and those that a
//! manager makes by hand. A state that an order already has is not set
//! again. Paid orders take their quantity out of the stock of the first
//! warehouse that holds their product; everyone concerned is told by e-mail.
use vstd::prelude::*;

use crate::errors::Error;
use crate::http::Initiator;
use crate::ids::OrderSlug;
use crate::microservice::{kind_of_reply, ApiCall, OrdersCall, Reply, ReplyKind, WarehousesCall, BillingCall};
use crate::models::create_order::{BillingOrderInfo, BillingOrdersVec, Order, OrderIdentifier, OrderPaymentStateRequest, Stock, UpdateStatePayload};
use crate::models::resources::{order_state_text, CommitterRole, OrderState};
use crate::services::common::{service_error, service_error_ok, Outcome, Step};
use crate::services::notify::copy_text;
use crate::services::order_notify::{facts_of, order_facts, order_tasks, lookup_call, OrderFacts, OrderNotifier};
use crate::text::cat;
use crate::http::opt_text;
use crate::validation::texts_of;
use crate::ids::OrderId;

verus! {

/// The comment with which billing's report of a state is recorded.
pub open spec fn billing_comment(s: OrderState) -> Seq<char> {
    if s == OrderState::TransactionPending {
        "Found new transaction in blockchain, waiting for it confirmation."@
    } else if s == OrderState::AmountExpired {
        "Invoice amount expiration timeout occurred, total amount will be recalculated by billing service."@
    } else {
        "State changed to "@ + order_state_text(s) + " by billing service."@
    }
}

/// Whether `p` records billing's report `info`: its state, no track id, the
/// comment of `billing_comment`, and the customer as the one who changed it.
pub open spec fn billing_payload_ok(p: UpdateStatePayload, info: BillingOrderInfo) -> bool {
    &&& p.state == info.status
    &&& p.track_id is None
    &&& p.comment matches Some(c) && c@ == billing_comment(info.status)
    &&& p.committer_role == CommitterRole::Customer
}

/// The new state of an order that billing reports.
pub fn update_state_payload(info: BillingOrderInfo) -> (r: UpdateStatePayload)
    ensures
        billing_payload_ok(r, info),
{
    let comment = match info.status {
        OrderState::TransactionPending => "Found new transaction in blockchain, waiting for it confirmation.".to_owned(),
        OrderState::AmountExpired =>
            "Invoice amount expiration timeout occurred, total amount will be recalculated by billing service.".to_owned(),
        _ => cat(cat("State changed to ".to_owned(), info.status.as_str()), " by billing service."),
    };
    UpdateStatePayload { state: info.status, track_id: None, comment: Some(comment), committer_role: CommitterRole::Customer }
}

/// Whether billing's report of a state is one that orders do not take:
/// billing's own states of a pending transaction and an expired amount.
pub open spec fn is_billing_only_state(s: OrderState) -> bool {
    s == OrderState::AmountExpired || s == OrderState::TransactionPending
}

/// The reports that change orders.
pub open spec fn kept_reports(infos: Seq<BillingOrderInfo>) -> Seq<BillingOrderInfo> {
    infos.filter(|i: BillingOrderInfo| !is_billing_only_state(i.status))
}

/// The reports that change orders.
pub fn reports_to_apply(infos: &BillingOrdersVec) -> (r: Vec<BillingOrderInfo>)
    ensures
        r@ == kept_reports(infos.0@),
{
    let mut r: Vec<BillingOrderInfo> = Vec::new();
    let mut i: usize = 0;
    while i < infos.0.len()
        invariant
            i <= infos.0.len(),
            r@ == kept_reports(infos.0@.take(i as int)),
        decreases infos.0.len() - i,
    {
        let info = infos.0[i];
        assert(infos.0@.take(i as int + 1).drop_last() =~= infos.0@.take(i as int));
        match info.status {
            OrderState::AmountExpired | OrderState::TransactionPending => {},
            _ => r.push(info),
        }
        reveal_with_fuel(Seq::filter, 1);
        i = i + 1;
    }
    assert(infos.0@.take(infos.0.len() as int) =~= infos.0@);
    r
}

/// Billing's reports keep their order, and each is applied unless it
/// reports a pending transaction or an expired amount, which orders do not
/// take: a list of reports is applied as its parts are, one after the other.
pub proof fn lemma_reports_kept_unless_billing_only(a: Seq<BillingOrderInfo>, b: Seq<BillingOrderInfo>, info: BillingOrderInfo)
    ensures
        kept_reports(a + b) == kept_reports(a) + kept_reports(b),
        (info.status == OrderState::AmountExpired || info.status == OrderState::TransactionPending)
            ==> kept_reports(seq![info]) == Seq::<BillingOrderInfo>::empty(),
        !(info.status == OrderState::AmountExpired || info.status == OrderState::TransactionPending)
            ==> kept_reports(seq![info]) == seq![info],
{
    let pred = |i: BillingOrderInfo| !is_billing_only_state(i.status);
    Seq::filter_distributes_over_add(a, b, pred);
    let one = seq![info];
    assert(one.drop_last() =~= Seq::<BillingOrderInfo>::empty());
    reveal_with_fuel(Seq::filter, 2);
    assert(Seq::<BillingOrderInfo>::empty().filter(pred) =~= Seq::<BillingOrderInfo>::empty());
    if pred(info) {
        assert(one.filter(pred) =~= seq![info]);
    } else {
        assert(one.filter(pred) =~= Seq::<BillingOrderInfo>::empty());
    }
}

/// The stock left after an order of `ordered` items: what is left, or
/// nothing where the order takes all or more.
pub open spec fn stock_after(stock: i32, ordered: i32) -> i32 {
    if stock > ordered { (stock - ordered) as i32 } else { 0 }
}

/// The stock left after an order of `ordered` items.
pub fn new_stock_quantity(stock: i32, ordered: i32) -> (r: i32)
    ensures
        r == stock_after(stock, ordered),
{
    if stock > ordered {
        assert(ordered < stock);
        (stock as i64 - ordered as i64) as i32
    } else {
        0
    }
}

/// Taking an order of a quantity that is not negative out of a stock that
/// is not negative leaves a stock between nothing and what there was.
pub proof fn lemma_stock_after_within_stock(stock: i32, ordered: i32)
    requires
        0 <= stock,
        0 <= ordered,
    ensures
        0 <= stock_after(stock, ordered) <= stock,
{
}

/// The orders among the results whose stock is to be reduced: the paid ones.
pub open spec fn paid_orders(results: Seq<Option<OrderFacts>>) -> Seq<OrderFacts>
    decreases results.len(),
{
    if results.len() == 0 {
        seq![]
    } else {
        let rest = paid_orders(results.drop_last());
        match results.last() {
            Some(o) => if o.state == OrderState::Paid { rest.push(o) } else { rest },
            None => rest,
        }
    }
}

/// Taking an order (of a quantity that is not negative) out of a stock that
/// holds more leaves the difference; an order that takes all of it or more
/// leaves nothing.
pub proof fn lemma_stock_after_takes_order(stock: i32, ordered: i32)
    ensures
        0 <= ordered < stock ==> stock_after(stock, ordered) + ordered == stock,
        stock <= ordered ==> stock_after(stock, ordered) == 0,
{
}

/// The stocks that change are those of the paid orders among the results,
/// in their order: an order that is not paid, and a result with no order,
/// changes none.
pub proof fn lemma_paid_orders_in_order(a: Seq<Option<OrderFacts>>, b: Seq<Option<OrderFacts>>, o: OrderFacts)
    ensures
        paid_orders(a + b) == paid_orders(a) + paid_orders(b),
        o.state == OrderState::Paid ==> paid_orders(seq![Some(o)]) == seq![o],
        o.state != OrderState::Paid ==> paid_orders(seq![Some(o)]) == Seq::<OrderFacts>::empty(),
        paid_orders(seq![None::<OrderFacts>]) == Seq::<OrderFacts>::empty(),
    decreases b.len(),
{
    assert(paid_orders(Seq::<Option<OrderFacts>>::empty()) =~= Seq::<OrderFacts>::empty());
    let one = seq![Some(o)];
    assert(one.len() == 1 && one.last() == Some(o));
    assert(one.drop_last() =~= Seq::<Option<OrderFacts>>::empty());
    if o.state == OrderState::Paid {
        assert(paid_orders(one) =~= seq![o]);
    }
    let none = seq![None::<OrderFacts>];
    assert(none.len() == 1 && none.last() == None::<OrderFacts>);
    assert(none.drop_last() =~= Seq::<Option<OrderFacts>>::empty());
    if b.len() == 0 {
        assert(a + b =~= a);
        assert(paid_orders(a) + paid_orders(b) =~= paid_orders(a));
    } else {
        let b0 = b.drop_last();
        assert((a + b).drop_last() =~= a + b0);
        assert((a + b).last() == b.last());
        lemma_paid_orders_in_order(a, b0, o);
        match b.last() {
            Some(x) => if x.state == OrderState::Paid {
                assert(paid_orders(a + b) =~= paid_orders(a) + paid_orders(b));
            } else {
                assert(paid_orders(a + b) =~= paid_orders(a) + paid_orders(b));
            },
            None => {
                assert(paid_orders(a + b) =~= paid_orders(a) + paid_orders(b));
            },
        }
    }
}

fn paid_of(results: &Vec<Option<OrderFacts>>) -> (r: Vec<OrderFacts>)
    ensures
        r@ == paid_orders(results@),
{
    let mut r: Vec<OrderFacts> = Vec::new();
    let mut i: usize = 0;
    while i < results.len()
        invariant
            i <= results.len(),
            r@ == paid_orders(results@.take(i as int)),
        decreases results.len() - i,
    {
        assert(results@.take(i as int + 1).drop_last() =~= results@.take(i as int));
        match results[i] {
            Some(o) => if o.state == OrderState::Paid { r.push(o); },
            None => {},
        }
        i = i + 1;
    }
    assert(results@.take(results.len() as int) =~= results@);
    r
}

/// The call that looks up the stocks of a paid order's product.
pub open spec fn find_stocks_call(o: OrderFacts) -> ApiCall {
    ApiCall::Warehouses(WarehousesCall::FindByProductId { initiator: Initiator::Superadmin, product_id: o.product })
}

/// The call that sets the stock of the first warehouse found to what is
/// left after the order.
pub open spec fn set_stock_call(o: OrderFacts, s: Stock) -> ApiCall {
    ApiCall::Warehouses(WarehousesCall::SetProductInWarehouse {
        initiator: Initiator::Superadmin,
        warehouse_id: s.warehouse_id,
        product_id: s.product_id,
        quantity: stock_after(s.quantity, o.quantity),
    })
}

/// The call that looks up the order of a report, on the customer's behalf.
pub open spec fn get_reported_order_call(info: BillingOrderInfo) -> ApiCall {
    ApiCall::Orders(OrdersCall::GetOrder { initiator: Some(Initiator::User(info.customer_id)), order: OrderIdentifier::Id(info.order_id) })
}

pub open spec fn order_fields() -> Seq<&'static str> {
    seq!["order"]
}

fn order_field_names() -> (r: &'static [&'static str])
    ensures
        r@ == order_fields(),
{
    let v: &'static [&'static str] = &["order"];
    assert(v@ =~= order_fields());
    v
}

/// What comes out of a change of state: the notifier of the e-mails about
/// the changed orders with its first call.
#[derive(Debug)]
pub struct OrdersNotified {
    pub notifier: OrderNotifier,
    pub first_call: Option<ApiCall>,
}

pub open spec fn notified_ok(n: OrdersNotified, results: Seq<Option<OrderFacts>>, cluster: Seq<char>) -> bool {
    &&& n.notifier.tasks() == order_tasks(results)
    &&& n.notifier.next() == 0
    &&& !n.notifier.sending()
    &&& n.notifier.cluster_url() == cluster
    &&& n.notifier.done() ==> n.first_call is None
    &&& !n.notifier.done() ==> n.first_call == Some(lookup_call(n.notifier.tasks()[0]))
}

fn notify_results(results: &Vec<Option<OrderFacts>>, cluster_url: &String) -> (r: OrdersNotified)
    ensures
        notified_ok(r, results@, cluster_url@),
{
    let (notifier, first_call) = OrderNotifier::new(results, copy_text(cluster_url));
    OrdersNotified { notifier, first_call }
}

/// The application of billing's reports under way.
#[derive(Debug)]
pub struct UpdateOrdersSaga {
    reports: Vec<BillingOrderInfo>,
    results: Vec<Option<OrderFacts>>,
    setting: bool,
    paid: Vec<OrderFacts>,
    next_paid: usize,
    stocking: bool,
    stage: usize,
    cluster_url: String,
}

impl UpdateOrdersSaga {
    /// The reports that change orders.
    pub closed spec fn reports(&self) -> Seq<BillingOrderInfo> {
        self.reports@
    }

    /// The changed orders so far, one per report dealt with (`None` where the
    /// order already had the state).
    pub closed spec fn results(&self) -> Seq<Option<OrderFacts>> {
        self.results@
    }

    /// Whether the state of the order under way is being set (rather than the
    /// order looked up).
    pub closed spec fn setting(&self) -> bool {
        self.setting
    }

    /// The paid orders whose stock is reduced, and the index of the one under
    /// way.
    pub closed spec fn paid(&self) -> Seq<OrderFacts> {
        self.paid@
    }

    pub closed spec fn next_paid(&self) -> nat {
        self.next_paid as nat
    }

    /// Whether the stock of the paid order under way is being set (rather
    /// than looked up).
    pub closed spec fn stocking(&self) -> bool {
        self.stocking
    }

    /// 0 while the orders change, 1 while the stocks change, 2 when over.
    pub closed spec fn stage(&self) -> nat {
        self.stage as nat
    }

    pub closed spec fn cluster_url(&self) -> Seq<char> {
        self.cluster_url@
    }

    pub closed spec fn wf(&self) -> bool {
        &&& self.stage <= 2
        &&& self.stage == 0 ==> self.results@.len() < self.reports@.len()
        &&& self.stage == 1 ==> self.next_paid < self.paid@.len() && self.paid@ == paid_orders(self.results@)
    }

    pub open spec fn awaited(&self) -> ReplyKind {
        if self.stage() == 0 {
            ReplyKind::MaybeOrder
        } else if self.stocking() {
            ReplyKind::Ignored
        } else {
            ReplyKind::Stocks
        }
    }

    /// Whether the step under way waits for an answer of kind `k`.
    pub fn awaits(&self, k: ReplyKind) -> (r: bool)
        ensures
            r == (k == self.awaited()),
    {
        if self.stage == 0 {
            k == ReplyKind::MaybeOrder
        } else if self.stocking {
            k == ReplyKind::Ignored
        } else {
            k == ReplyKind::Stocks
        }
    }

    /// Whether the saga is over.
    pub fn is_over(&self) -> (r: bool)
        ensures
            r == (self.stage() == 2),
    {
        self.stage == 2
    }

    /// Starts applying billing's reports: the first order whose report
    /// changes it is looked up; with no such report there is nothing to do.
    pub fn start(infos: &BillingOrdersVec, cluster_url: String) -> (r: (UpdateOrdersSaga, Step<OrdersNotified>))
        ensures
            r.0.wf(),
            r.0.reports() == kept_reports(infos.0@),
            r.0.results() == Seq::<Option<OrderFacts>>::empty(),
            r.0.cluster_url() == cluster_url@,
            kept_reports(infos.0@).len() == 0 ==> r.0.stage() == 2
                && (r.1 matches Step::Done(n) && notified_ok(n, seq![], cluster_url@)),
            kept_reports(infos.0@).len() > 0 ==> r.0.stage() == 0 && !r.0.setting()
                && r.1 == Step::<OrdersNotified>::Call(get_reported_order_call(kept_reports(infos.0@)[0])),
    {
        let reports = reports_to_apply(infos);
        let results: Vec<Option<OrderFacts>> = Vec::new();
        if reports.len() == 0 {
            let n = notify_results(&results, &cluster_url);
            assert(results@ =~= seq![]);
            return (UpdateOrdersSaga { reports, results, setting: false, paid: Vec::new(), next_paid: 0, stocking: false, stage: 2, cluster_url },
                Step::Done(n));
        }
        let info = reports[0];
        let call = ApiCall::Orders(OrdersCall::GetOrder { initiator: Some(Initiator::User(info.customer_id)), order: OrderIdentifier::Id(info.order_id) });
        (UpdateOrdersSaga { reports, results, setting: false, paid: Vec::new(), next_paid: 0, stocking: false, stage: 0, cluster_url }, Step::Call(call))
    }

    /// After the orders: the stock of the first paid order is looked up; with
    /// no paid order the e-mails are next.
    fn after_orders(self) -> (r: (UpdateOrdersSaga, Step<OrdersNotified>))
        ensures
            r.0.wf(),
            r.0.results() == self.results(),
            r.0.reports() == self.reports(),
            r.0.cluster_url() == self.cluster_url(),
            paid_orders(self.results()).len() == 0 ==> r.0.stage() == 2
                && (r.1 matches Step::Done(n) && notified_ok(n, self.results(), self.cluster_url())),
            paid_orders(self.results()).len() > 0 ==> r.0.stage() == 1 && r.0.next_paid() == 0 && !r.0.stocking()
                && r.0.paid() == paid_orders(self.results())
                && r.1 == Step::<OrdersNotified>::Call(find_stocks_call(paid_orders(self.results())[0])),
    {
        let UpdateOrdersSaga { reports, results, setting, paid: _, next_paid: _, stocking: _, stage: _, cluster_url } = self;
        let paid = paid_of(&results);
        if paid.len() == 0 {
            let n = notify_results(&results, &cluster_url);
            return (UpdateOrdersSaga { reports, results, setting, paid, next_paid: 0, stocking: false, stage: 2, cluster_url }, Step::Done(n));
        }
        let call = ApiCall::Warehouses(WarehousesCall::FindByProductId { initiator: Initiator::Superadmin, product_id: paid[0].product });
        (UpdateOrdersSaga { reports, results, setting, paid, next_paid: 0, stocking: false, stage: 1, cluster_url }, Step::Call(call))
    }

    /// The e-mails, once the stocks are dealt with.
    fn finish(self) -> (r: (UpdateOrdersSaga, Step<OrdersNotified>))
        ensures
            r.0.wf(),
            r.0.stage() == 2,
            r.0.cluster_url() == self.cluster_url(),
            r.1 matches Step::Done(n) && notified_ok(n, self.results(), self.cluster_url()),
    {
        let UpdateOrdersSaga { reports, results, setting, paid, next_paid, stocking, stage: _, cluster_url } = self;
        let n = notify_results(&results, &cluster_url);
        (UpdateOrdersSaga { reports, results, setting, paid, next_paid, stocking, stage: 2, cluster_url }, Step::Done(n))
    }

    /// Takes the outcome of the call under way.
    ///
    /// While the orders change: a report whose order is not found fails the
    /// whole with `NotFound`, a failed call fails it; an order that already
    /// has the reported state is left as it is, any other gets it set (by the
    /// superadmin, with `update_state_payload`), and the next report follows.
    /// While the stocks change: the first stock found for a paid order's
    /// product is set to what is left after the order; a failure ends the
    /// stock changes. Then the e-mails about the changed orders follow.
    pub fn on_outcome(self, outcome: Outcome) -> (r: (UpdateOrdersSaga, Step<OrdersNotified>))
        requires
            self.wf(),
            self.stage() <= 1,
            outcome matches Ok(reply) ==> kind_of_reply(reply) == self.awaited(),
        ensures
            r.0.wf(),
            r.0.cluster_url() == self.cluster_url(),
            self.stage() == 0 ==> update_orders_step_ok(self, outcome, r.0, r.1),
            self.stage() == 1 ==> update_stock_step_ok(self, outcome, r.0, r.1),
    {
        if self.stage == 0 {
            self.on_order_outcome(outcome)
        } else {
            self.on_stock_outcome(outcome)
        }
    }

    fn on_order_outcome(self, outcome: Outcome) -> (r: (UpdateOrdersSaga, Step<OrdersNotified>))
        requires
            self.wf(),
            self.stage() == 0,
            outcome matches Ok(reply) ==> kind_of_reply(reply) == self.awaited(),
        ensures
            r.0.wf(),
            r.0.cluster_url() == self.cluster_url(),
            update_orders_step_ok(self, outcome, r.0, r.1),
    {
        let UpdateOrdersSaga { reports, mut results, setting, paid, next_paid, stocking, stage: _, cluster_url } = self;
        let i = results.len();
        let info = reports[i];
        let found: Option<Order> = match outcome {
            Err(f) => {
                let e = service_error(f, order_field_names());
                return (UpdateOrdersSaga { reports, results, setting, paid, next_paid, stocking, stage: 2, cluster_url }, Step::Fail(e));
            },
            Ok(Reply::MaybeOrder(o)) => o,
            Ok(_) => { assert(false); None },
        };
        if setting {
            let r = match &found {
                Some(o) => Some(order_facts(o)),
                None => None,
            };
            results.push(r);
        } else {
            match &found {
                None => {
                    return (UpdateOrdersSaga { reports, results, setting, paid, next_paid, stocking, stage: 2, cluster_url }, Step::Fail(Error::NotFound));
                },
                Some(o) => {
                    if o.state == info.status {
                        results.push(None);
                    } else {
                        let call = ApiCall::Orders(OrdersCall::SetOrderState {
                            initiator: Some(Initiator::Superadmin),
                            order: OrderIdentifier::Id(o.id),
                            payload: update_state_payload(info),
                        });
                        return (UpdateOrdersSaga { reports, results, setting: true, paid, next_paid, stocking, stage: 0, cluster_url }, Step::Call(call));
                    }
                },
            }
        }
        let s = UpdateOrdersSaga { reports, results, setting: false, paid, next_paid, stocking, stage: 0, cluster_url };
        if s.results.len() < s.reports.len() {
            let next = s.reports[s.results.len()];
            let call = ApiCall::Orders(OrdersCall::GetOrder { initiator: Some(Initiator::User(next.customer_id)), order: OrderIdentifier::Id(next.order_id) });
            (s, Step::Call(call))
        } else {
            s.after_orders()
        }
    }

    fn on_stock_outcome(self, outcome: Outcome) -> (r: (UpdateOrdersSaga, Step<OrdersNotified>))
        requires
            self.wf(),
            self.stage() == 1,
            outcome matches Ok(reply) ==> kind_of_reply(reply) == self.awaited(),
        ensures
            r.0.wf(),
            r.0.cluster_url() == self.cluster_url(),
            update_stock_step_ok(self, outcome, r.0, r.1),
    {
        let stocks = match outcome {
            Err(_) => return self.finish(),
            Ok(Reply::Stocks(s)) => Some(s),
            Ok(_) => None,
        };
        proof { assert(self.next_paid < self.paid@.len()); }
        let UpdateOrdersSaga { reports, results, setting, paid, next_paid, stocking, stage: _, cluster_url } = self;
        let o = paid[next_paid];
        let paid_count = paid.len();
        assert(next_paid < paid_count);
        if !stocking {
            match &stocks {
                Some(list) => {
                    if list.len() > 0 {
                        let first = list[0];
                        let call = ApiCall::Warehouses(WarehousesCall::SetProductInWarehouse {
                            initiator: Initiator::Superadmin,
                            warehouse_id: first.warehouse_id,
                            product_id: first.product_id,
                            quantity: new_stock_quantity(first.quantity, o.quantity),
                        });
                        return (UpdateOrdersSaga { reports, results, setting, paid, next_paid, stocking: true, stage: 1, cluster_url }, Step::Call(call));
                    }
                },
                None => {},
            }
        }
        let n = next_paid + 1;
        let s = UpdateOrdersSaga { reports, results, setting, paid, next_paid: n, stocking: false, stage: 1, cluster_url };
        if n < s.paid.len() {
            let call = ApiCall::Warehouses(WarehousesCall::FindByProductId { initiator: Initiator::Superadmin, product_id: s.paid[n].product });
            (s, Step::Call(call))
        } else {
            let s2 = UpdateOrdersSaga { next_paid: next_paid, ..s };
            s2.finish()
        }
    }
}

/// After a report is dealt with (its result `r`): the next report's order is
/// looked up; after the last, the stock of the first paid order, or with no
/// paid order the e-mails.
pub open spec fn moved_on_ok(old: UpdateOrdersSaga, r: Option<OrderFacts>, new: UpdateOrdersSaga, step: Step<OrdersNotified>) -> bool {
    &&& new.reports() == old.reports()
    &&& new.results() == old.results().push(r)
    &&& if new.results().len() < new.reports().len() {
        new.stage() == 0 && !new.setting()
            && step == Step::<OrdersNotified>::Call(get_reported_order_call(new.reports()[new.results().len() as int]))
    } else if paid_orders(new.results()).len() == 0 {
        new.stage() == 2 && (step matches Step::Done(n) && notified_ok(n, new.results(), old.cluster_url()))
    } else {
        new.stage() == 1 && new.next_paid() == 0 && !new.stocking()
            && step == Step::<OrdersNotified>::Call(find_stocks_call(paid_orders(new.results())[0]))
    }
}

/// What a change of an order does (see `UpdateOrdersSaga::on_outcome`).
pub open spec fn update_orders_step_ok(old: UpdateOrdersSaga, outcome: Outcome, new: UpdateOrdersSaga, step: Step<OrdersNotified>) -> bool {
    let info = old.reports()[old.results().len() as int];
    match outcome {
        Err(f) => new.stage() == 2 && (step matches Step::Fail(e) && service_error_ok(e, f, texts_of(order_fields()))),
        Ok(Reply::MaybeOrder(found)) => if old.setting() {
            moved_on_ok(old, match found { Some(o) => Some(facts_of(o)), None => None }, new, step)
        } else {
            match found {
                None => new.stage() == 2 && (step matches Step::Fail(e) && e is NotFound),
                Some(o) => if o.state == info.status {
                    moved_on_ok(old, None, new, step)
                } else {
                    &&& new.stage() == 0
                    &&& new.setting()
                    &&& new.results() == old.results()
                    &&& new.reports() == old.reports()
                    &&& step matches Step::Call(ApiCall::Orders(OrdersCall::SetOrderState { initiator, order, payload }))
                    &&& initiator == Some(Initiator::Superadmin)
                    &&& order == OrderIdentifier::Id(o.id)
                    &&& billing_payload_ok(payload, info)
                },
            }
        },
        _ => true,
    }
}

/// What a change of a stock does (see `UpdateOrdersSaga::on_outcome`).
pub open spec fn update_stock_step_ok(old: UpdateOrdersSaga, outcome: Outcome, new: UpdateOrdersSaga, step: Step<OrdersNotified>) -> bool {
    let o = old.paid()[old.next_paid() as int];
    let n = old.next_paid() + 1;
    let moved_on = if n < old.paid().len() {
        new.stage() == 1 && new.next_paid() == n && !new.stocking() && new.paid() == old.paid()
            && step == Step::<OrdersNotified>::Call(find_stocks_call(old.paid()[n as int]))
    } else {
        new.stage() == 2 && (step matches Step::Done(x) && notified_ok(x, old.results(), old.cluster_url()))
    };
    match outcome {
        Err(_) => new.stage() == 2 && (step matches Step::Done(x) && notified_ok(x, old.results(), old.cluster_url())),
        Ok(Reply::Stocks(list)) => if !old.stocking() && list.len() > 0 {
            new.stage() == 1 && new.stocking() && new.next_paid() == old.next_paid() && new.paid() == old.paid()
                && step == Step::<OrdersNotified>::Call(set_stock_call(o, list[0]))
        } else {
            moved_on
        },
        _ => moved_on,
    }
}

/// A manager's change of an order's state under way.
#[derive(Debug)]
pub struct SetStateSaga {
    slug: OrderSlug,
    state: OrderState,
    track_id: Option<String>,
    comment: Option<String>,
    committer_role: CommitterRole,
    stage: usize,
    cluster_url: String,
}

/// What a manager's change gives back: the changed order (`None` where it
/// already had the state) and the e-mails about it.
#[derive(Debug)]
pub struct StateSet {
    pub order: Option<Order>,
    pub notified: OrdersNotified,
}

impl SetStateSaga {
    /// 0 while the order is looked up, 1 while its state is set, 2 when over.
    pub closed spec fn stage(&self) -> nat {
        self.stage as nat
    }

    pub closed spec fn slug(&self) -> OrderSlug {
        self.slug
    }

    pub closed spec fn state(&self) -> OrderState {
        self.state
    }

    pub closed spec fn cluster_url(&self) -> Seq<char> {
        self.cluster_url@
    }

    /// The tracking number of the request, while the state is not set.
    pub closed spec fn track_id(&self) -> Option<Seq<char>> {
        opt_text(self.track_id)
    }

    /// The comment of the request, while the state is not set.
    pub closed spec fn comment(&self) -> Option<Seq<char>> {
        opt_text(self.comment)
    }

    /// Who asked for the change.
    pub closed spec fn committer_role(&self) -> CommitterRole {
        self.committer_role
    }

    pub open spec fn awaited(&self) -> ReplyKind {
        ReplyKind::MaybeOrder
    }

    /// Whether the step under way waits for an answer of kind `k`.
    pub fn awaits(&self, k: ReplyKind) -> (r: bool)
        ensures
            r == (k == self.awaited()),
    {
        k == ReplyKind::MaybeOrder
    }

    /// Whether the saga is over.
    pub fn is_over(&self) -> (r: bool)
        ensures
            r == (self.stage() == 2),
    {
        self.stage == 2
    }

    /// Starts the change of the order with slug `slug` to `state`: the order
    /// is looked up first.
    pub fn start(
        slug: OrderSlug,
        state: OrderState,
        track_id: Option<String>,
        comment: Option<String>,
        committer_role: CommitterRole,
        cluster_url: String,
    ) -> (r: (SetStateSaga, ApiCall))
        ensures
            r.0.stage() == 0,
            r.0.slug() == slug,
            r.0.state() == state,
            r.0.track_id() == opt_text(track_id),
            r.0.comment() == opt_text(comment),
            r.0.committer_role() == committer_role,
            r.0.cluster_url() == cluster_url@,
            r.1 == ApiCall::Orders(OrdersCall::GetOrder { initiator: None, order: OrderIdentifier::Slug(slug) }),
    {
        (SetStateSaga { slug, state, track_id, comment, committer_role, stage: 0, cluster_url },
            ApiCall::Orders(OrdersCall::GetOrder { initiator: None, order: OrderIdentifier::Slug(slug) }))
    }

    /// Takes the outcome of the call under way: an order that is not found
    /// fails the change with `NotFound`; one that already has the state is
    /// left as it is; any other gets the state, with the track id, comment
    /// and committer of the request. The changed order comes back, with the
    /// e-mails about it.
    pub fn on_outcome(self, outcome: Outcome) -> (r: (SetStateSaga, Step<StateSet>))
        requires
            self.stage() <= 1,
            outcome matches Ok(reply) ==> kind_of_reply(reply) == self.awaited(),
        ensures
            r.0.stage() == 2 || (self.stage() == 0 && r.0.stage() == 1),
            match outcome {
                Err(f) => r.0.stage() == 2 && (r.1 matches Step::Fail(e) && service_error_ok(e, f, texts_of(order_fields()))),
                Ok(Reply::MaybeOrder(found)) => if self.stage() == 1 {
                    r.0.stage() == 2 && (r.1 matches Step::Done(d) && d.order == found
                        && notified_ok(d.notified, seq![match found { Some(o) => Some(facts_of(o)), None => None }], self.cluster_url()))
                } else {
                    match found {
                        None => r.0.stage() == 2 && (r.1 matches Step::Fail(e) && e is NotFound),
                        Some(o) => if o.state == self.state() {
                            r.0.stage() == 2 && (r.1 matches Step::Done(d) && d.order is None
                                && notified_ok(d.notified, seq![None], self.cluster_url()))
                        } else {
                            r.0.stage() == 1 && (r.1 matches Step::Call(ApiCall::Orders(OrdersCall::SetOrderState { initiator, order, payload }))
                                && initiator is None && order == OrderIdentifier::Slug(self.slug()) && payload.state == self.state()
                                && opt_text(payload.track_id) == self.track_id() && opt_text(payload.comment) == self.comment()
                                && payload.committer_role == self.committer_role())
                        },
                    }
                },
                _ => true,
            },
    {
        let SetStateSaga { slug, state, track_id, comment, committer_role, stage, cluster_url } = self;
        let found: Option<Order> = match outcome {
            Err(f) => {
                let e = service_error(f, order_field_names());
                return (SetStateSaga { slug, state, track_id, comment, committer_role, stage: 2, cluster_url }, Step::Fail(e));
            },
            Ok(Reply::MaybeOrder(o)) => o,
            Ok(_) => None,
        };
        if stage == 1 {
            let facts = match &found {
                Some(o) => Some(order_facts(o)),
                None => None,
            };
            let mut results: Vec<Option<OrderFacts>> = Vec::new();
            results.push(facts);
            let notified = notify_results(&results, &cluster_url);
            assert(results@ =~= seq![facts]);
            return (SetStateSaga { slug, state, track_id, comment, committer_role, stage: 2, cluster_url },
                Step::Done(StateSet { order: found, notified }));
        }
        match found {
            None => (SetStateSaga { slug, state, track_id, comment, committer_role, stage: 2, cluster_url }, Step::Fail(Error::NotFound)),
            Some(o) => {
                if o.state == state {
                    let mut results: Vec<Option<OrderFacts>> = Vec::new();
                    results.push(None);
                    let notified = notify_results(&results, &cluster_url);
                    assert(results@ =~= seq![None]);
                    (SetStateSaga { slug, state, track_id, comment, committer_role, stage: 2, cluster_url },
                        Step::Done(StateSet { order: None, notified }))
                } else {
                    let payload = UpdateStatePayload { state, track_id, comment, committer_role };
                    let call = ApiCall::Orders(OrdersCall::SetOrderState { initiator: None, order: OrderIdentifier::Slug(slug), payload });
                    (SetStateSaga { slug, state, track_id: None, comment: None, committer_role, stage: 1, cluster_url }, Step::Call(call))
                }
            },
        }
    }
}

/// The call that sets the payment state of an order, on behalf of whoever
/// made the request.
pub fn set_payment_state_call(order_id: OrderId, payload: OrderPaymentStateRequest) -> (r: ApiCall)
    ensures
        r == ApiCall::Billing(BillingCall::SetPaymentState { initiator: None, order_id, payload }),
{
    ApiCall::Billing(BillingCall::SetPaymentState { initiator: None, order_id, payload })
}

}
