//! The e-mails that changes of orders cause: to the customer and to the
//! store, each after looking up its address. Their failures fail nothing.
use vstd::prelude::*;

use crate::http::Initiator;
use crate::ids::{OrderSlug, StoreId, UserId};
use crate::microservice::{kind_of_reply, ApiCall, NotificationsCall, Reply, ReplyKind, StoresCall, UsersCall};
use crate::models::create_order::Order;
use crate::models::notifications::{OrderCreateForStore, OrderCreateForUser, OrderUpdateStateForStore, OrderUpdateStateForUser};
use crate::models::resources::{order_state_text, OrderState};
use crate::models::visibility::Visibility;
use crate::services::common::Outcome;
use crate::services::notify::{copy_text, email_user, email_user_of, email_user_view};
use crate::text::{i32_to_string, int_text};

verus! {

/// What the coordinator reads of an order.
#[derive(Clone, Copy, Debug, PartialEq, Eq, Structural)]
pub struct OrderFacts {
    pub slug: OrderSlug,
    pub customer: UserId,
    pub store: StoreId,
    pub product: crate::ids::ProductId,
    pub quantity: i32,
    pub state: OrderState,
    pub coupon_id: Option<crate::ids::CouponId>,
    pub id: crate::ids::OrderId,
}

pub open spec fn facts_of(o: Order) -> OrderFacts {
    OrderFacts {
        slug: o.slug,
        customer: o.customer,
        store: o.store,
        product: o.product,
        quantity: o.quantity,
        state: o.state,
        coupon_id: o.coupon_id,
        id: o.id,
    }
}

/// What the coordinator reads of an order.
pub fn order_facts(o: &Order) -> (r: OrderFacts)
    ensures
        r == facts_of(*o),
{
    OrderFacts {
        slug: o.slug,
        customer: o.customer,
        store: o.store,
        product: o.product,
        quantity: o.quantity,
        state: o.state,
        coupon_id: o.coupon_id,
        id: o.id,
    }
}

/// The e-mails about orders.
#[derive(Clone, Copy, Debug, PartialEq, Eq, Structural)]
pub enum NotifyKind {
    UserOrderCreate,
    UserOrderUpdate,
    StoreOrderCreate,
    StoreOrderUpdate,
}

/// One e-mail to send: its kind, the user or store it goes to, and the
/// order it is about.
#[derive(Clone, Copy, Debug, PartialEq, Eq, Structural)]
pub struct NotifyTask {
    pub kind: NotifyKind,
    pub to: i32,
    pub slug: OrderSlug,
    pub state: OrderState,
}

/// Whether an order in this state is one that nobody is told about yet.
pub open spec fn is_quiet_state(s: OrderState) -> bool {
    s == OrderState::New || s == OrderState::PaymentAwaited || s == OrderState::TransactionPending
        || s == OrderState::AmountExpired
}

/// The e-mail to the customer about an order: none in a quiet state, the
/// creation e-mail once it is paid, an update e-mail in the later states.
pub open spec fn customer_task(o: OrderFacts) -> Option<NotifyTask> {
    if is_quiet_state(o.state) {
        None
    } else if o.state == OrderState::Paid {
        Some(NotifyTask { kind: NotifyKind::UserOrderCreate, to: o.customer, slug: o.slug, state: o.state })
    } else {
        Some(NotifyTask { kind: NotifyKind::UserOrderUpdate, to: o.customer, slug: o.slug, state: o.state })
    }
}

/// The e-mail to the store about an order, by the same rule.
pub open spec fn store_task(o: OrderFacts) -> Option<NotifyTask> {
    if is_quiet_state(o.state) {
        None
    } else if o.state == OrderState::Paid {
        Some(NotifyTask { kind: NotifyKind::StoreOrderCreate, to: o.store, slug: o.slug, state: o.state })
    } else {
        Some(NotifyTask { kind: NotifyKind::StoreOrderUpdate, to: o.store, slug: o.slug, state: o.state })
    }
}

pub open spec fn opt_seq(t: Option<NotifyTask>) -> Seq<NotifyTask> {
    match t {
        Some(x) => seq![x],
        None => seq![],
    }
}

/// The e-mails that a list of (possibly absent) orders causes: for each
/// order in turn, the one to the customer and then the one to the store.
pub open spec fn order_tasks(orders: Seq<Option<OrderFacts>>) -> Seq<NotifyTask>
    decreases orders.len(),
{
    if orders.len() == 0 {
        seq![]
    } else {
        order_tasks(orders.drop_last()) + match orders.last() {
            Some(o) => opt_seq(customer_task(o)) + opt_seq(store_task(o)),
            None => seq![],
        }
    }
}

/// The e-mails of one order, by its state: none while it is new, awaits
/// its payment, has its transaction pending or its amount expired; once it
/// is paid, the creation e-mail to its customer and then the creation
/// e-mail to its store; in each later state (in processing, cancelled,
/// sent, delivered, received, complete), the update e-mail to its customer
/// and then the update e-mail to its store. Each e-mail names the order's
/// slug and state.
pub proof fn lemma_order_emails_by_state(o: OrderFacts)
    ensures
        (o.state == OrderState::New || o.state == OrderState::PaymentAwaited
            || o.state == OrderState::TransactionPending || o.state == OrderState::AmountExpired)
            ==> order_tasks(seq![Some(o)]) == Seq::<NotifyTask>::empty(),
        o.state == OrderState::Paid ==> order_tasks(seq![Some(o)]) == seq![
            NotifyTask { kind: NotifyKind::UserOrderCreate, to: o.customer, slug: o.slug, state: OrderState::Paid },
            NotifyTask { kind: NotifyKind::StoreOrderCreate, to: o.store, slug: o.slug, state: OrderState::Paid },
        ],
        (o.state == OrderState::InProcessing || o.state == OrderState::Cancelled || o.state == OrderState::Sent
            || o.state == OrderState::Delivered || o.state == OrderState::Received || o.state == OrderState::Complete)
            ==> order_tasks(seq![Some(o)]) == seq![
            NotifyTask { kind: NotifyKind::UserOrderUpdate, to: o.customer, slug: o.slug, state: o.state },
            NotifyTask { kind: NotifyKind::StoreOrderUpdate, to: o.store, slug: o.slug, state: o.state },
        ],
        order_tasks(seq![None::<OrderFacts>]) == Seq::<NotifyTask>::empty(),
{
    assert(order_tasks(Seq::<Option<OrderFacts>>::empty()) =~= Seq::<NotifyTask>::empty());
    let one = seq![Some(o)];
    assert(one.len() == 1 && one.last() == Some(o));
    assert(one.drop_last() =~= Seq::<Option<OrderFacts>>::empty());
    let none = seq![None::<OrderFacts>];
    assert(none.len() == 1 && none.last() == None::<OrderFacts>);
    assert(none.drop_last() =~= Seq::<Option<OrderFacts>>::empty());
    assert(order_tasks(one) =~= opt_seq(customer_task(o)) + opt_seq(store_task(o)));
    assert(order_tasks(none) =~= Seq::<NotifyTask>::empty());
}

/// The e-mails of a list of orders are those of its first part followed by
/// those of the rest: each order's e-mails come in the order's place.
pub proof fn lemma_order_emails_concat(a: Seq<Option<OrderFacts>>, b: Seq<Option<OrderFacts>>)
    ensures
        order_tasks(a + b) == order_tasks(a) + order_tasks(b),
    decreases b.len(),
{
    if b.len() == 0 {
        assert(a + b =~= a);
        assert(order_tasks(b) =~= Seq::<NotifyTask>::empty());
        assert(order_tasks(a) + order_tasks(b) =~= order_tasks(a));
    } else {
        let b0 = b.drop_last();
        assert((a + b).drop_last() =~= a + b0);
        assert((a + b).last() == b.last());
        lemma_order_emails_concat(a, b0);
        let tail = match b.last() {
            Some(o) => opt_seq(customer_task(o)) + opt_seq(store_task(o)),
            None => Seq::<NotifyTask>::empty(),
        };
        assert(order_tasks(a + b) == order_tasks(a + b0) + tail);
        assert(order_tasks(b) == order_tasks(b0) + tail);
        assert(order_tasks(a + b) =~= order_tasks(a) + order_tasks(b));
    }
}

fn customer_task_of(o: OrderFacts) -> (r: Option<NotifyTask>)
    ensures
        r == customer_task(o),
{
    match o.state {
        OrderState::New | OrderState::PaymentAwaited | OrderState::TransactionPending | OrderState::AmountExpired => None,
        OrderState::Paid => Some(NotifyTask { kind: NotifyKind::UserOrderCreate, to: o.customer, slug: o.slug, state: o.state }),
        _ => Some(NotifyTask { kind: NotifyKind::UserOrderUpdate, to: o.customer, slug: o.slug, state: o.state }),
    }
}

fn store_task_of(o: OrderFacts) -> (r: Option<NotifyTask>)
    ensures
        r == store_task(o),
{
    match o.state {
        OrderState::New | OrderState::PaymentAwaited | OrderState::TransactionPending | OrderState::AmountExpired => None,
        OrderState::Paid => Some(NotifyTask { kind: NotifyKind::StoreOrderCreate, to: o.store, slug: o.slug, state: o.state }),
        _ => Some(NotifyTask { kind: NotifyKind::StoreOrderUpdate, to: o.store, slug: o.slug, state: o.state }),
    }
}

/// The e-mails that a list of orders causes.
pub fn notification_tasks(orders: &Vec<Option<OrderFacts>>) -> (r: Vec<NotifyTask>)
    ensures
        r@ == order_tasks(orders@),
{
    let mut r: Vec<NotifyTask> = Vec::new();
    let mut i: usize = 0;
    while i < orders.len()
        invariant
            i <= orders.len(),
            r@ == order_tasks(orders@.take(i as int)),
        decreases orders.len() - i,
    {
        assert(orders@.take(i as int + 1).drop_last() =~= orders@.take(i as int));
        let ghost before = r@;
        match orders[i] {
            Some(o) => {
                match customer_task_of(o) {
                    Some(t) => r.push(t),
                    None => {},
                }
                match store_task_of(o) {
                    Some(t) => r.push(t),
                    None => {},
                }
            },
            None => {},
        }
        assert(r@ =~= order_tasks(orders@.take(i as int + 1)));
        i = i + 1;
    }
    assert(orders@.take(orders.len() as int) =~= orders@);
    r
}

/// The call that looks up the address of an e-mail's recipient: the user on
/// the user's own behalf, or the active store.
pub open spec fn lookup_call(t: NotifyTask) -> ApiCall {
    match t.kind {
        NotifyKind::UserOrderCreate | NotifyKind::UserOrderUpdate =>
            ApiCall::Users(UsersCall::Get { initiator: Some(Initiator::User(t.to)), user_id: t.to }),
        _ => ApiCall::Stores(StoresCall::Get { store_id: t.to, visibility: Visibility::Active }),
    }
}

pub open spec fn is_user_task(t: NotifyTask) -> bool {
    t.kind == NotifyKind::UserOrderCreate || t.kind == NotifyKind::UserOrderUpdate
}

/// The address of an order's customer is looked up in users, on the
/// customer's own behalf; that of its store among the active stores.
pub proof fn lemma_order_email_lookups(o: OrderFacts)
    requires
        !is_quiet_state(o.state),
    ensures
        order_tasks(seq![Some(o)]).len() == 2,
        lookup_call(order_tasks(seq![Some(o)])[0])
            == ApiCall::Users(UsersCall::Get { initiator: Some(Initiator::User(o.customer)), user_id: o.customer }),
        lookup_call(order_tasks(seq![Some(o)])[1])
            == ApiCall::Stores(StoresCall::Get { store_id: o.store, visibility: Visibility::Active }),
{
    lemma_order_emails_by_state(o);
}

/// Whether `call` is the e-mail of task `t` to a user with addressee `to`.
pub open spec fn user_send_ok(t: NotifyTask, to: (Seq<char>, Seq<char>, Seq<char>), cluster: Seq<char>, call: ApiCall) -> bool {
    match t.kind {
        NotifyKind::UserOrderCreate => call matches ApiCall::Notifications(NotificationsCall::OrderCreateForUser { initiator, payload })
            && initiator == Initiator::Superadmin && email_user_view(payload.user) == to
            && payload.order_slug@ == int_text(t.slug as int) && payload.cluster_url@ == cluster,
        _ => call matches ApiCall::Notifications(NotificationsCall::OrderUpdateStateForUser { initiator, payload })
            && initiator == Initiator::Superadmin && email_user_view(payload.user) == to
            && payload.order_slug@ == int_text(t.slug as int) && payload.order_state@ == order_state_text(t.state)
            && payload.cluster_url@ == cluster,
    }
}

/// Whether `call` is the e-mail of task `t` to a store with id `store_id`
/// and address `email`. A creation e-mail names the store by the id of the
/// task, an update e-mail by the id of the store found.
pub open spec fn store_send_ok(t: NotifyTask, store_id: StoreId, email: Seq<char>, cluster: Seq<char>, call: ApiCall) -> bool {
    match t.kind {
        NotifyKind::StoreOrderCreate => call matches ApiCall::Notifications(NotificationsCall::OrderCreateForStore { initiator, payload })
            && initiator == Initiator::Superadmin && payload.store_email@ == email
            && payload.store_id@ == int_text(t.to as int) && payload.order_slug@ == int_text(t.slug as int)
            && payload.cluster_url@ == cluster,
        _ => call matches ApiCall::Notifications(NotificationsCall::OrderUpdateStateForStore { initiator, payload })
            && initiator == Initiator::Superadmin && payload.store_email@ == email
            && payload.store_id@ == int_text(store_id as int) && payload.order_slug@ == int_text(t.slug as int)
            && payload.order_state@ == order_state_text(t.state) && payload.cluster_url@ == cluster,
    }
}

/// The sending of the e-mails about orders, one after the other.
#[derive(Debug)]
pub struct OrderNotifier {
    tasks: Vec<NotifyTask>,
    next: usize,
    sending: bool,
    cluster_url: String,
}

impl OrderNotifier {
    pub closed spec fn tasks(&self) -> Seq<NotifyTask> {
        self.tasks@
    }

    /// The index of the e-mail under way (or of the next one).
    pub closed spec fn next(&self) -> nat {
        self.next as nat
    }

    /// Whether the e-mail under way is being sent (rather than its recipient
    /// looked up).
    pub closed spec fn sending(&self) -> bool {
        self.sending
    }

    pub closed spec fn cluster_url(&self) -> Seq<char> {
        self.cluster_url@
    }

    pub closed spec fn wf(&self) -> bool {
        self.next <= self.tasks@.len()
    }

    /// Whether every e-mail has been dealt with.
    pub open spec fn done(&self) -> bool {
        self.next() >= self.tasks().len()
    }

    pub open spec fn awaited(&self) -> ReplyKind {
        if self.sending() {
            ReplyKind::Ignored
        } else if is_user_task(self.tasks()[self.next() as int]) {
            ReplyKind::MaybeUser
        } else {
            ReplyKind::MaybeStore
        }
    }

    /// Whether the step under way waits for an answer of kind `k`.
    pub fn awaits(&self, k: ReplyKind) -> (r: bool)
        requires
            self.wf(),
            !self.done(),
        ensures
            r == (k == self.awaited()),
    {
        if self.sending {
            k == ReplyKind::Ignored
        } else {
            match self.tasks[self.next].kind {
                NotifyKind::UserOrderCreate | NotifyKind::UserOrderUpdate => k == ReplyKind::MaybeUser,
                _ => k == ReplyKind::MaybeStore,
            }
        }
    }

    /// A sender of the e-mails that `orders` cause, with links to `cluster_url`;
    /// it also gives the first call to make, if there is an e-mail at all.
    pub fn new(orders: &Vec<Option<OrderFacts>>, cluster_url: String) -> (r: (OrderNotifier, Option<ApiCall>))
        ensures
            r.0.wf(),
            r.0.tasks() == order_tasks(orders@),
            r.0.next() == 0,
            !r.0.sending(),
            r.0.cluster_url() == cluster_url@,
            r.0.done() ==> r.1 is None,
            !r.0.done() ==> r.1 == Some(lookup_call(r.0.tasks()[0])),
    {
        let tasks = notification_tasks(orders);
        let n = OrderNotifier { tasks, next: 0, sending: false, cluster_url };
        let call = n.lookup_next();
        (n, call)
    }

    fn lookup_next(&self) -> (r: Option<ApiCall>)
        requires
            self.wf(),
        ensures
            self.done() ==> r is None,
            !self.done() ==> r == Some(lookup_call(self.tasks()[self.next() as int])),
    {
        if self.next >= self.tasks.len() {
            return None;
        }
        let t = self.tasks[self.next];
        match t.kind {
            NotifyKind::UserOrderCreate | NotifyKind::UserOrderUpdate =>
                Some(ApiCall::Users(UsersCall::Get { initiator: Some(Initiator::User(t.to)), user_id: t.to })),
            _ => Some(ApiCall::Stores(StoresCall::Get { store_id: t.to, visibility: Visibility::Active })),
        }
    }

    /// Takes the outcome of the call under way and gives the next call, if
    /// any. A recipient that was found gets the e-mail (a store only where it
    /// has an address); a recipient that was not found, a failed look-up, and
    /// any outcome of a sending move on to the next e-mail.
    pub fn on_outcome(self, outcome: Outcome) -> (r: (OrderNotifier, Option<ApiCall>))
        requires
            self.wf(),
            !self.done(),
            outcome matches Ok(reply) ==> kind_of_reply(reply) == self.awaited(),
        ensures
            r.0.wf(),
            r.0.tasks() == self.tasks(),
            r.0.cluster_url() == self.cluster_url(),
            ({
                let t = self.tasks()[self.next() as int];
                let moved_on = r.0.next() == self.next() + 1 && !r.0.sending()
                    && (r.0.done() ==> r.1 is None)
                    && (!r.0.done() ==> r.1 == Some(lookup_call(r.0.tasks()[r.0.next() as int])));
                if self.sending() {
                    moved_on
                } else {
                    match outcome {
                        Ok(Reply::MaybeUser(Some(u))) => r.0.next() == self.next() && r.0.sending()
                            && (r.1 matches Some(c) && user_send_ok(t, email_user_of(u), self.cluster_url(), c)),
                        Ok(Reply::MaybeStore(Some(s))) => match s.email {
                            Some(e) => r.0.next() == self.next() && r.0.sending()
                                && (r.1 matches Some(c) && store_send_ok(t, s.id, e@, self.cluster_url(), c)),
                            None => moved_on,
                        },
                        _ => moved_on,
                    }
                }
            }),
    {
        assert(self.next < self.tasks@.len());
        let OrderNotifier { tasks, next, sending, cluster_url } = self;
        assert(next < tasks.len());
        if sending {
            let n = OrderNotifier { tasks, next: next + 1, sending: false, cluster_url };
            let call = n.lookup_next();
            return (n, call);
        }
        let t = tasks[next];
        match outcome {
            Ok(Reply::MaybeUser(Some(u))) => {
                let user = email_user(&u);
                let order_slug = i32_to_string(t.slug);
                let cluster = copy_text(&cluster_url);
                let call = match t.kind {
                    NotifyKind::UserOrderCreate => ApiCall::Notifications(NotificationsCall::OrderCreateForUser {
                        initiator: Initiator::Superadmin,
                        payload: OrderCreateForUser { user, order_slug, cluster_url: cluster },
                    }),
                    _ => ApiCall::Notifications(NotificationsCall::OrderUpdateStateForUser {
                        initiator: Initiator::Superadmin,
                        payload: OrderUpdateStateForUser { user, order_slug, order_state: t.state.as_str().to_owned(), cluster_url: cluster },
                    }),
                };
                (OrderNotifier { tasks, next, sending: true, cluster_url }, Some(call))
            },
            Ok(Reply::MaybeStore(Some(s))) => {
                match &s.email {
                    Some(e) => {
                        let order_slug = i32_to_string(t.slug);
                        let cluster = copy_text(&cluster_url);
                        let call = match t.kind {
                            NotifyKind::StoreOrderCreate => ApiCall::Notifications(NotificationsCall::OrderCreateForStore {
                                initiator: Initiator::Superadmin,
                                payload: OrderCreateForStore { store_email: e.clone(), store_id: i32_to_string(t.to), order_slug, cluster_url: cluster },
                            }),
                            _ => ApiCall::Notifications(NotificationsCall::OrderUpdateStateForStore {
                                initiator: Initiator::Superadmin,
                                payload: OrderUpdateStateForStore {
                                    store_email: e.clone(),
                                    store_id: i32_to_string(s.id),
                                    order_slug,
                                    order_state: t.state.as_str().to_owned(),
                                    cluster_url: cluster,
                                },
                            }),
                        };
                        (OrderNotifier { tasks, next, sending: true, cluster_url }, Some(call))
                    },
                    None => {
                        let n = OrderNotifier { tasks, next: next + 1, sending: false, cluster_url };
                        let call = n.lookup_next();
                        (n, call)
                    },
                }
            },
            _ => {
                let n = OrderNotifier { tasks, next: next + 1, sending: false, cluster_url };
                let call = n.lookup_next();
                (n, call)
            },
        }
    }
}

}
