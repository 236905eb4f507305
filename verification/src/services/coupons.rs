//! The coupons that new orders use.
use vstd::prelude::*;

use crate::ids::{CouponId, UserId};
use crate::services::order_notify::OrderFacts;

verus! {

/// For each order with a coupon, in order, the coupon and the customer.
pub open spec fn coupon_pairs(orders: Seq<OrderFacts>) -> Seq<(CouponId, UserId)>
    decreases orders.len(),
{
    if orders.len() == 0 {
        seq![]
    } else {
        let rest = coupon_pairs(orders.drop_last());
        match orders.last().coupon_id {
            Some(c) => rest.push((c, orders.last().customer)),
            None => rest,
        }
    }
}

/// The customer of the last pair with coupon `c`, if any: a later pair
/// overrides an earlier one, as in a map built from the pairs.
pub open spec fn last_user(pairs: Seq<(CouponId, UserId)>, c: CouponId) -> Option<UserId>
    decreases pairs.len(),
{
    if pairs.len() == 0 {
        None
    } else if pairs.last().0 == c {
        Some(pairs.last().1)
    } else {
        last_user(pairs.drop_last(), c)
    }
}

/// Whether `uses` lists each coupon of the pairs exactly once, with the
/// customer of its last pair.
pub open spec fn coupon_uses_ok(uses: Seq<(CouponId, UserId)>, pairs: Seq<(CouponId, UserId)>) -> bool {
    &&& forall|a: int, b: int| 0 <= a < b < uses.len() ==> uses[a].0 != uses[b].0
    &&& forall|j: int| 0 <= j < uses.len() ==> last_user(pairs, #[trigger] uses[j].0) == Some(uses[j].1)
    &&& forall|c: CouponId| last_user(pairs, c) is Some ==> exists|j: int| 0 <= j < uses.len() && #[trigger] uses[j].0 == c
}

/// A coupon is committed for the customer of the last order that has it;
/// a coupon that no order has is not committed.
pub proof fn lemma_coupon_goes_to_last_customer(orders: Seq<OrderFacts>, c: CouponId)
    ensures
        (forall|i: int| 0 <= i < orders.len() ==> #[trigger] orders[i].coupon_id != Some(c))
            ==> last_user(coupon_pairs(orders), c) is None,
        forall|i: int|
            0 <= i < orders.len() && #[trigger] orders[i].coupon_id == Some(c)
                && (forall|j: int| i < j < orders.len() ==> orders[j].coupon_id != Some(c))
                ==> last_user(coupon_pairs(orders), c) == Some(orders[i].customer),
    decreases orders.len(),
{
    if orders.len() > 0 {
        let n = orders.len() - 1;
        let front = orders.drop_last();
        let o = orders.last();
        lemma_coupon_goes_to_last_customer(front, c);
        let rest = coupon_pairs(front);
        if o.coupon_id == Some(c) {
            assert(coupon_pairs(orders) == rest.push((c, o.customer)));
            assert(rest.push((c, o.customer)).last() == (c, o.customer));
            assert forall|i: int|
                0 <= i < orders.len() && #[trigger] orders[i].coupon_id == Some(c)
                    && (forall|j: int| i < j < orders.len() ==> orders[j].coupon_id != Some(c))
                    implies last_user(coupon_pairs(orders), c) == Some(orders[i].customer) by {
                if i < n {
                    assert(orders[n].coupon_id == Some(c));
                }
            }
        } else {
            match o.coupon_id {
                Some(d) => {
                    let pushed = rest.push((d, o.customer));
                    assert(coupon_pairs(orders) == pushed);
                    assert(pushed.last().0 != c);
                    assert(pushed.drop_last() =~= rest);
                },
                None => {
                    assert(coupon_pairs(orders) == rest);
                },
            }
            assert(last_user(coupon_pairs(orders), c) == last_user(rest, c));
            assert forall|i: int|
                0 <= i < orders.len() && #[trigger] orders[i].coupon_id == Some(c)
                    && (forall|j: int| i < j < orders.len() ==> orders[j].coupon_id != Some(c))
                    implies last_user(coupon_pairs(orders), c) == Some(orders[i].customer) by {
                assert(i < n);
                assert(front[i] == orders[i]);
                assert forall|j: int| i < j < front.len() implies front[j].coupon_id != Some(c) by {
                    assert(front[j] == orders[j]);
                }
            }
            if forall|i: int| 0 <= i < orders.len() ==> #[trigger] orders[i].coupon_id != Some(c) {
                assert forall|i: int| 0 <= i < front.len() implies #[trigger] front[i].coupon_id != Some(c) by {
                    assert(front[i] == orders[i]);
                }
            }
        }
    }
}

/// The coupons to commit for new orders: each coupon once, for the customer
/// of the last order that has it, in the order in which the coupons first
/// appear.
pub fn coupon_uses(orders: &Vec<OrderFacts>) -> (r: Vec<(CouponId, UserId)>)
    ensures
        coupon_uses_ok(r@, coupon_pairs(orders@)),
{
    let mut r: Vec<(CouponId, UserId)> = Vec::new();
    let mut i: usize = 0;
    while i < orders.len()
        invariant
            i <= orders.len(),
            coupon_uses_ok(r@, coupon_pairs(orders@.take(i as int))),
        decreases orders.len() - i,
    {
        let ghost before = coupon_pairs(orders@.take(i as int));
        assert(orders@.take(i as int + 1).drop_last() =~= orders@.take(i as int));
        let o = orders[i];
        match o.coupon_id {
            None => {
                assert(coupon_pairs(orders@.take(i as int + 1)) == before);
            },
            Some(c) => {
                let ghost after = before.push((c, o.customer));
                assert(coupon_pairs(orders@.take(i as int + 1)) == after);
                assert(after.drop_last() =~= before);
                let mut j: usize = 0;
                while j < r.len() && r[j].0 != c
                    invariant
                        j <= r.len(),
                        forall|a: int| 0 <= a < j ==> r@[a].0 != c,
                    decreases r.len() - j,
                {
                    j = j + 1;
                }
                if j < r.len() {
                    assert(j < r.len() && r@[j as int].0 == c);
                    let ghost old_r = r@;
                    r.set(j, (c, o.customer));
                    assert forall|a: int, b: int| 0 <= a < b < r@.len() implies r@[a].0 != r@[b].0 by {
                        assert(old_r[a].0 != old_r[b].0);
                    }
                    assert forall|q: int| 0 <= q < r@.len() implies last_user(after, #[trigger] r@[q].0) == Some(r@[q].1) by {
                        if q != j {
                            assert(old_r[q].0 != c);
                            assert(last_user(before, old_r[q].0) == Some(old_r[q].1));
                        }
                    }
                    assert forall|k: CouponId| last_user(after, k) is Some implies exists|q: int| 0 <= q < r@.len() && #[trigger] r@[q].0 == k by {
                        if k == c {
                            assert(r@[j as int].0 == k);
                        } else {
                            assert(last_user(before, k) is Some);
                            let q = choose|q: int| 0 <= q < old_r.len() && #[trigger] old_r[q].0 == k;
                            assert(r@[q].0 == k);
                        }
                    }
                } else {
                    let ghost old_r = r@;
                    r.push((c, o.customer));
                    assert forall|a: int, b: int| 0 <= a < b < r@.len() implies r@[a].0 != r@[b].0 by {
                        if b < old_r.len() {
                            assert(old_r[a].0 != old_r[b].0);
                        } else {
                            assert(old_r[a].0 != c);
                        }
                    }
                    assert forall|q: int| 0 <= q < r@.len() implies last_user(after, #[trigger] r@[q].0) == Some(r@[q].1) by {
                        if q < old_r.len() {
                            assert(old_r[q].0 != c);
                            assert(last_user(before, old_r[q].0) == Some(old_r[q].1));
                        }
                    }
                    assert forall|k: CouponId| last_user(after, k) is Some implies exists|q: int| 0 <= q < r@.len() && #[trigger] r@[q].0 == k by {
                        if k == c {
                            assert(r@[old_r.len() as int].0 == k);
                        } else {
                            assert(last_user(before, k) is Some);
                            let q = choose|q: int| 0 <= q < old_r.len() && #[trigger] old_r[q].0 == k;
                            assert(r@[q].0 == k);
                        }
                    }
                }
            },
        }
        i = i + 1;
    }
    assert(orders@.take(orders.len() as int) =~= orders@);
    r
}

}
