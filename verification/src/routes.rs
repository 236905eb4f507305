use vstd::prelude::*;

use crate::ids::{uuid_of_text, parse_uuid, BaseProductId, OrderId, OrderSlug, ProductId, StoreId};
use crate::text::{between, chars_equal, cut_between, decimal_value, is_digits, all_digits, parse_i32_digits, text_chars};

verus! {

/// The endpoints of the saga coordinator.
#[derive(Clone, Copy, Debug, PartialEq, Eq, Structural)]
pub enum Route {
    CreateAccount,
    VerifyEmail,
    VerifyEmailApply,
    ResetPassword,
    ResetPasswordApply,
    CreateStore,
    CreateOrder,
    BuyNow,
    OrdersUpdateStateByBilling,
    OrdersManualSetState { order_slug: OrderSlug },
    StoreModerate,
    StoreModeration(StoreId),
    StoreDeactivate(StoreId),
    BaseProductUpdate(BaseProductId),
    BaseProductCreateWithVariants,
    BaseProductModerate,
    BaseProductDeactivate(BaseProductId),
    BaseProductUpsertShipping(BaseProductId),
    BaseProductModeration(BaseProductId),
    ProductDeactivate(ProductId),
    OrdersSetPaymentState { order_id: OrderId },
}

/// The number written by the digits between `prefix` and `suffix` in `path`,
/// when that part is a run of ASCII digits whose number fits an `i32`.
pub open spec fn numeric_param(path: Seq<char>, prefix: Seq<char>, suffix: Seq<char>) -> Option<i32> {
    match between(path, prefix, suffix) {
        Some(m) => if is_digits(m) && decimal_value(m) <= i32::MAX {
            Some(decimal_value(m) as i32)
        } else {
            None
        },
        None => None,
    }
}

/// Whether the part of `path` between `prefix` and `suffix` is a non-empty run
/// of ASCII digits.
pub open spec fn has_numeric_param(path: Seq<char>, prefix: Seq<char>, suffix: Seq<char>) -> bool {
    match between(path, prefix, suffix) {
        Some(m) => is_digits(m),
        None => false,
    }
}

/// Whether a character may stand in an order's identifier in a path.
pub open spec fn is_id_char(c: char) -> bool {
    ('a' <= c && c <= 'z') || ('A' <= c && c <= 'Z') || ('0' <= c && c <= '9') || c == '-'
}

/// Whether a text is a non-empty run of letters, digits and hyphens.
pub open spec fn is_id_text(s: Seq<char>) -> bool {
    s.len() > 0 && forall|i: int| 0 <= i < s.len() ==> is_id_char(#[trigger] s[i])
}

/// The endpoint that a request path names, if any: a fixed path, or a path
/// with one parameter (a number that must fit an `i32`, or an order's UUID).
pub open spec fn route_of_path(p: Seq<char>) -> Option<Route> {
    if p == "/create_account"@ {
        Some(Route::CreateAccount)
    } else if p == "/email_verify"@ {
        Some(Route::VerifyEmail)
    } else if p == "/email_verify_apply"@ {
        Some(Route::VerifyEmailApply)
    } else if p == "/reset_password"@ {
        Some(Route::ResetPassword)
    } else if p == "/reset_password_apply"@ {
        Some(Route::ResetPasswordApply)
    } else if p == "/create_store"@ {
        Some(Route::CreateStore)
    } else if p == "/create_order"@ {
        Some(Route::CreateOrder)
    } else if p == "/buy_now"@ {
        Some(Route::BuyNow)
    } else if p == "/stores/moderate"@ {
        Some(Route::StoreModerate)
    } else if has_numeric_param(p, "/stores/"@, "/moderation"@) {
        match numeric_param(p, "/stores/"@, "/moderation"@) {
            Some(id) => Some(Route::StoreModeration(id)),
            None => None,
        }
    } else if has_numeric_param(p, "/stores/"@, "/deactivate"@) {
        match numeric_param(p, "/stores/"@, "/deactivate"@) {
            Some(id) => Some(Route::StoreDeactivate(id)),
            None => None,
        }
    } else if p == "/base_products/moderate"@ {
        Some(Route::BaseProductModerate)
    } else if has_numeric_param(p, "/base_products/"@, "/moderation"@) {
        match numeric_param(p, "/base_products/"@, "/moderation"@) {
            Some(id) => Some(Route::BaseProductModeration(id)),
            None => None,
        }
    } else if has_numeric_param(p, "/base_products/"@, "/deactivate"@) {
        match numeric_param(p, "/base_products/"@, "/deactivate"@) {
            Some(id) => Some(Route::BaseProductDeactivate(id)),
            None => None,
        }
    } else if has_numeric_param(p, "/base_products/"@, "/update"@) {
        match numeric_param(p, "/base_products/"@, "/update"@) {
            Some(id) => Some(Route::BaseProductUpdate(id)),
            None => None,
        }
    } else if p == "/base_products/create_with_variants"@ {
        Some(Route::BaseProductCreateWithVariants)
    } else if has_numeric_param(p, "/base_products/"@, "/upsert-shipping"@) {
        match numeric_param(p, "/base_products/"@, "/upsert-shipping"@) {
            Some(id) => Some(Route::BaseProductUpsertShipping(id)),
            None => None,
        }
    } else if has_numeric_param(p, "/products/"@, "/deactivate"@) {
        match numeric_param(p, "/products/"@, "/deactivate"@) {
            Some(id) => Some(Route::ProductDeactivate(id)),
            None => None,
        }
    } else if p == "/orders/update_state"@ {
        Some(Route::OrdersUpdateStateByBilling)
    } else if has_numeric_param(p, "/orders/"@, "/set_state"@) {
        match numeric_param(p, "/orders/"@, "/set_state"@) {
            Some(slug) => Some(Route::OrdersManualSetState { order_slug: slug }),
            None => None,
        }
    } else {
        match between(p, "/orders/"@, "/set_payment_state"@) {
            Some(m) => if is_id_text(m) {
                match uuid_of_text(m) {
                    Some(id) => Some(Route::OrdersSetPaymentState { order_id: id }),
                    None => None,
                }
            } else {
                None
            },
            None => None,
        }
    }
}

/// Whether a run of characters is made of letters, digits and hyphens only.
fn all_id_chars(s: &Vec<char>) -> (r: bool)
    ensures
        r == is_id_text(s@),
{
    if s.len() == 0 {
        return false;
    }
    let mut i: usize = 0;
    while i < s.len()
        invariant
            i <= s.len(),
            forall|j: int| 0 <= j < i ==> is_id_char(#[trigger] s@[j]),
        decreases s.len() - i,
    {
        let c = s[i];
        if !(('a' <= c && c <= 'z') || ('A' <= c && c <= 'Z') || ('0' <= c && c <= '9') || c == '-') {
            return false;
        }
        i = i + 1;
    }
    true
}

/// Outcome of matching one numeric-parameter pattern.
enum ParamMatch {
    NoMatch,
    Matched(Option<i32>),
}

fn match_numeric(path: &Vec<char>, prefix: &str, suffix: &str) -> (r: ParamMatch)
    ensures
        match r {
            ParamMatch::NoMatch => !has_numeric_param(path@, prefix@, suffix@),
            ParamMatch::Matched(v) => has_numeric_param(path@, prefix@, suffix@)
                && v == numeric_param(path@, prefix@, suffix@),
        },
{
    match cut_between(path, prefix, suffix) {
        Some(m) => {
            if all_digits(&m) {
                ParamMatch::Matched(parse_i32_digits(&m))
            } else {
                ParamMatch::NoMatch
            }
        },
        None => ParamMatch::NoMatch,
    }
}

/// The endpoint that a request path names, as the route table of the service
/// reads it.
pub fn parse_route(path: &str) -> (r: Option<Route>)
    ensures
        r == route_of_path(path@),
{
    let p = text_chars(path);
    if chars_equal(&p, "/create_account") {
        return Some(Route::CreateAccount);
    }
    if chars_equal(&p, "/email_verify") {
        return Some(Route::VerifyEmail);
    }
    if chars_equal(&p, "/email_verify_apply") {
        return Some(Route::VerifyEmailApply);
    }
    if chars_equal(&p, "/reset_password") {
        return Some(Route::ResetPassword);
    }
    if chars_equal(&p, "/reset_password_apply") {
        return Some(Route::ResetPasswordApply);
    }
    if chars_equal(&p, "/create_store") {
        return Some(Route::CreateStore);
    }
    if chars_equal(&p, "/create_order") {
        return Some(Route::CreateOrder);
    }
    if chars_equal(&p, "/buy_now") {
        return Some(Route::BuyNow);
    }
    if chars_equal(&p, "/stores/moderate") {
        return Some(Route::StoreModerate);
    }
    match match_numeric(&p, "/stores/", "/moderation") {
        ParamMatch::Matched(v) => return match v { Some(id) => Some(Route::StoreModeration(id)), None => None },
        ParamMatch::NoMatch => {},
    }
    match match_numeric(&p, "/stores/", "/deactivate") {
        ParamMatch::Matched(v) => return match v { Some(id) => Some(Route::StoreDeactivate(id)), None => None },
        ParamMatch::NoMatch => {},
    }
    if chars_equal(&p, "/base_products/moderate") {
        return Some(Route::BaseProductModerate);
    }
    match match_numeric(&p, "/base_products/", "/moderation") {
        ParamMatch::Matched(v) => return match v { Some(id) => Some(Route::BaseProductModeration(id)), None => None },
        ParamMatch::NoMatch => {},
    }
    match match_numeric(&p, "/base_products/", "/deactivate") {
        ParamMatch::Matched(v) => return match v { Some(id) => Some(Route::BaseProductDeactivate(id)), None => None },
        ParamMatch::NoMatch => {},
    }
    match match_numeric(&p, "/base_products/", "/update") {
        ParamMatch::Matched(v) => return match v { Some(id) => Some(Route::BaseProductUpdate(id)), None => None },
        ParamMatch::NoMatch => {},
    }
    if chars_equal(&p, "/base_products/create_with_variants") {
        return Some(Route::BaseProductCreateWithVariants);
    }
    match match_numeric(&p, "/base_products/", "/upsert-shipping") {
        ParamMatch::Matched(v) => return match v { Some(id) => Some(Route::BaseProductUpsertShipping(id)), None => None },
        ParamMatch::NoMatch => {},
    }
    match match_numeric(&p, "/products/", "/deactivate") {
        ParamMatch::Matched(v) => return match v { Some(id) => Some(Route::ProductDeactivate(id)), None => None },
        ParamMatch::NoMatch => {},
    }
    if chars_equal(&p, "/orders/update_state") {
        return Some(Route::OrdersUpdateStateByBilling);
    }
    match match_numeric(&p, "/orders/", "/set_state") {
        ParamMatch::Matched(v) => return match v { Some(slug) => Some(Route::OrdersManualSetState { order_slug: slug }), None => None },
        ParamMatch::NoMatch => {},
    }
    match cut_between(&p, "/orders/", "/set_payment_state") {
        Some(m) => {
            if all_id_chars(&m) {
                let prefix_len = "/orders/".unicode_len();
                let end = path.unicode_len() - "/set_payment_state".unicode_len();
                let segment = path.substring_char(prefix_len, end);
                match parse_uuid(segment) {
                    Some(id) => Some(Route::OrdersSetPaymentState { order_id: id }),
                    None => None,
                }
            } else {
                None
            }
        },
        None => None,
    }
}


/// The table of the coordinator's routes.
#[derive(Clone, Copy, Debug)]
pub struct RouteParser;

impl RouteParser {
    /// The endpoint that this table gives a request path.
    pub open spec fn routes(&self, path: Seq<char>) -> Option<Route> {
        route_of_path(path)
    }

    /// The endpoint that a request path names, if any.
    pub fn test(&self, path: &str) -> (r: Option<Route>)
        ensures
            r == self.routes(path@),
            r == route_of_path(path@),
    {
        parse_route(path)
    }
}

/// The table of the coordinator's routes.
pub fn create_route_parser() -> (r: RouteParser)
    ensures
        forall|p: Seq<char>| #[trigger] r.routes(p) == route_of_path(p),
{
    RouteParser
}

}
