use vstd::prelude::*;

verus! {

/// Identifiers that the marketplace's services number.
pub type UserId = i32;
pub type StoreId = i32;
pub type BaseProductId = i32;
pub type ProductId = i32;
pub type OrderSlug = i32;
pub type CouponId = i32;
pub type CategoryId = i32;

/// Identifiers that the marketplace's services draw at random, as UUIDs;
/// the library holds a UUID as the 128-bit number that it writes.
pub type Uuid = u128;
pub type OrderId = u128;
pub type RoleId = u128;
pub type RoleEntryId = u128;
pub type SagaId = u128;
pub type ConversionId = u128;
pub type WarehouseId = u128;
pub type MerchantId = u128;

/// The lower-case hexadecimal digit that writes `d`, for `d` below 16.
pub open spec fn hex_digit(d: u128) -> char {
    if d < 10 {
        ((d + 48) as u32) as char
    } else {
        ((d + 87) as u32) as char
    }
}

/// The `k`-th hexadecimal digit of a 128-bit number, from the most
/// significant one, for `k` below 32.
pub open spec fn uuid_nibble(id: u128, k: int) -> u128 {
    (id >> ((124 - 4 * k) as u128)) & 15
}

/// How many hyphens come before position `i` of a hyphenated UUID text.
pub open spec fn hyphens_before(i: int) -> int {
    if i < 8 {
        0
    } else if i < 13 {
        1
    } else if i < 18 {
        2
    } else if i < 23 {
        3
    } else {
        4
    }
}

/// The text by which `uuid` writes a UUID: its 32 lower-case hexadecimal
/// digits, most significant first, in groups of 8, 4, 4, 4 and 12 joined by
/// hyphens.
pub open spec fn uuid_text(id: u128) -> Seq<char> {
    Seq::new(36, |i: int|
        if i == 8 || i == 13 || i == 18 || i == 23 {
            '-'
        } else {
            hex_digit(uuid_nibble(id, i - hyphens_before(i)))
        })
}

/// The UUID that `uuid` reads from a text, if the text writes one.
pub uninterp spec fn uuid_of_text(s: Seq<char>) -> Option<u128>;

/// A fresh random UUID, drawn by `uuid::Uuid::new_v4`; nothing is promised
/// of its value.
#[verifier::external_body]
pub(crate) fn fresh_uuid() -> (r: u128) {
    uuid::Uuid::new_v4().as_u128()
}

/// Writes a UUID with `uuid::Uuid`'s `Display`, which gives the
/// hyphenated lower-case text that `uuid_text` states.
#[verifier::external_body]
pub(crate) fn uuid_to_string(id: u128) -> (r: String)
    ensures
        r@ == uuid_text(id),
{
    uuid::Uuid::from_u128(id).to_string()
}

/// Reads a UUID with `uuid::Uuid::parse_str`; what it accepts is given the
/// name `uuid_of_text`.
#[verifier::external_body]
pub(crate) fn parse_uuid(s: &str) -> (r: Option<u128>)
    ensures
        r == uuid_of_text(s@),
{
    uuid::Uuid::parse_str(s).ok().map(|u| u.as_u128())
}

}
