//! Identifiers of plans, tasks, workers and channels.
//!
//! Every identifier is a UUID held by its 128-bit value.

use vstd::prelude::*;

verus! {

/// The 128-bit value of a UUID.
pub type Id = u128;

/// Draws a fresh identifier with `uuid::Uuid::new_v4`, read by its 128-bit
/// value (`Uuid::as_u128`). The value is random, so nothing is promised of it.
#[verifier::external_body]
pub(crate) fn new_id() -> (id: Id) {
    uuid::Uuid::new_v4().as_u128()
}

/// The current local time, `chrono::Local::now`, as milliseconds since the
/// Unix epoch (`DateTime::timestamp_millis`). It depends on the clock, so
/// nothing is promised of it.
#[verifier::external_body]
pub(crate) fn now_millis() -> (t: i64) {
    chrono::Local::now().timestamp_millis()
}

/// The lowercase hexadecimal digit of `d`, for `d < 16`.
pub open spec fn hex_digit(d: u128) -> char {
    if d < 10 {
        (48 + d) as char
    } else {
        (87 + d) as char
    }
}

/// The `k`-th hexadecimal digit of `id`, counted from the most significant.
pub open spec fn id_nibble(id: Id, k: int) -> u128 {
    (id >> ((124 - 4 * k) as u32)) & 0xf
}

/// How many hyphens the hyphenated form has before position `p`.
pub open spec fn hyphens_before(p: int) -> int {
    if p > 23 {
        4
    } else if p > 18 {
        3
    } else if p > 13 {
        2
    } else if p > 8 {
        1
    } else {
        0
    }
}

/// The hyphenated lowercase text of a UUID: its 32 hexadecimal digits, most
/// significant first, in groups of 8, 4, 4, 4 and 12 joined by hyphens.
pub open spec fn id_text(id: Id) -> Seq<char> {
    Seq::new(
        36,
        |p: int|
            if p == 8 || p == 13 || p == 18 || p == 23 {
                '-'
            } else {
                hex_digit(id_nibble(id, p - hyphens_before(p)))
            },
    )
}

/// Writes an identifier as text: `uuid::Uuid::from_u128(id).to_string()`.
/// `Uuid`'s `Display` writes the hyphenated lowercase form, which `id_text`
/// states.
#[verifier::external_body]
pub(crate) fn format_id(id: Id) -> (s: String)
    ensures
        s@ == id_text(id),
{
    uuid::Uuid::from_u128(id).to_string()
}

} // verus!
