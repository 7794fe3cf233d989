//! The calls this library makes into outside crates, each behind a stated
//! contract. Everything else in the crate is verified against these
//! statements.

use vstd::prelude::*;
use vstd::string::StrSliceExecFns;

verus! {

/// Whether `b` spells a well-formed JSON document. The grammar belongs to
/// the parser crate; the answer depends on the bytes alone.
pub uninterp spec fn json_decodes(b: Seq<u8>) -> bool;

/// Whether `s` spells a well-formed miner address. The grammar belongs to
/// the address crate; the answer depends on the characters alone.
pub uninterp spec fn is_miner_address(s: Seq<char>) -> bool;

/// A character a generated identifier may contain: a decimal digit, a
/// lowercase hexadecimal letter, or a hyphen.
pub open spec fn is_id_char(c: char) -> bool {
    ||| 48 <= c as u32 && c as u32 <= 57  // '0' to '9'
    ||| 97 <= c as u32 && c as u32 <= 102  // 'a' to 'f'
    ||| c as u32 == 45  // '-'
}

/// Relies on uuid::Uuid::new_v4 and its hyphenated display form: a random
/// identifier rendered as 36 lowercase hexadecimal and hyphen characters.
/// The draw is random, so nothing relates two calls; callers check
/// freshness themselves.
#[verifier::external_body]
pub(crate) fn fresh_uuid() -> (r: String)
    ensures
        r@.len() == 36,
        forall|i: int| 0 <= i < r@.len() ==> is_id_char(#[trigger] r@[i]),
{
    uuid::Uuid::new_v4().to_string()
}

/// Relies on serde_json::from_slice::<serde_json::Value>: it accepts exactly
/// the well-formed JSON documents, a function of the bytes alone.
#[verifier::external_body]
pub(crate) fn json_is_valid(b: &Vec<u8>) -> (r: bool)
    ensures
        r == json_decodes(b@),
{
    serde_json::from_slice::<serde_json::Value>(b.as_slice()).is_ok()
}

/// Whether the address parser returns on `s`: every string a valid address
/// could spell does. The one corner the parser does not handle gracefully
/// is a candidate of three to eight characters whose protocol character is
/// not the id protocol's `'0'`: its checksum split would fall below the
/// checksum's fixed length. Valid non-id addresses are far longer, so
/// nothing acceptable is lost by keeping that corner out.
pub open spec fn address_probe_safe(s: Seq<char>) -> bool {
    !(3 <= s.len() && s.len() <= 8 && s[1] as u32 != 48)
}

/// Relies on forest_address::Address::from_str: it accepts exactly the
/// strings that spell an address, a function of the characters alone. The
/// parser splits a fixed-length checksum off the decoded payload without
/// checking the length first, so the candidates that would underflow that
/// split are kept out by `requires`.
#[verifier::external_body]
pub(crate) fn miner_is_valid(s: &String) -> (r: bool)
    requires
        address_probe_safe(s@),
    ensures
        r == is_miner_address(s@),
{
    <forest_address::Address as core::str::FromStr>::from_str(s.as_str()).is_ok()
}

/// An acceptable miner address: one the parser both returns on and
/// accepts.
pub open spec fn miner_ok(s: Seq<char>) -> bool {
    address_probe_safe(s) && is_miner_address(s)
}

/// Whether `s` is an acceptable miner address, decided executably: the
/// candidates the parser cannot probe are refused outright — no valid
/// address is among them — and the parser judges the rest.
pub fn miner_acceptable(s: &String) -> (r: bool)
    ensures
        r == miner_ok(s@),
{
    let n = s.as_str().unicode_len();
    if 3 <= n && n <= 8 {
        let c = s.as_str().get_char(1);
        if c as u32 != 48 {
            return false;
        }
    }
    miner_is_valid(s)
}

} // verus!
