//! Trusted wrappers around the outside sources of entropy and time.

use vstd::prelude::*;
use rand::Rng;
use rand::RngCore;

verus! {

/// Relies on rand's `Rng::gen_range` on the thread-local generator: it
/// returns a value sampled from the given half-open range, and panics when
/// the range is empty, which the precondition rules out.
#[verifier::external_body]
pub(crate) fn random_in_range_u64(lo: u64, hi: u64) -> (r: u64)
    requires
        lo < hi,
    ensures
        lo <= r < hi,
{
    rand::thread_rng().gen_range(lo..hi)
}

/// Relies on rand's `RngCore::next_u32` on the thread-local generator;
/// nothing is promised of the value.
#[verifier::external_body]
pub(crate) fn random_u32() -> u32 {
    rand::thread_rng().next_u32()
}

/// Relies on chrono's `Utc::now`, read out with `timestamp_millis` as
/// milliseconds since the Unix epoch; nothing is promised of the value.
#[verifier::external_body]
pub(crate) fn now_millis() -> i64 {
    chrono::Utc::now().timestamp_millis()
}

/// Relies on std's `String::from_utf8`: bytes below 128 are valid UTF-8
/// and decode to one character per byte, with the same code point. The
/// precondition rules out the error case, so the unwrap cannot panic.
#[verifier::external_body]
pub(crate) fn ascii_bytes_to_string(bytes: Vec<u8>) -> (s: String)
    requires
        forall|i: int| 0 <= i < bytes@.len() ==> bytes@[i] < 128,
    ensures
        s@.len() == bytes@.len(),
        forall|i: int| 0 <= i < bytes@.len() ==> s@[i] == bytes@[i] as char,
{
    String::from_utf8(bytes).unwrap()
}

} // verus!
