//! The fixed, ordered set of exchange names and indexed access into it.

use vstd::prelude::*;

verus! {

/// How many exchange names there are.
pub open spec fn exchange_count() -> int {
    5
}

/// The exchange name at position `i` of the fixed ordered set, for
/// `0 <= i < exchange_count()`.
pub open spec fn exchange_name(i: int) -> Seq<char> {
    if i == 0 {
        "AMEX"@
    } else if i == 1 {
        "NASDAQ"@
    } else if i == 2 {
        "NYSE"@
    } else if i == 3 {
        "OTCBB"@
    } else {
        "OTHEROTC"@
    }
}

/// `s` is one of the five exchange names.
pub open spec fn is_exchange_name(s: Seq<char>) -> bool {
    exists|i: int| 0 <= i < exchange_count() && s == exchange_name(i)
}

/// The exchange name at `exchange_index`, cycling over the fixed set.
pub fn get_exchange_from_index(exchange_index: usize) -> (r: String)
    ensures
        r@ == exchange_name(exchange_index as int % exchange_count()),
        is_exchange_name(r@),
{
    let name: &str = match exchange_index % 5 {
        0 => "AMEX",
        1 => "NASDAQ",
        2 => "NYSE",
        3 => "OTCBB",
        _ => "OTHEROTC",
    };
    proof {
        let i: int = exchange_index as int % exchange_count();
        assert(0 <= i < exchange_count());
        assert(name@ == exchange_name(i));
    }
    name.to_owned()
}

} // verus!
