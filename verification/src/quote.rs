//! The quote record and the generators that fill it.

use vstd::prelude::*;
use crate::exchanges::exchange_count;
use crate::exchanges::exchange_name;
use crate::exchanges::get_exchange_from_index;
use crate::exchanges::is_exchange_name;
use crate::sources::ascii_bytes_to_string;
use crate::sources::now_millis;
use crate::sources::random_in_range_u64;
use crate::sources::random_u32;

verus! {

/// Denominator of the price fraction: `last_sale_unit / SALE_SCALE` is a
/// number in `[0, 1)`, and the price it stands for is 400 times that.
/// The value is 2^53, so the fraction loses nothing when taken to a
/// double-precision float at the serialization boundary.
pub const SALE_SCALE: u64 = 9007199254740992;

/// One synthetic market-data record.
///
/// The price is carried as the numerator `last_sale_unit` of a fraction
/// over [`SALE_SCALE`]; the price in currency units is
/// `400 * last_sale_unit / SALE_SCALE`, a value in `[0, 400)`.
pub struct StockQuote {
    pub symbol: String,
    pub exchange: String,
    pub last_sale_unit: u64,
    pub transaction_time: i64,
}

/// A well-formed quote: its price numerator stays under the scale, so the
/// price it stands for lies in `[0, 400)`.
pub open spec fn quote_wf(q: StockQuote) -> bool {
    q.last_sale_unit < SALE_SCALE
}

/// The transaction timestamp of a single quote: `jitter` milliseconds
/// before `now_ms`, so at most ten seconds in the past and never in the
/// future.
pub fn transaction_time_single(now_ms: i64, jitter: u64) -> (t: i64)
    requires
        jitter < 10000,
        i64::MIN + 10000 <= now_ms,
    ensures
        t == now_ms - jitter,
        now_ms - 10000 < t <= now_ms,
{
    now_ms - (jitter as i64)
}

/// The transaction timestamp of a quote in a list: `jitter` milliseconds
/// after `now_ms`, so at most one second in the future and never in the
/// past.
pub fn transaction_time_list(now_ms: i64, jitter: u64) -> (t: i64)
    requires
        jitter < 1000,
        now_ms <= i64::MAX - 1000,
    ensures
        t == now_ms + jitter,
        now_ms <= t < now_ms + 1000,
{
    now_ms + (jitter as i64)
}

/// A fresh random price numerator; the price it stands for lies in
/// `[0, 400)`.
pub fn generate_random_last_sale() -> (u: u64)
    ensures
        u < SALE_SCALE,
{
    random_in_range_u64(0, SALE_SCALE)
}

/// A fresh single-quote transaction timestamp: the current time, jittered
/// up to ten seconds into the past. The current time is opaque, so nothing
/// is stated of the value.
pub fn generate_random_transaction_time() -> (t: i64) {
    let now: i64 = now_millis();
    let jitter: u64 = random_in_range_u64(0, 10000);
    if i64::MIN + 10000 <= now {
        transaction_time_single(now, jitter)
    } else {
        now
    }
}

/// A random exchange name: some position of the fixed set, picked by a
/// random index taken modulo its size.
pub fn generate_random_exchange() -> (r: String)
    ensures
        is_exchange_name(r@),
{
    let exchange_index: u32 = random_u32();
    get_exchange_from_index(exchange_index as usize)
}

/// A random ticker symbol: five characters, each drawn independently and
/// uniformly from `'A'..='Z'`.
pub fn generate_random_symbol() -> (s: String)
    ensures
        s@.len() == 5,
        forall|i: int| 0 <= i < 5 ==> 'A' <= #[trigger] s@[i] <= 'Z',
{
    let mut bytes: Vec<u8> = Vec::new();
    let mut k: usize = 0;
    while k < 5
        invariant
            k <= 5,
            bytes@.len() == k,
            forall|i: int| 0 <= i < k ==> 65 <= #[trigger] bytes@[i] <= 90,
        decreases 5 - k,
    {
        let b: u64 = random_in_range_u64(65, 91);
        bytes.push(b as u8);
        k = k + 1;
    }
    let s: String = ascii_bytes_to_string(bytes);
    proof {
        assert forall|i: int| 0 <= i < 5 implies 'A' <= #[trigger] s@[i] <= 'Z' by {
            assert(s@[i] == bytes@[i] as char);
        }
    }
    s
}

/// A quote for the given symbol and exchange, taken verbatim, with a fresh
/// random price and timestamp.
pub fn generate_quote_from_symbol_and_exchange(symbol: String, exchange: String) -> (q: StockQuote)
    ensures
        q.symbol@ == symbol@,
        q.exchange@ == exchange@,
        quote_wf(q),
{
    StockQuote {
        symbol,
        exchange,
        last_sale_unit: generate_random_last_sale(),
        transaction_time: generate_random_transaction_time(),
    }
}

/// A quote for the given symbol, taken verbatim, on a random exchange,
/// with a fresh random price and timestamp.
pub fn generate_quote_from_symbol(symbol: String) -> (q: StockQuote)
    ensures
        q.symbol@ == symbol@,
        is_exchange_name(q.exchange@),
        quote_wf(q),
{
    StockQuote {
        symbol,
        exchange: generate_random_exchange(),
        last_sale_unit: generate_random_last_sale(),
        transaction_time: generate_random_transaction_time(),
    }
}

/// A quote with everything fresh: a random five-letter symbol, a random
/// exchange, a random price and timestamp.
pub fn generate_quote() -> (q: StockQuote)
    ensures
        q.symbol@.len() == 5,
        forall|i: int| 0 <= i < 5 ==> 'A' <= #[trigger] q.symbol@[i] <= 'Z',
        is_exchange_name(q.exchange@),
        quote_wf(q),
{
    generate_quote_from_symbol_and_exchange(generate_random_symbol(), generate_random_exchange())
}

/// Between two and four quotes for the given symbol, taken verbatim into
/// every entry; the entry at position `i` is assigned the exchange at
/// position `i` of the fixed set, cycling modulo its size. Each entry's
/// timestamp is the current time jittered up to one second into the
/// future; the current time is opaque, so only the shape is stated.
pub fn generate_quote_array(symbol: String) -> (quotes: Vec<StockQuote>)
    ensures
        2 <= quotes@.len() <= 4,
        forall|i: int|
            0 <= i < quotes@.len() ==> {
                &&& (#[trigger] quotes@[i]).symbol@ == symbol@
                &&& quotes@[i].exchange@ == exchange_name(i % exchange_count())
                &&& quote_wf(quotes@[i])
            },
{
    let count: usize = random_in_range_u64(2, 5) as usize;
    let mut quotes: Vec<StockQuote> = Vec::new();
    let mut index: usize = 0;
    while index < count
        invariant
            index <= count,
            2 <= count <= 4,
            quotes@.len() == index,
            forall|i: int|
                0 <= i < index ==> {
                    &&& (#[trigger] quotes@[i]).symbol@ == symbol@
                    &&& quotes@[i].exchange@ == exchange_name(i % exchange_count())
                    &&& quote_wf(quotes@[i])
                },
        decreases count - index,
    {
        let now: i64 = now_millis();
        let jitter: u64 = random_in_range_u64(0, 1000);
        let transaction_time: i64 = if now <= i64::MAX - 1000 {
            transaction_time_list(now, jitter)
        } else {
            now
        };
        let quote = StockQuote {
            symbol: symbol.clone(),
            exchange: get_exchange_from_index(index),
            last_sale_unit: generate_random_last_sale(),
            transaction_time,
        };
        quotes.push(quote);
        index = index + 1;
    }
    quotes
}

} // verus!
