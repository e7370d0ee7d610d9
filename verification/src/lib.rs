//! Synthetic stock-quote generation.
//!
//! The library produces synthetic market-data records: a ticker symbol, an
//! exchange name drawn from a fixed ordered set of five, a price, and a
//! jittered transaction timestamp. Randomness comes from `rand` and the
//! current time from `chrono`, both behind trusted wrappers; everything
//! built on top of them is verified.

mod exchanges;
mod quote;
mod sources;

pub use exchanges::exchange_count;
pub use exchanges::exchange_name;
pub use exchanges::get_exchange_from_index;
pub use exchanges::is_exchange_name;
pub use quote::SALE_SCALE;
pub use quote::StockQuote;
pub use quote::generate_quote;
pub use quote::generate_quote_array;
pub use quote::generate_quote_from_symbol;
pub use quote::generate_quote_from_symbol_and_exchange;
pub use quote::generate_random_exchange;
pub use quote::generate_random_last_sale;
pub use quote::generate_random_symbol;
pub use quote::generate_random_transaction_time;
pub use quote::quote_wf;
pub use quote::transaction_time_list;
pub use quote::transaction_time_single;
