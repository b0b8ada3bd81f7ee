//! Pyth price accounts, as the programs read them.
use vstd::prelude::*;

verus! {

/// What the programs read of a Pyth price account: its aggregate price
/// (`agg.price` of the account's `Price` record), a signed integer in the
/// account's own exponent.
#[derive(Clone, Copy, Debug)]
pub struct PythPrice {
    pub agg_price: i64,
}

} // verus!
