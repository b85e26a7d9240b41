//! The placeholder market-data adapter of the data-feed crate root: it keeps
//! no state at all.

use vstd::prelude::*;

verus! {

/// A market-data adapter without state.
pub struct MarketDataAdapter;

impl MarketDataAdapter {
    /// An adapter; the descriptor is not kept.
    pub fn new(_fd: i32) -> (a: Self)
        ensures
            a == MarketDataAdapter,
    {
        MarketDataAdapter
    }
}

} // verus!
