//! The market-data adapter of the trading loop, bound to a socket descriptor.

use vstd::prelude::*;

verus! {

/// A market-data adapter reading from one file descriptor.
pub struct MarketDataAdapter {
    fd: i32,
}

impl MarketDataAdapter {
    /// The descriptor the adapter reads from.
    pub closed spec fn descriptor(self) -> i32 {
        self.fd
    }

    /// An adapter for descriptor `fd`.
    pub fn new(fd: i32) -> (a: Self)
        ensures
            a.descriptor() == fd,
    {
        MarketDataAdapter { fd }
    }
}

} // verus!
