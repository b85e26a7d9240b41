//! A mock FIX order-entry engine: it hands out client order ids
//! (ClOrdID) from a running sequence number and accepts cancellations.

use vstd::prelude::*;

verus! {

/// Mock FIX session state.
#[derive(Debug, Clone)]
pub struct FixEngine {
    pub verbose: bool,
    pub sequence_number: u32,
}

/// The abstract state of an engine.
pub struct FixEngineView {
    pub verbose: bool,
    pub sequence_number: nat,
}

impl View for FixEngine {
    type V = FixEngineView;

    open spec fn view(&self) -> FixEngineView {
        FixEngineView { verbose: self.verbose, sequence_number: self.sequence_number as nat }
    }
}

/// The ClOrdID that the next submission receives and the engine state after it.
pub open spec fn submit_outcome(e: FixEngineView) -> (nat, FixEngineView) {
    (e.sequence_number, FixEngineView { verbose: e.verbose, sequence_number: e.sequence_number + 1 })
}

impl FixEngine {
    /// Creates a new mock FIX engine; the first order gets ClOrdID 1.
    pub fn new(verbose: bool) -> (e: Self)
        ensures
            e.verbose == verbose,
            e.sequence_number == 1,
    {
        FixEngine { verbose, sequence_number: 1 }
    }

    /// Mock order submission: always succeeds and returns the ClOrdID, which
    /// is the current sequence number; the sequence number then advances by one.
    /// The order's symbol, side ('B' buy, 'S' sell), quantity and price (the
    /// last two as IEEE-754 bit patterns) only describe the order: the mock
    /// venue computes nothing from them. Logging the order when `verbose` is
    /// the caller's part.
    pub fn submit_order(
        &mut self,
        symbol: &str,
        side: char,
        quantity_bits: u64,
        price_bits: u64,
    ) -> (r: Result<u32, &'static str>)
        requires
            old(self).sequence_number < u32::MAX,
        ensures
            r is Ok,
            r matches Ok(id) && (id as nat, final(self)@) == submit_outcome(old(self)@),
    {
        let cl_ord_id = self.sequence_number;
        self.sequence_number = self.sequence_number + 1;
        Ok(cl_ord_id)
    }

    /// Mock cancellation: always succeeds and leaves the session unchanged.
    pub fn cancel_order(&mut self, cl_ord_id: u32) -> (r: Result<(), &'static str>)
        ensures
            r is Ok,
            *final(self) == *old(self),
    {
        Ok(())
    }
}

/// Successive submissions on one session receive distinct, consecutive ClOrdIDs.
pub proof fn lemma_consecutive_order_ids(e: FixEngineView)
    ensures
        submit_outcome(submit_outcome(e).1).0 == submit_outcome(e).0 + 1,
        submit_outcome(submit_outcome(e).1).0 != submit_outcome(e).0,
        submit_outcome(e).1.verbose == e.verbose,
{
}

/// The engine after `n` successive submissions.
pub open spec fn after_submissions(e: FixEngineView, n: nat) -> FixEngineView
    decreases n,
{
    if n == 0 {
        e
    } else {
        submit_outcome(after_submissions(e, (n - 1) as nat)).1
    }
}

/// Over any number of successive submissions, the k-th (counting from 0)
/// receives ClOrdID `s + k`, where `s` is the sequence number before the
/// first: the ids are consecutive, strictly increasing and pairwise distinct,
/// and afterwards the sequence number is `s + n`.
pub proof fn lemma_successive_order_ids(e: FixEngineView, n: nat)
    ensures
        after_submissions(e, n).sequence_number == e.sequence_number + n,
        after_submissions(e, n).verbose == e.verbose,
        forall|k: nat| k < n ==> #[trigger] submit_outcome(after_submissions(e, k)).0 == e.sequence_number + k,
        forall|j: nat, k: nat|
            j < k < n ==> submit_outcome(after_submissions(e, j)).0 < submit_outcome(
                after_submissions(e, k),
            ).0,
    decreases n,
{
    if n > 0 {
        lemma_successive_order_ids(e, (n - 1) as nat);
    }
    assert forall|k: nat| k < n implies #[trigger] submit_outcome(after_submissions(e, k)).0
        == e.sequence_number + k by {
        lemma_successive_order_ids(e, k);
    }
    assert forall|j: nat, k: nat| j < k < n implies submit_outcome(after_submissions(e, j)).0
        < submit_outcome(after_submissions(e, k)).0 by {
        lemma_successive_order_ids(e, j);
        lemma_successive_order_ids(e, k);
    }
}

} // verus!
