//! Order book management for exchange L2 updates: keeps the resting bid and
//! ask levels in memory, applies full snapshots and incremental deltas, and
//! refuses deltas whose sequence number is not newer than the last one applied.
//!
//! Prices and quantities arrive as IEEE-754 double-precision bit patterns.
//! Each side of the book is a `BTreeMap` from a price key to the quantity's
//! bit pattern. The price key orders and identifies prices exactly as a total
//! order on doubles does in which `-0.0` equals `0.0` and every NaN equals
//! every other NaN and sorts above all numbers: two prices land on the same
//! level iff they are equal in that order, and the map iterates in price order.

use std::collections::BTreeMap;
use vstd::prelude::*;

verus! {

broadcast use {vstd::std_specs::btree::group_btree_axioms, vstd::laws_cmp::group_laws_cmp};

/// The sign bit of a double.
pub const SIGN_BIT: u64 = 0x8000_0000_0000_0000u64;

/// The bit pattern of positive infinity; magnitudes above it are NaN.
pub const POS_INF_BITS: u64 = 0x7FF0_0000_0000_0000u64;

/// The message with which a stale or duplicate delta is refused.
pub const STALE_UPDATE: &'static str = "Out-of-order or duplicate update";

/// The bit pattern without its sign bit.
pub open spec fn magnitude(b: u64) -> int {
    if b >= SIGN_BIT { b - SIGN_BIT } else { b as int }
}

/// The double is a NaN.
pub open spec fn is_nan_bits(b: u64) -> bool {
    magnitude(b) > POS_INF_BITS
}

/// The double compares equal to `0.0` (it is `0.0` or `-0.0`).
pub open spec fn is_zero_bits(b: u64) -> bool {
    magnitude(b) == 0
}

/// The double compares greater than `0.0` (positive, `+inf` included, NaN excluded).
pub open spec fn is_positive_bits(b: u64) -> bool {
    0 < b <= POS_INF_BITS
}

/// The double is below zero (a negative number or `-inf`).
pub open spec fn is_negative_bits(b: u64) -> bool {
    !is_nan_bits(b) && !is_zero_bits(b) && b >= SIGN_BIT
}

/// Equality of the total order on doubles that the book uses for prices:
/// NaN equals NaN, `-0.0` equals `0.0`, other values are equal iff identical.
pub open spec fn price_eq(a: u64, b: u64) -> bool {
    ||| is_nan_bits(a) && is_nan_bits(b)
    ||| !is_nan_bits(a) && !is_nan_bits(b) && (a == b || (is_zero_bits(a) && is_zero_bits(b)))
}

/// Strict order of that total order: numbers in their numeric order,
/// NaN above every number.
pub open spec fn price_lt(a: u64, b: u64) -> bool {
    if is_nan_bits(a) {
        false
    } else if is_nan_bits(b) {
        true
    } else if is_negative_bits(a) {
        !is_negative_bits(b) || magnitude(a) > magnitude(b)
    } else {
        !is_negative_bits(b) && magnitude(a) < magnitude(b)
    }
}

/// The key under which a price is stored.
pub open spec fn spec_price_key(b: u64) -> u64 {
    if is_nan_bits(b) {
        u64::MAX
    } else if is_zero_bits(b) {
        SIGN_BIT
    } else if b < SIGN_BIT {
        (b + SIGN_BIT) as u64
    } else {
        (u64::MAX - b) as u64
    }
}

/// Levels of a snapshot, in order: a level with a quantity above zero sets
/// its price; any other level is skipped.
pub open spec fn snapshot_side(levels: Seq<(u64, u64)>) -> Map<u64, u64>
    decreases levels.len(),
{
    if levels.len() == 0 {
        Map::empty()
    } else {
        let m = snapshot_side(levels.drop_last());
        let (p, q) = levels.last();
        if is_positive_bits(q) {
            m.insert(spec_price_key(p), q)
        } else {
            m
        }
    }
}

/// Levels of a delta applied to a side, in order: a zero quantity deletes the
/// price level, any other quantity sets it.
pub open spec fn delta_side(m: Map<u64, u64>, levels: Seq<(u64, u64)>) -> Map<u64, u64>
    decreases levels.len(),
{
    if levels.len() == 0 {
        m
    } else {
        let m2 = delta_side(m, levels.drop_last());
        let (p, q) = levels.last();
        if is_zero_bits(q) {
            m2.remove(spec_price_key(p))
        } else {
            m2.insert(spec_price_key(p), q)
        }
    }
}

/// The abstract state of an order book.
pub struct BookView {
    pub symbol: Seq<char>,
    pub bids: Map<u64, u64>,
    pub asks: Map<u64, u64>,
    pub last_update_id: u64,
}

impl BookView {
    /// No price level holds a zero quantity.
    pub open spec fn no_zero_levels(self) -> bool {
        &&& forall|k: u64| #[trigger] self.bids.contains_key(k) ==> !is_zero_bits(self.bids[k])
        &&& forall|k: u64| #[trigger] self.asks.contains_key(k) ==> !is_zero_bits(self.asks[k])
    }
}

/// The book after a snapshot.
pub open spec fn snapshot_outcome(
    b: BookView,
    bids: Seq<(u64, u64)>,
    asks: Seq<(u64, u64)>,
    update_id: u64,
) -> BookView {
    BookView {
        symbol: b.symbol,
        bids: snapshot_side(bids),
        asks: snapshot_side(asks),
        last_update_id: update_id,
    }
}

/// The book after a delta, or `None` where the delta is refused because its
/// update id is not newer than the last one applied.
pub open spec fn delta_outcome(
    b: BookView,
    bids: Seq<(u64, u64)>,
    asks: Seq<(u64, u64)>,
    update_id: u64,
) -> Option<BookView> {
    if update_id <= b.last_update_id {
        None
    } else {
        Some(
            BookView {
                symbol: b.symbol,
                bids: delta_side(b.bids, bids),
                asks: delta_side(b.asks, asks),
                last_update_id: update_id,
            },
        )
    }
}

/// Whether a quantity compares equal to zero (`q == 0.0`).
pub fn is_zero_quantity(bits: u64) -> (r: bool)
    ensures
        r == is_zero_bits(bits),
{
    bits == 0 || bits == SIGN_BIT
}

/// Whether a quantity compares greater than zero (`q > 0.0`).
pub fn is_positive_quantity(bits: u64) -> (r: bool)
    ensures
        r == is_positive_bits(bits),
{
    0 < bits && bits <= POS_INF_BITS
}

/// The key under which a price is stored in the book.
pub fn price_key(bits: u64) -> (k: u64)
    ensures
        k == spec_price_key(bits),
{
    let mag = if bits >= SIGN_BIT { bits - SIGN_BIT } else { bits };
    if mag > POS_INF_BITS {
        u64::MAX
    } else if mag == 0 {
        SIGN_BIT
    } else if bits < SIGN_BIT {
        bits + SIGN_BIT
    } else {
        u64::MAX - bits
    }
}

/// One price level: price and quantity as bit patterns.
#[derive(Debug, Clone, Copy)]
pub struct OrderBookLevel {
    pub price: u64,
    pub qty: u64,
}

/// The price stored under a key: where some price has that key, a price with
/// it (`0.0` for the zero key, the canonical quiet NaN for the NaN key, the one
/// price with that key otherwise); `None` for a value no price maps to.
pub fn price_of_key(k: u64) -> (r: Option<u64>)
    ensures
        match r {
            Some(p) => spec_price_key(p) == k,
            None => forall|p: u64| spec_price_key(p) != k,
        },
{
    if k == u64::MAX {
        Some(0x7FF8_0000_0000_0000u64)
    } else if k == SIGN_BIT {
        Some(0)
    } else if SIGN_BIT < k && k <= SIGN_BIT + POS_INF_BITS {
        Some(k - SIGN_BIT)
    } else if u64::MAX - SIGN_BIT - POS_INF_BITS <= k && k < SIGN_BIT - 1 {
        Some(u64::MAX - k)
    } else {
        None
    }
}

/// An order book for one symbol.
#[derive(Debug, Clone)]
pub struct OrderBook {
    pub symbol: String,
    /// Price key to quantity bits.
    pub bids: BTreeMap<u64, u64>,
    /// Price key to quantity bits.
    pub asks: BTreeMap<u64, u64>,
    pub last_update_id: u64,
}

impl View for OrderBook {
    type V = BookView;

    open spec fn view(&self) -> BookView {
        BookView {
            symbol: self.symbol@,
            bids: self.bids@,
            asks: self.asks@,
            last_update_id: self.last_update_id,
        }
    }
}

/// Sets the levels of a snapshot on one side, which must be empty.
fn fill_snapshot_side(side: &mut BTreeMap<u64, u64>, levels: &[(u64, u64)])
    requires
        old(side)@ == Map::<u64, u64>::empty(),
    ensures
        final(side)@ == snapshot_side(levels@),
{
    let mut i: usize = 0;
    while i < levels.len()
        invariant
            0 <= i <= levels@.len(),
            side@ == snapshot_side(levels@.take(i as int)),
        decreases levels@.len() - i,
    {
        let (p, q) = levels[i];
        assert(levels@.take(i + 1).drop_last() == levels@.take(i as int));
        if is_positive_quantity(q) {
            side.insert(price_key(p), q);
        }
        i = i + 1;
    }
    assert(levels@.take(levels@.len() as int) == levels@);
}

/// Applies the levels of a delta to one side.
fn apply_delta_side(side: &mut BTreeMap<u64, u64>, levels: &[(u64, u64)])
    ensures
        final(side)@ == delta_side(old(side)@, levels@),
{
    let ghost start = side@;
    let mut i: usize = 0;
    while i < levels.len()
        invariant
            0 <= i <= levels@.len(),
            side@ == delta_side(start, levels@.take(i as int)),
        decreases levels@.len() - i,
    {
        let (p, q) = levels[i];
        assert(levels@.take(i + 1).drop_last() == levels@.take(i as int));
        let key = price_key(p);
        if is_zero_quantity(q) {
            side.remove(&key);
        } else {
            side.insert(key, q);
        }
        i = i + 1;
    }
    assert(levels@.take(levels@.len() as int) == levels@);
}

impl OrderBook {
    /// An empty book for `symbol`, with last update id 0.
    pub fn new(symbol: &str) -> (b: Self)
        ensures
            b@.symbol == symbol@,
            b@.bids == Map::<u64, u64>::empty(),
            b@.asks == Map::<u64, u64>::empty(),
            b@.last_update_id == 0,
    {
        OrderBook {
            symbol: symbol.to_owned(),
            bids: BTreeMap::new(),
            asks: BTreeMap::new(),
            last_update_id: 0,
        }
    }

    /// Replaces both sides with a full snapshot (levels with a quantity not
    /// above zero are skipped) and records its update id.
    pub fn apply_snapshot(&mut self, bids: &[(u64, u64)], asks: &[(u64, u64)], update_id: u64)
        ensures
            final(self)@ == snapshot_outcome(old(self)@, bids@, asks@, update_id),
            final(self)@.no_zero_levels(),
    {
        self.bids.clear();
        self.asks.clear();
        fill_snapshot_side(&mut self.bids, bids);
        fill_snapshot_side(&mut self.asks, asks);
        self.last_update_id = update_id;
        proof {
            lemma_snapshot_side_positive(bids@);
            lemma_snapshot_side_positive(asks@);
        }
    }

    /// Applies an incremental update: refused, with the book unchanged, unless
    /// `update_id` is newer than the last update applied; otherwise every level
    /// with a zero quantity deletes its price and every other level sets it,
    /// in order, and `update_id` becomes the last update id.
    pub fn apply_delta(&mut self, bids: &[(u64, u64)], asks: &[(u64, u64)], update_id: u64) -> (r:
        Result<(), &'static str>)
        ensures
            match delta_outcome(old(self)@, bids@, asks@, update_id) {
                None => r == Err::<(), &'static str>(STALE_UPDATE) && *final(self) == *old(self),
                Some(v) => r is Ok && final(self)@ == v,
            },
            old(self)@.no_zero_levels() ==> final(self)@.no_zero_levels(),
    {
        if update_id <= self.last_update_id {
            return Err(STALE_UPDATE);
        }
        apply_delta_side(&mut self.bids, bids);
        apply_delta_side(&mut self.asks, asks);
        self.last_update_id = update_id;
        proof {
            if old(self)@.no_zero_levels() {
                lemma_delta_side_no_zero(old(self)@.bids, bids@);
                lemma_delta_side_no_zero(old(self)@.asks, asks@);
            }
        }
        Ok(())
    }
}

/// Every level that a snapshot sets holds a quantity above zero.
pub proof fn lemma_snapshot_side_positive(levels: Seq<(u64, u64)>)
    ensures
        forall|k: u64| #[trigger] snapshot_side(levels).contains_key(k)
            ==> is_positive_bits(snapshot_side(levels)[k]),
    decreases levels.len(),
{
    if levels.len() > 0 {
        let prev = levels.drop_last();
        lemma_snapshot_side_positive(prev);
        let (p, q) = levels.last();
        assert forall|k: u64| #[trigger] snapshot_side(levels).contains_key(k) implies is_positive_bits(
            snapshot_side(levels)[k],
        ) by {
            if !(is_positive_bits(q) && k == spec_price_key(p)) {
                assert(snapshot_side(prev).contains_key(k));
            }
        }
    }
}

/// A delta never leaves a zero quantity on a side that held none.
pub proof fn lemma_delta_side_no_zero(m: Map<u64, u64>, levels: Seq<(u64, u64)>)
    requires
        forall|k: u64| #[trigger] m.contains_key(k) ==> !is_zero_bits(m[k]),
    ensures
        forall|k: u64| #[trigger] delta_side(m, levels).contains_key(k)
            ==> !is_zero_bits(delta_side(m, levels)[k]),
    decreases levels.len(),
{
    if levels.len() > 0 {
        let prev = levels.drop_last();
        lemma_delta_side_no_zero(m, prev);
        let (p, q) = levels.last();
        assert forall|k: u64| #[trigger] delta_side(m, levels).contains_key(k) implies !is_zero_bits(
            delta_side(m, levels)[k],
        ) by {
            if k != spec_price_key(p) {
                assert(delta_side(m, prev).contains_key(k));
            }
        }
    }
}

/// Read after write, deltas: the last level of a delta that falls on a price
/// decides that price level. A zero quantity leaves no level there; any other
/// quantity is what the level then holds.
pub proof fn lemma_delta_last_write_wins(m: Map<u64, u64>, levels: Seq<(u64, u64)>, i: int, k: u64)
    requires
        0 <= i < levels.len(),
        spec_price_key(levels[i].0) == k,
        forall|j: int| i < j < levels.len() ==> spec_price_key(#[trigger] levels[j].0) != k,
    ensures
        delta_side(m, levels).contains_key(k) == !is_zero_bits(levels[i].1),
        !is_zero_bits(levels[i].1) ==> delta_side(m, levels)[k] == levels[i].1,
    decreases levels.len(),
{
    if i < levels.len() - 1 {
        let prev = levels.drop_last();
        assert(spec_price_key(levels[levels.len() - 1].0) != k);
        assert forall|j: int| i < j < prev.len() implies spec_price_key(#[trigger] prev[j].0) != k by {
            assert(prev[j] == levels[j]);
        }
        lemma_delta_last_write_wins(m, prev, i, k);
    }
}

/// Read after write, deltas: a price level that no level of the delta falls
/// on keeps what it held before.
pub proof fn lemma_delta_untouched_level(m: Map<u64, u64>, levels: Seq<(u64, u64)>, k: u64)
    requires
        forall|j: int| 0 <= j < levels.len() ==> spec_price_key(#[trigger] levels[j].0) != k,
    ensures
        delta_side(m, levels).contains_key(k) == m.contains_key(k),
        m.contains_key(k) ==> delta_side(m, levels)[k] == m[k],
    decreases levels.len(),
{
    if levels.len() > 0 {
        let prev = levels.drop_last();
        assert(spec_price_key(levels[levels.len() - 1].0) != k);
        assert forall|j: int| 0 <= j < prev.len() implies spec_price_key(#[trigger] prev[j].0) != k by {
            assert(prev[j] == levels[j]);
        }
        lemma_delta_untouched_level(m, prev, k);
    }
}

/// Read after write, snapshots: a price level holds the quantity of the last
/// level of the snapshot on that price whose quantity is above zero.
pub proof fn lemma_snapshot_last_positive_wins(levels: Seq<(u64, u64)>, i: int, k: u64)
    requires
        0 <= i < levels.len(),
        spec_price_key(levels[i].0) == k,
        is_positive_bits(levels[i].1),
        forall|j: int|
            i < j < levels.len() && spec_price_key(#[trigger] levels[j].0) == k
                ==> !is_positive_bits(levels[j].1),
    ensures
        snapshot_side(levels).contains_key(k),
        snapshot_side(levels)[k] == levels[i].1,
    decreases levels.len(),
{
    if i < levels.len() - 1 {
        let prev = levels.drop_last();
        let last = levels[levels.len() - 1];
        assert(spec_price_key(last.0) != k || !is_positive_bits(last.1));
        assert forall|j: int|
            i < j < prev.len() && spec_price_key(#[trigger] prev[j].0) == k implies !is_positive_bits(
            prev[j].1,
        ) by {
            assert(prev[j] == levels[j]);
        }
        lemma_snapshot_last_positive_wins(prev, i, k);
    }
}

/// Snapshots: a price holds no level unless some level of the snapshot on it
/// has a quantity above zero.
pub proof fn lemma_snapshot_absent_level(levels: Seq<(u64, u64)>, k: u64)
    requires
        forall|j: int|
            0 <= j < levels.len() && spec_price_key(#[trigger] levels[j].0) == k
                ==> !is_positive_bits(levels[j].1),
    ensures
        !snapshot_side(levels).contains_key(k),
    decreases levels.len(),
{
    if levels.len() > 0 {
        let prev = levels.drop_last();
        let last = levels[levels.len() - 1];
        assert(spec_price_key(last.0) != k || !is_positive_bits(last.1));
        assert forall|j: int|
            0 <= j < prev.len() && spec_price_key(#[trigger] prev[j].0) == k implies !is_positive_bits(
            prev[j].1,
        ) by {
            assert(prev[j] == levels[j]);
        }
        lemma_snapshot_absent_level(prev, k);
    }
}

/// Two prices share a level exactly when they are equal in the price order.
pub proof fn lemma_price_key_identifies(a: u64, b: u64)
    ensures
        spec_price_key(a) == spec_price_key(b) <==> price_eq(a, b),
{
}

/// Price keys are ordered as their prices are, so each side iterates in price order.
pub proof fn lemma_price_key_orders(a: u64, b: u64)
    ensures
        spec_price_key(a) < spec_price_key(b) <==> price_lt(a, b),
{
}

/// An accepted delta makes its own update id stale: replaying it is refused.
pub proof fn lemma_accepted_delta_not_replayable(
    b: BookView,
    bids: Seq<(u64, u64)>,
    asks: Seq<(u64, u64)>,
    update_id: u64,
    bids2: Seq<(u64, u64)>,
    asks2: Seq<(u64, u64)>,
)
    requires
        delta_outcome(b, bids, asks, update_id) is Some,
    ensures
        delta_outcome(delta_outcome(b, bids, asks, update_id)->0, bids2, asks2, update_id) is None,
        delta_outcome(b, bids, asks, update_id)->0.last_update_id > b.last_update_id,
{
}

/// A delta without levels only advances the last update id.
pub proof fn lemma_empty_delta_keeps_levels(b: BookView, update_id: u64)
    requires
        update_id > b.last_update_id,
    ensures
        delta_outcome(b, seq![], seq![], update_id) == Some(
            BookView { last_update_id: update_id, ..b },
        ),
{
}

/// A snapshot replaces both sides whatever the book held before.
pub proof fn lemma_snapshot_forgets_previous_levels(
    b1: BookView,
    b2: BookView,
    bids: Seq<(u64, u64)>,
    asks: Seq<(u64, u64)>,
    update_id: u64,
)
    ensures
        snapshot_outcome(b1, bids, asks, update_id).bids == snapshot_outcome(b2, bids, asks, update_id).bids,
        snapshot_outcome(b1, bids, asks, update_id).asks == snapshot_outcome(b2, bids, asks, update_id).asks,
        snapshot_outcome(b1, bids, asks, update_id).last_update_id == update_id,
{
}

} // verus!
