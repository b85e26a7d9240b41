use hft_bot::order_book::{is_positive_quantity, is_zero_quantity, price_key, price_of_key, OrderBook, STALE_UPDATE};

fn lv(levels: &[(f64, f64)]) -> Vec<(u64, u64)> {
    levels.iter().map(|&(p, q)| (p.to_bits(), q.to_bits())).collect()
}

fn side(m: &std::collections::BTreeMap<u64, u64>) -> Vec<(u64, f64)> {
    m.iter().map(|(&k, &q)| (k, f64::from_bits(q))).collect()
}

#[test]
fn new_book_is_empty() {
    let b = OrderBook::new("BTCUSDT");
    assert_eq!(b.symbol, "BTCUSDT");
    assert!(b.bids.is_empty() && b.asks.is_empty());
    assert_eq!(b.last_update_id, 0);
}

#[test]
fn snapshot_skips_non_positive_levels() {
    let mut b = OrderBook::new("BTCUSDT");
    b.apply_delta(&lv(&[(1.0, 1.0)]), &[], 3).unwrap();
    b.apply_snapshot(&lv(&[(100.0, 1.5), (99.0, 0.0), (98.0, -1.0), (97.0, f64::NAN)]), &lv(&[(101.0, 2.0)]), 10);
    assert_eq!(side(&b.bids), vec![(price_key(100.0f64.to_bits()), 1.5)]);
    assert_eq!(side(&b.asks), vec![(price_key(101.0f64.to_bits()), 2.0)]);
    assert_eq!(b.last_update_id, 10);
}

#[test]
fn delta_sets_and_deletes_levels() {
    let mut b = OrderBook::new("BTCUSDT");
    b.apply_snapshot(&lv(&[(100.0, 1.0), (99.0, 2.0)]), &lv(&[(101.0, 3.0)]), 10);
    assert_eq!(b.apply_delta(&lv(&[(100.0, 0.0), (98.0, 4.0), (99.0, 5.0)]), &lv(&[(101.0, -0.0)]), 11), Ok(()));
    assert_eq!(
        side(&b.bids),
        vec![(price_key(98.0f64.to_bits()), 4.0), (price_key(99.0f64.to_bits()), 5.0)]
    );
    assert!(b.asks.is_empty());
    assert_eq!(b.last_update_id, 11);
}

#[test]
fn delta_last_level_on_a_price_wins() {
    let mut b = OrderBook::new("X");
    b.apply_delta(&lv(&[(5.0, 1.0), (5.0, 0.0), (5.0, 3.0)]), &lv(&[(6.0, 1.0), (6.0, 0.0)]), 1).unwrap();
    assert_eq!(side(&b.bids), vec![(price_key(5.0f64.to_bits()), 3.0)]);
    assert!(b.asks.is_empty());
}

#[test]
fn stale_and_duplicate_deltas_are_refused() {
    let mut b = OrderBook::new("BTCUSDT");
    b.apply_snapshot(&lv(&[(100.0, 1.0)]), &[], 10);
    let before = side(&b.bids);
    assert_eq!(b.apply_delta(&lv(&[(100.0, 0.0)]), &[], 10), Err(STALE_UPDATE));
    assert_eq!(b.apply_delta(&lv(&[(100.0, 0.0)]), &[], 9), Err(STALE_UPDATE));
    assert_eq!(STALE_UPDATE, "Out-of-order or duplicate update");
    assert_eq!(side(&b.bids), before);
    assert_eq!(b.last_update_id, 10);
    assert_eq!(b.apply_delta(&[], &[], 11), Ok(()));
    assert_eq!(b.apply_delta(&[], &[], 11), Err(STALE_UPDATE));
}

#[test]
fn zero_and_negative_zero_share_a_level() {
    assert_eq!(price_key(0.0f64.to_bits()), price_key((-0.0f64).to_bits()));
    assert_eq!(price_key(f64::NAN.to_bits()), price_key((-f64::NAN).to_bits()));
    assert_ne!(price_key(1.0f64.to_bits()), price_key((-1.0f64).to_bits()));
    let mut b = OrderBook::new("X");
    b.apply_delta(&lv(&[(0.0, 1.0), (-0.0, 2.0)]), &[], 1).unwrap();
    assert_eq!(b.bids.len(), 1);
    assert_eq!(side(&b.bids), vec![(price_key(0.0f64.to_bits()), 2.0)]);
}

#[test]
fn price_keys_follow_price_order() {
    let prices = [f64::NEG_INFINITY, -1e300, -2.0, -1.0, -1e-300, 0.0, 1e-300, 1.0, 2.0, 1e300, f64::INFINITY, f64::NAN];
    for w in prices.windows(2) {
        assert!(price_key(w[0].to_bits()) < price_key(w[1].to_bits()), "{:?}", w);
    }
}

#[test]
fn quantity_predicates_match_float_comparisons() {
    for q in [0.0, -0.0, 1.0, -1.0, f64::INFINITY, f64::NEG_INFINITY, f64::NAN, 5e-324, -5e-324] {
        assert_eq!(is_zero_quantity(q.to_bits()), q == 0.0, "{q}");
        assert_eq!(is_positive_quantity(q.to_bits()), q > 0.0, "{q}");
    }
}

#[test]
fn snapshot_last_positive_level_on_a_price_wins() {
    let mut b = OrderBook::new("X");
    b.apply_snapshot(&lv(&[(5.0, 1.0), (5.0, 2.0), (5.0, 0.0), (6.0, -3.0)]), &[], 4);
    assert_eq!(side(&b.bids), vec![(price_key(5.0f64.to_bits()), 2.0)]);
}

#[test]
fn delta_keeps_untouched_levels() {
    let mut b = OrderBook::new("X");
    b.apply_snapshot(&lv(&[(1.0, 1.0), (2.0, 2.0)]), &lv(&[(3.0, 3.0)]), 1);
    b.apply_delta(&lv(&[(2.0, 7.0)]), &[], 2).unwrap();
    assert_eq!(
        side(&b.bids),
        vec![(price_key(1.0f64.to_bits()), 1.0), (price_key(2.0f64.to_bits()), 7.0)]
    );
    assert_eq!(side(&b.asks), vec![(price_key(3.0f64.to_bits()), 3.0)]);
    assert_eq!(b.symbol, "X");
}

#[test]
fn prices_are_read_back_from_keys() {
    for p in [1.5f64, -2.25, 0.0, -0.0, f64::INFINITY, f64::NEG_INFINITY, 5e-324, -5e-324] {
        let back = f64::from_bits(price_of_key(price_key(p.to_bits())).unwrap());
        assert!(back == p, "{p}");
    }
    assert!(f64::from_bits(price_of_key(price_key(f64::NAN.to_bits())).unwrap()).is_nan());
    assert_eq!(price_of_key(0), None);
    assert_eq!(price_of_key(0x7FFF_FFFF_FFFF_FFFF), None);
    let mut b = OrderBook::new("X");
    b.apply_delta(&lv(&[(101.5, 1.0), (-3.0, 2.0)]), &[], 1).unwrap();
    let prices: Vec<f64> = b.bids.keys().map(|&k| f64::from_bits(price_of_key(k).unwrap())).collect();
    assert_eq!(prices, vec![-3.0, 101.5]);
}
