use muxcore::flow::{Credits, FlowControlStrategy};
use muxcore::stream::{threshold, StreamId};

#[test]
fn fresh_credits_start_full() {
    let c = Credits::new(100);
    assert_eq!(c.capacity(), 100);
    assert_eq!(c.available(), 100);
    assert!(c.has_capacity(100));
    assert!(!c.has_capacity(101));
}

#[test]
fn reserve_decrements() {
    let mut c = Credits::new(100);
    c.reserve(30);
    assert_eq!(c.available(), 70);
    assert_eq!(c.capacity(), 100);
    c.reserve(70);
    assert_eq!(c.available(), 0);
}

#[test]
fn grant_saturates_at_capacity() {
    let mut c = Credits::new(10);
    c.reserve(4);
    let delta = c.grant(100);
    assert_eq!(delta, 4);
    assert_eq!(c.available(), 10);
}

#[test]
fn grant_reports_effective_increase() {
    let mut c = Credits::new(100);
    c.reserve(50);
    let delta = c.grant(20);
    assert_eq!(delta, 20);
    assert_eq!(c.available(), 70);
}

#[test]
fn reserve_then_grants_summing_back_restore_available() {
    // Round trip: reserving 40 and granting it back in installments
    // restores the counter exactly.
    let mut c = Credits::new(100);
    c.reserve(40);
    assert_eq!(c.available(), 60);
    let mut restored = 0;
    for g in [10u32, 25, 5] {
        restored += c.grant(g);
    }
    assert_eq!(restored, 40);
    assert_eq!(c.available(), 100);
}

#[test]
fn threshold_is_half_with_default_constants() {
    assert_eq!(threshold(100), 50);
    assert_eq!(threshold(0), 0);
    assert_eq!(threshold(1), 0);
    assert_eq!(threshold(u32::MAX), u32::MAX / 2);
}

#[test]
fn stream_id_wraps_value() {
    let id = StreamId::new(7);
    assert_eq!(id.0, 7);
    assert_eq!(StreamId::new(7), StreamId(7));
}

#[test]
fn stream_id_conversions() {
    assert_eq!(StreamId::from(7u32), StreamId(7));
    assert_eq!(u32::from(StreamId(7)), 7u32);
    assert_eq!(usize::from(StreamId(7)), 7usize);
}

#[test]
fn strategy_equality() {
    assert_eq!(FlowControlStrategy::Disabled, FlowControlStrategy::Disabled);
    assert_ne!(FlowControlStrategy::Disabled, FlowControlStrategy::Enabled);
}
