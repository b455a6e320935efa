//! The run counters and their combinator.

use zola_abridge_helper::stats::Stats;

#[test]
fn counters_start_at_zero() {
    let s = Stats::new();
    assert_eq!(s.changed(), 0);
    assert_eq!(s.not_changed(), 0);
    assert_eq!(s.skipped(), 0);
    assert_eq!(s.seo_warnings(), 0);
    assert_eq!(s.errors(), 0);
}

#[test]
fn increments_touch_only_their_counter() {
    let mut s = Stats::new();
    s.inc_changed();
    s.inc_not_changed();
    s.inc_not_changed();
    s.inc_skipped();
    s.inc_errors();
    s.inc_seo_warnings();
    assert_eq!(s.changed(), 1);
    assert_eq!(s.not_changed(), 2);
    assert_eq!(s.skipped(), 1);
    assert_eq!(s.errors(), 1);
    assert_eq!(s.seo_warnings(), 1);
}

#[test]
fn counters_saturate() {
    let mut s = Stats::new();
    for _ in 0..70_000 {
        s.inc_errors();
    }
    assert_eq!(s.errors(), u16::MAX);
    s.inc_errors();
    assert_eq!(s.errors(), u16::MAX);
}

#[test]
fn add_assign_sums_field_wise() {
    let mut a = Stats::new();
    a.inc_changed();
    a.inc_seo_warnings();
    let mut b = Stats::new();
    b.inc_changed();
    b.inc_errors();
    a.add_assign(b);
    assert_eq!(a.changed(), 2);
    assert_eq!(a.seo_warnings(), 1);
    assert_eq!(a.errors(), 1);
    assert_eq!(a.not_changed(), 0);
}

#[test]
fn add_assign_saturates() {
    let mut a = Stats::new();
    let mut b = Stats::new();
    for _ in 0..40_000 {
        a.inc_skipped();
        b.inc_skipped();
    }
    a.add_assign(b);
    assert_eq!(a.skipped(), u16::MAX);
}

#[test]
fn add_assign_is_commutative_on_samples() {
    let mut a1 = Stats::new();
    a1.inc_changed();
    let mut b1 = Stats::new();
    b1.inc_errors();
    let mut a2 = b1;
    let b2 = a1;
    a1.add_assign(b1);
    a2.add_assign(b2);
    assert_eq!(a1, a2);
}
