use video_playback::speed::Speed;

#[test]
fn default_speed_is_one() {
    let s = Speed::one();
    assert_eq!(s, Speed::new(1, 1));
}

#[test]
fn factors_compound_multiplicatively() {
    // Halving and then doubling lands back on normal speed.
    let s = Speed::one().times(Speed::new(1, 2)).times(Speed::new(2, 1));
    assert!(s.eq_value(Speed::one()));
    assert_eq!(s, Speed::new(2, 2));

    // Two doublings compound to a fourfold multiplier, not a plain set.
    let s = Speed::one().times(Speed::new(2, 1)).times(Speed::new(2, 1));
    assert_eq!(s, Speed::new(4, 1));
    assert!(s.eq_value(Speed::new(4, 1)));
}

#[test]
fn composition_order_does_not_matter() {
    let a = Speed::one().times(Speed::new(1, 2)).times(Speed::new(3, 1));
    let b = Speed::one().times(Speed::new(3, 1)).times(Speed::new(1, 2));
    assert!(a.eq_value(b));
}

#[test]
fn eq_value_compares_ratios() {
    assert!(Speed::new(2, 4).eq_value(Speed::new(1, 2)));
    assert!(Speed::new(10, 5).eq_value(Speed::new(2, 1)));
    assert!(!Speed::new(2, 3).eq_value(Speed::new(1, 2)));
    // Structural equality is finer than value equality.
    assert_ne!(Speed::new(2, 4), Speed::new(1, 2));
}
