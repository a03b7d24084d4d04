use video_playback::pacer::{delay_for_next_frame, fps_of_rational};
use video_playback::speed::Speed;

#[test]
fn nominal_spacing_at_default_speed() {
    // A 25 fps clip at normal speed: 40 ms per frame, less decode time.
    let one = Speed::one();
    assert_eq!(delay_for_next_frame(25, one, 0), 40);
    assert_eq!(delay_for_next_frame(25, one, 15), 25);
    assert_eq!(delay_for_next_frame(25, one, 39), 1);
    assert_eq!(delay_for_next_frame(25, one, 40), 0);
}

#[test]
fn delay_is_never_negative() {
    let one = Speed::one();
    // Decode slower than the frame interval: the sleep floors at zero.
    assert_eq!(delay_for_next_frame(25, one, 41), 0);
    assert_eq!(delay_for_next_frame(25, one, 100_000), 0);
    assert_eq!(delay_for_next_frame(60, Speed::new(3, 1), u64::MAX), 0);
}

#[test]
fn delay_shrinks_as_elapsed_grows() {
    let one = Speed::one();
    let mut prev = delay_for_next_frame(25, one, 0);
    for elapsed in 1..=60u64 {
        let d = delay_for_next_frame(25, one, elapsed);
        assert!(d <= prev);
        if elapsed >= 40 {
            assert_eq!(d, 0);
        }
        prev = d;
    }
}

#[test]
fn doubling_speed_halves_spacing() {
    assert_eq!(delay_for_next_frame(25, Speed::new(2, 1), 0), 20);
    assert_eq!(delay_for_next_frame(25, Speed::new(1, 2), 0), 83);
    assert_eq!(delay_for_next_frame(50, Speed::new(2, 1), 0), 10);
}

#[test]
fn degenerate_rates_hit_the_floor() {
    let one = Speed::one();
    // A stream that reports no usable rate paces at the one-per-second floor
    // instead of dividing by zero.
    assert_eq!(delay_for_next_frame(0, one, 0), 1000);
    // Extreme slow-down rounds the effective rate to zero; same floor.
    assert_eq!(delay_for_next_frame(25, Speed::new(1, 100), 0), 1000);
    assert_eq!(delay_for_next_frame(25, Speed::new(1, 100), 999), 1);
    assert_eq!(delay_for_next_frame(25, Speed::new(1, 100), 1000), 0);
}

#[test]
fn very_fast_rates_sleep_nothing() {
    assert_eq!(delay_for_next_frame(2000, Speed::one(), 0), 0);
    assert_eq!(delay_for_next_frame(25, Speed::new(1000, 1), 0), 0);
}

#[test]
fn fps_reduces_the_rational() {
    assert_eq!(fps_of_rational(25, 1), 25);
    assert_eq!(fps_of_rational(30000, 1001), 29);
    assert_eq!(fps_of_rational(24000, 1001), 23);
}

#[test]
fn fps_of_unusable_rational_is_zero() {
    assert_eq!(fps_of_rational(0, 1), 0);
    assert_eq!(fps_of_rational(25, 0), 0);
    assert_eq!(fps_of_rational(-25, 1), 0);
    assert_eq!(fps_of_rational(25, -1), 0);
}
