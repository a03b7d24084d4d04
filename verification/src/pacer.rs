use vstd::prelude::*;
use crate::speed::Speed;

verus! {

/// The effective playback rate in frames per second: the nominal rate
/// scaled by the speed multiplier, rounded down, and floored at 1 so that
/// the interval computation below can never divide by zero, however far
/// the consumer slows playback down.
pub open spec fn effective_rate(fps: u32, speed: Speed) -> int {
    let scaled = (fps as int) * (speed.num as int) / (speed.den as int);
    if scaled < 1 {
        1
    } else {
        scaled
    }
}

/// The nominal spacing between frames, in whole milliseconds.
pub open spec fn nominal_interval_ms(fps: u32, speed: Speed) -> int {
    1000int / effective_rate(fps, speed)
}

/// How long to sleep after emitting a frame: the nominal interval less the
/// time already spent decoding and converting it, floored at zero.
pub open spec fn spec_delay(fps: u32, speed: Speed, elapsed_ms: u64) -> int {
    if elapsed_ms >= nominal_interval_ms(fps, speed) {
        0
    } else {
        nominal_interval_ms(fps, speed) - elapsed_ms
    }
}

/// Reduce a stream's average frame rate, given as a rational, to a scalar
/// frames-per-second value by integer division. A missing or nonsensical
/// rate (zero or negative in either part) is reported as 0; the pacer's
/// effective-rate floor then takes over.
pub open spec fn spec_fps_of_rational(num: i32, den: i32) -> int {
    if num <= 0 || den <= 0 {
        0
    } else {
        num / den
    }
}

pub fn fps_of_rational(num: i32, den: i32) -> (r: u32)
    ensures
        r == spec_fps_of_rational(num, den),
{
    if num <= 0 || den <= 0 {
        0
    } else {
        (num / den) as u32
    }
}

/// Compute the pacing sleep for the frame just emitted. `elapsed_ms` is the
/// time spent since just before that frame's decode and conversion began.
pub fn delay_for_next_frame(fps: u32, speed: Speed, elapsed_ms: u64) -> (r: u64)
    requires
        speed.wf(),
    ensures
        r == spec_delay(fps, speed, elapsed_ms),
{
    proof {
        assert((fps as int) * (speed.num as int) < 0x1000000000000000000000000) by (nonlinear_arith)
            requires
                fps <= u32::MAX,
                speed.num <= u64::MAX,
        ;
    }
    let scaled: u128 = (fps as u128) * (speed.num as u128) / (speed.den as u128);
    let eff: u128 = if scaled < 1 {
        1
    } else {
        scaled
    };
    let nominal: u64 = (1000u128 / eff) as u64;
    if elapsed_ms >= nominal {
        0
    } else {
        nominal - elapsed_ms
    }
}

/// Law: the pacing delay is never negative, whatever the rate, the speed
/// multiplier, and the time already spent on the frame.
pub proof fn lemma_delay_nonnegative(fps: u32, speed: Speed, elapsed_ms: u64)
    requires
        speed.wf(),
    ensures
        spec_delay(fps, speed, elapsed_ms) >= 0,
{
}

/// Law: the pacing delay shrinks monotonically as the time spent on the
/// frame grows, and is exactly zero once that time reaches the nominal
/// interval.
pub proof fn lemma_delay_monotone(fps: u32, speed: Speed, e1: u64, e2: u64)
    requires
        speed.wf(),
        e1 <= e2,
    ensures
        spec_delay(fps, speed, e2) <= spec_delay(fps, speed, e1),
        e1 >= nominal_interval_ms(fps, speed) ==> spec_delay(fps, speed, e1) == 0,
{
}

} // verus!
