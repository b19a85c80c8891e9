//! Frequency-calibrated conversion between counter ticks and microseconds.
//!
//! The hardware counter runs at a fixed frequency in ticks per second.  The
//! driver reports time as `count * 1_000_000 / frequency_hz` microseconds and
//! arms the comparator with `frequency_hz * us / 1_000_000` ticks, both with
//! truncating integer division.  The multiplications are carried out in 128
//! bits so that no intermediate value can overflow; the comparator register
//! is 32 bits wide, so the tick count is truncated to its low 32 bits, as a
//! write to that register would do.

use vstd::prelude::*;

verus! {

/// Microseconds in one second: the scale between counter frequency (ticks
/// per second) and the reported microsecond clock.
pub const MICROS_PER_SEC: u64 = 1_000_000;

/// Elapsed microseconds represented by `count` ticks of a counter running at
/// `freq` ticks per second, with truncating division.
pub open spec fn micros_of_ticks(count: u64, freq: u64) -> int
    recommends
        1 <= freq,
{
    count * MICROS_PER_SEC / freq as int
}

/// Comparator ticks equivalent to a delay of `us` microseconds at `freq`
/// ticks per second, with truncating division, before any truncation to the
/// 32-bit comparator width.
pub open spec fn ticks_of_micros_full(us: u32, freq: u64) -> int {
    freq * us / MICROS_PER_SEC as int
}

/// The value a 32-bit comparator register holds after being written with the
/// tick count for a delay of `us` microseconds at `freq` ticks per second:
/// the low 32 bits of `ticks_of_micros_full`.
pub open spec fn ticks_of_micros(us: u32, freq: u64) -> u32 {
    (ticks_of_micros_full(us, freq) % 0x1_0000_0000) as u32
}

/// Converts a counter reading to elapsed microseconds.
///
/// The multiplication is performed in 128 bits, so it is exact for every
/// 64-bit counter value; the quotient must fit the 64-bit result.
pub fn ticks_to_micros(count: u64, freq: u64) -> (r: u64)
    requires
        1 <= freq,
        micros_of_ticks(count, freq) <= u64::MAX,
    ensures
        r == micros_of_ticks(count, freq),
{
    ((count as u128 * MICROS_PER_SEC as u128) / freq as u128) as u64
}

/// Converts a counter reading to elapsed microseconds, rejecting a reading
/// whose microsecond value does not fit 64 bits.
///
/// `ticks_to_micros` asks its caller to show that the result fits; this
/// variant makes that test at run time instead, for callers that take the
/// counter value from outside.
pub fn ticks_to_micros_checked(count: u64, freq: u64) -> (r: Option<u64>)
    requires
        1 <= freq,
    ensures
        match r {
            Some(us) => us == micros_of_ticks(count, freq),
            None => micros_of_ticks(count, freq) > u64::MAX,
        },
{
    let wide: u128 = (count as u128 * MICROS_PER_SEC as u128) / freq as u128;
    if wide <= u64::MAX as u128 {
        Some(wide as u64)
    } else {
        None
    }
}

/// Converts a microsecond delay to the 32-bit comparator value that arms it.
///
/// The multiplication is performed in 128 bits, so it is exact for every
/// frequency; the result is the tick count truncated to the comparator's 32
/// bits, and equals the untruncated tick count whenever that count fits.
pub fn micros_to_ticks(us: u32, freq: u64) -> (r: u32)
    ensures
        r == ticks_of_micros(us, freq),
        ticks_of_micros_full(us, freq) <= u32::MAX ==> r == ticks_of_micros_full(us, freq),
{
    proof {
        assert(freq * us < 0x1_0000_0000_0000_0000_0000_0000u128) by (nonlinear_arith)
            requires
                freq <= u64::MAX,
                us <= u32::MAX,
        ;
    }
    let wide: u128 = (freq as u128 * us as u128) / (MICROS_PER_SEC as u128);
    proof {
        assert(wide as u32 == wide % 0x1_0000_0000) by (bit_vector);
        if ticks_of_micros_full(us, freq) <= u32::MAX {
            assert(wide % 0x1_0000_0000 == wide) by (bit_vector)
                requires
                    wide <= u32::MAX,
            ;
        }
    }
    #[verifier::truncate] (wide as u32)
}

/// Monotonicity of the microsecond clock: a counter that has not decreased
/// never reads as an earlier time.
pub proof fn lemma_micros_monotonic(c1: u64, c2: u64, freq: u64)
    requires
        1 <= freq,
        c1 <= c2,
    ensures
        micros_of_ticks(c1, freq) <= micros_of_ticks(c2, freq),
{
    assert(c1 * MICROS_PER_SEC <= c2 * MICROS_PER_SEC) by (nonlinear_arith)
        requires
            c1 <= c2,
    ;
    vstd::arithmetic::div_mod::lemma_div_is_ordered(
        c1 * MICROS_PER_SEC,
        c2 * MICROS_PER_SEC,
        freq as int,
    );
}

} // verus!
