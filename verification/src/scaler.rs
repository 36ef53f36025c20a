//! Mapping of raw analog samples onto the signed eight-bit axis range.
//!
//! A raw sample is an unsigned converter reading in `0..=max`, where `max` is
//! the converter's full-scale value. The scaled value spreads that range over
//! `-128..=127` with truncating integer division, so the midpoint of a
//! twelve-bit converter (2047 of 4095) scales to `-1`.

use vstd::prelude::*;
use vstd::arithmetic::div_mod::{lemma_div_is_ordered, lemma_div_multiples_vanish};

verus! {

/// Full-scale reading of the twelve-bit converter at the 3.3 V reference.
pub const ADC_MAX_VALUE_3V3: u16 = 4095;

/// Direction in which an axis follows its raw sample.
#[derive(Clone, Copy, Debug, PartialEq, Eq, Structural)]
pub enum Polarity {
    /// A larger sample gives a larger axis value.
    Direct,
    /// The sample is mirrored about the range first: a larger sample gives a
    /// smaller axis value.
    Inverted,
}

/// The axis value of a raw sample: the sample's share of full scale, spread
/// over 255 steps with the fraction dropped, then shifted down by 128 and held
/// inside the signed eight-bit range.
pub open spec fn scale_spec(raw: int, max: int) -> int {
    let shifted = (raw * 255) / max - 128;
    if shifted < -128 {
        -128
    } else if shifted > 127 {
        127
    } else {
        shifted
    }
}

/// The axis value of a raw sample under a polarity. The inverted variant
/// scales the sample's distance from full scale.
pub open spec fn scale_axis_spec(raw: int, max: int, polarity: Polarity) -> int {
    match polarity {
        Polarity::Direct => scale_spec(raw, max),
        Polarity::Inverted => scale_spec(max - raw, max),
    }
}

/// Scales a raw sample against the full-scale value `max`. A sample above
/// full scale gives 127.
pub fn scale(raw: u16, max: u16) -> (out: i8)
    requires
        max > 0,
    ensures
        out == scale_spec(raw as int, max as int),
{
    let wide: u32 = raw as u32 * 255;
    let steps: u32 = wide / (max as u32);
    if steps >= 255 {
        127
    } else {
        (steps as i32 - 128) as i8
    }
}

/// Scales a raw sample against `max` in the direction that `polarity` names.
/// Inverted, a sample above full scale gives -128.
pub fn scale_axis(raw: u16, max: u16, polarity: Polarity) -> (out: i8)
    requires
        max > 0,
    ensures
        out == scale_axis_spec(raw as int, max as int, polarity),
{
    match polarity {
        Polarity::Direct => scale(raw, max),
        Polarity::Inverted => {
            if raw > max {
                proof {
                    lemma_scale_below_zero(max as int - raw as int, max as int);
                }
                -128
            } else {
                scale(max - raw, max)
            }
        },
    }
}

/// Scales a sample of the twelve-bit converter, direct polarity.
pub fn scale_i8(value: u16) -> (out: i8)
    ensures
        out == scale_spec(value as int, ADC_MAX_VALUE_3V3 as int),
{
    scale(value, ADC_MAX_VALUE_3V3)
}

/// A negative sample scales to the bottom of the range.
proof fn lemma_scale_below_zero(raw: int, max: int)
    requires
        raw < 0,
        max > 0,
    ensures
        scale_spec(raw, max) == -128,
{
    lemma_div_is_ordered(raw * 255, 0, max);
}

/// Inside the sample range the clamp is idle: the value is the plain quotient
/// shifted by 128, and it lies in the signed eight-bit range.
pub proof fn lemma_scale_in_range(raw: int, max: int)
    requires
        0 <= raw <= max,
        max > 0,
    ensures
        scale_spec(raw, max) == (raw * 255) / max - 128,
        -128 <= scale_spec(raw, max) <= 127,
{
    lemma_div_is_ordered(0, raw * 255, max);
    lemma_div_is_ordered(raw * 255, max * 255, max);
    lemma_div_multiples_vanish(255, max);
}

/// Whatever the sample, the scaled value lies in the signed eight-bit range,
/// under either polarity.
pub proof fn lemma_scale_bounded(raw: int, max: int, polarity: Polarity)
    ensures
        -128 <= scale_axis_spec(raw, max, polarity) <= 127,
{
}

/// Direct scaling never decreases when the sample grows.
pub proof fn lemma_scale_monotonic(lo: int, hi: int, max: int)
    requires
        lo <= hi,
        max > 0,
    ensures
        scale_spec(lo, max) <= scale_spec(hi, max),
{
    lemma_div_is_ordered(lo * 255, hi * 255, max);
}

/// Scaling follows the configured polarity: direct never decreases and
/// inverted never increases when the sample grows.
pub proof fn lemma_scale_axis_monotonic(lo: int, hi: int, max: int, polarity: Polarity)
    requires
        lo <= hi,
        max > 0,
    ensures
        polarity == Polarity::Direct ==> scale_axis_spec(lo, max, polarity) <= scale_axis_spec(
            hi,
            max,
            polarity,
        ),
        polarity == Polarity::Inverted ==> scale_axis_spec(lo, max, polarity) >= scale_axis_spec(
            hi,
            max,
            polarity,
        ),
{
    match polarity {
        Polarity::Direct => lemma_scale_monotonic(lo, hi, max),
        Polarity::Inverted => lemma_scale_monotonic(max - hi, max - lo, max),
    }
}

/// The ends of the sample range reach the ends of the axis range exactly:
/// zero scales to -128 and full scale to 127, and the inverted variant swaps
/// the two.
pub proof fn lemma_scale_endpoints(max: int)
    requires
        max > 0,
    ensures
        scale_spec(0, max) == -128,
        scale_spec(max, max) == 127,
        scale_axis_spec(0, max, Polarity::Inverted) == 127,
        scale_axis_spec(max, max, Polarity::Inverted) == -128,
{
    lemma_scale_in_range(0, max);
    lemma_scale_in_range(max, max);
    lemma_div_multiples_vanish(255, max);
}

} // verus!
