//! Linear mapping from an ambient light reading to a brightness value.
//!
//! The reading is interpolated from the configured ambient range onto
//! the configured brightness range, rounded to the nearest integer and
//! clamped to the brightness range, so readings outside the configured
//! ambient range never extrapolate past the bounds. A zero-width range
//! on either side means "fixed brightness": the start of the brightness
//! range is returned unconditionally.

use vstd::prelude::*;

use core::ops::Range;

verus! {

/// The value the mapper owes: `bs + (ambient - as_) * (be - bs) / (ae - as_)`,
/// rounded half-up, clamped to `[bs, be]`, with both degenerate spans
/// collapsing to `bs`.
pub open spec fn spec_map_brightness(ambient: int, as_: int, ae: int, bs: int, be: int) -> int
    recommends
        as_ <= ae,
        bs <= be,
{
    let ambient_span = ae - as_;
    let brightness_span = be - bs;
    if ambient_span == 0 || brightness_span == 0 {
        bs
    } else if ambient <= as_ {
        bs
    } else {
        let scaled = bs + ((ambient - as_) * brightness_span + ambient_span / 2) / ambient_span;
        if scaled > be {
            be
        } else {
            scaled
        }
    }
}

/// Maps an ambient light reading onto the brightness range.
pub fn map_ambient_to_display_brightness(
    ambient: u32,
    ambient_light_range: &Range<u32>,
    brightness_range: &Range<u32>,
) -> (r: u32)
    requires
        ambient_light_range.start <= ambient_light_range.end,
        brightness_range.start <= brightness_range.end,
    ensures
        r == spec_map_brightness(
            ambient as int,
            ambient_light_range.start as int,
            ambient_light_range.end as int,
            brightness_range.start as int,
            brightness_range.end as int,
        ),
{
    let a_start = ambient_light_range.start;
    let a_end = ambient_light_range.end;
    let b_start = brightness_range.start;
    let b_end = brightness_range.end;

    let ambient_span = a_end - a_start;
    let brightness_span = b_end - b_start;

    if ambient_span == 0 || brightness_span == 0 {
        return b_start;
    }
    if ambient <= a_start {
        return b_start;
    }

    let delta = (ambient - a_start) as u64;
    let span = ambient_span as u64;
    proof {
        assert(delta * (brightness_span as u64) <= 0xffff_ffffu64 * 0xffff_ffffu64)
            by (nonlinear_arith)
            requires
                delta <= 0xffff_ffffu64,
                brightness_span <= 0xffff_ffffu32,
        ;
    }
    let num = delta * (brightness_span as u64) + span / 2;
    let q = num / span;
    proof {
        assert(q <= num) by (nonlinear_arith)
            requires
                q == num / span,
                span >= 1,
                num >= 0,
        ;
    }
    let scaled = (b_start as u64) + q;
    if scaled > b_end as u64 {
        b_end
    } else {
        scaled as u32
    }
}

} // verus!
