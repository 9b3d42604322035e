//! Deciding the system volume to write.
//!
//! The output device reports its volume as a 32-bit floating point number,
//! where 0.0 is muted and 1.0 is full. The library never computes with
//! such numbers: it receives each one as its IEEE-754 bit pattern
//! (`f32::to_bits`) and decides, from the bits alone, what the floating
//! point `min`, `max` and `clamp` of the original steps give. The step of
//! 0.05 itself is added or subtracted by the caller, on the unrounded
//! reading. Whole-number levels from 0 to 100 are exact and are handled
//! here directly.

use vstd::prelude::*;

verus! {

/// The bit pattern of 0.0.
pub const ZERO_BITS: u32 = 0;

/// The bit pattern of 1.0.
pub const ONE_BITS: u32 = 0x3F80_0000;

/// The bit pattern of positive infinity.
pub const INFINITY_BITS: u32 = 0x7F80_0000;

/// The highest whole-number volume level.
pub const MAX_LEVEL: u8 = 100;

/// The sign bit of a bit pattern is set.
pub open spec fn sign_set(b: u32) -> bool {
    b >= 0x8000_0000
}

/// The bit pattern without its sign bit.
pub open spec fn magnitude(b: u32) -> int {
    if sign_set(b) {
        b - 0x8000_0000
    } else {
        b as int
    }
}

/// The bit pattern is a NaN: all exponent bits set and a nonzero fraction.
pub open spec fn is_nan(b: u32) -> bool {
    magnitude(b) > INFINITY_BITS
}

/// The number is greater than 1.0 (positive infinity included).
pub open spec fn exceeds_one(b: u32) -> bool {
    !is_nan(b) && !sign_set(b) && b > ONE_BITS
}

/// The number is less than 0.0 (negative infinity included; -0.0 is not).
pub open spec fn below_zero(b: u32) -> bool {
    !is_nan(b) && sign_set(b) && magnitude(b) != 0
}

/// The number is not a NaN and lies between 0.0 and 1.0.
pub open spec fn in_unit_interval(b: u32) -> bool {
    !is_nan(b) && !exceeds_one(b) && !below_zero(b)
}

/// `x.min(1.0)`: 1.0 for a NaN or anything above 1.0, else `x`.
pub open spec fn spec_min_one(b: u32) -> u32 {
    if is_nan(b) || exceeds_one(b) {
        ONE_BITS
    } else {
        b
    }
}

/// `x.max(0.0)`: 0.0 for a NaN or anything below 0.0, else `x`.
pub open spec fn spec_max_zero(b: u32) -> u32 {
    if is_nan(b) || below_zero(b) {
        ZERO_BITS
    } else {
        b
    }
}

/// `x.clamp(0.0, 1.0)`: 0.0 below the range, 1.0 above it, else `x`
/// (a NaN stays as it is).
pub open spec fn spec_clamp_unit(b: u32) -> u32 {
    if below_zero(b) {
        ZERO_BITS
    } else if exceeds_one(b) {
        ONE_BITS
    } else {
        b
    }
}

/// The level written for a requested level: the level itself up to 100,
/// and 100 above that.
pub open spec fn spec_set_level(level: u8) -> u8 {
    if level > MAX_LEVEL {
        MAX_LEVEL
    } else {
        level
    }
}

fn is_nan_exec(b: u32) -> (r: bool)
    ensures
        r == is_nan(b),
{
    let m = if b >= 0x8000_0000 { b - 0x8000_0000 } else { b };
    m > INFINITY_BITS
}

fn exceeds_one_exec(b: u32) -> (r: bool)
    ensures
        r == exceeds_one(b),
{
    !is_nan_exec(b) && b < 0x8000_0000 && b > ONE_BITS
}

fn below_zero_exec(b: u32) -> (r: bool)
    ensures
        r == below_zero(b),
{
    !is_nan_exec(b) && b > 0x8000_0000
}

/// The volume to write after "volume up".
///
/// `raised` is the bit pattern of the device reading plus 0.05, `None` when
/// the reading failed; then nothing is written and `None` comes back.
/// Otherwise the result is `raised.min(1.0)`.
pub fn volume_up(raised: Option<u32>) -> (target: Option<u32>)
    ensures
        match raised {
            None => target is None,
            Some(b) => target == Some(spec_min_one(b)),
        },
{
    match raised {
        None => None,
        Some(b) => {
            if is_nan_exec(b) || exceeds_one_exec(b) {
                Some(ONE_BITS)
            } else {
                Some(b)
            }
        },
    }
}

/// The volume to write after "volume down".
///
/// `lowered` is the bit pattern of the device reading minus 0.05, `None`
/// when the reading failed; then nothing is written and `None` comes back.
/// Otherwise the result is `lowered.max(0.0)`. (For -0.0 the floating point
/// `max` may give either zero; this gives -0.0 back.)
pub fn volume_down(lowered: Option<u32>) -> (target: Option<u32>)
    ensures
        match lowered {
            None => target is None,
            Some(b) => target == Some(spec_max_zero(b)),
        },
{
    match lowered {
        None => None,
        Some(b) => {
            if is_nan_exec(b) || below_zero_exec(b) {
                Some(ZERO_BITS)
            } else {
                Some(b)
            }
        },
    }
}

/// The value actually written to the device: `volume.clamp(0.0, 1.0)`.
pub fn clamp_to_unit(volume: u32) -> (written: u32)
    ensures
        written == spec_clamp_unit(volume),
{
    if below_zero_exec(volume) {
        ZERO_BITS
    } else if exceeds_one_exec(volume) {
        ONE_BITS
    } else {
        volume
    }
}

/// Set the volume to `level` out of 100; levels above 100 mean full volume
/// (the caller writes `level / 100`).
pub fn set_volume(level: u8) -> (target: u8)
    ensures
        target == spec_set_level(level),
{
    if level > MAX_LEVEL {
        MAX_LEVEL
    } else {
        level
    }
}

/// "Volume up" writes the raised reading itself whenever it is a number of
/// at most 1.0 (negative numbers and both zeros included), and 1.0 only for
/// a NaN or a number above 1.0. In bit patterns: positive patterns up to
/// 1.0 (`0x3F80_0000`) and negative non-NaN patterns (`0x8000_0000` to
/// `0xFF80_0000`) come back unchanged; everything else gives 1.0.
pub proof fn lemma_volume_up_caps_only_above_one(b: u32)
    ensures
        b <= 0x3F80_0000 ==> spec_min_one(b) == b,
        0x8000_0000 <= b <= 0xFF80_0000 ==> spec_min_one(b) == b,
        0x3F80_0000 < b <= 0x7FFF_FFFF ==> spec_min_one(b) == 0x3F80_0000,
        b > 0xFF80_0000 ==> spec_min_one(b) == 0x3F80_0000,
        spec_min_one(b) == b || spec_min_one(b) == 0x3F80_0000,
{
}

/// "Volume down" writes the lowered reading itself whenever it is a number
/// of at least 0.0 (-0.0 included, up to positive infinity), and 0.0 only
/// for a NaN or a number below 0.0. In bit patterns: `0` to `0x7F80_0000`
/// and `0x8000_0000` (-0.0) come back unchanged; everything else gives 0.0.
pub proof fn lemma_volume_down_floors_only_below_zero(b: u32)
    ensures
        b <= 0x7F80_0000 ==> spec_max_zero(b) == b,
        b == 0x8000_0000 ==> spec_max_zero(b) == b,
        0x7F80_0000 < b <= 0x7FFF_FFFF ==> spec_max_zero(b) == 0,
        b > 0x8000_0000 ==> spec_max_zero(b) == 0,
        spec_max_zero(b) == b || spec_max_zero(b) == 0,
{
}

/// A requested level from 0 to 100 is set exactly as requested; any level
/// above 100 sets full volume (100).
pub proof fn lemma_set_volume_keeps_valid_levels(level: u8)
    ensures
        level <= 100 ==> spec_set_level(level) == level,
        level > 100 ==> spec_set_level(level) == 100,
{
}

/// The value written to the device: bit patterns of numbers from 0.0 to
/// 1.0 (`0` to `0x3F80_0000`, and -0.0) and NaNs are written unchanged;
/// numbers above 1.0 write 1.0 and numbers below 0.0 write 0.0.
pub proof fn lemma_clamp_in_bits(b: u32)
    ensures
        b <= 0x3F80_0000 ==> spec_clamp_unit(b) == b,
        b == 0x8000_0000 ==> spec_clamp_unit(b) == b,
        0x3F80_0000 < b <= 0x7F80_0000 ==> spec_clamp_unit(b) == 0x3F80_0000,
        0x8000_0000 < b <= 0xFF80_0000 ==> spec_clamp_unit(b) == 0,
        (0x7F80_0000 < b <= 0x7FFF_FFFF || b > 0xFF80_0000) ==> spec_clamp_unit(b) == b,
{
}

/// Whatever the device read, "volume up" and "volume down" write a number
/// between 0.0 and 1.0, never a NaN.
pub proof fn lemma_steps_write_unit_interval(b: u32)
    ensures
        in_unit_interval(spec_clamp_unit(spec_min_one(b))),
        in_unit_interval(spec_clamp_unit(spec_max_zero(b))),
{
}

/// The value written lies between 0.0 and 1.0 unless it was a NaN, and a
/// value already in that range is written unchanged.
pub proof fn lemma_clamp_unit(b: u32)
    ensures
        !is_nan(b) ==> in_unit_interval(spec_clamp_unit(b)),
        in_unit_interval(b) ==> spec_clamp_unit(b) == b,
        is_nan(b) ==> spec_clamp_unit(b) == b,
{
}

} // verus!
