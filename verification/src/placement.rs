//! Window placement: the rectangle that anchors the window to the bottom-right
//! corner of its monitor.
//!
//! Lengths are whole pixels. A scale factor is a binary64 number, carried by
//! its bit pattern and decoded here, so that a logical length is scaled and
//! rounded in integer arithmetic, exactly.

use vstd::arithmetic::power2::{
    lemma2_to64,
    lemma2_to64_rest,
    lemma_pow2_adds,
    lemma_pow2_pos,
    lemma_pow2_strictly_increases,
    lemma_pow2_unfold,
    pow2,
};
use vstd::prelude::*;

verus! {

/// Width of the window in logical pixels.
pub const LOGICAL_WIDTH: u32 = 400;

/// Height of the window in logical pixels.
pub const LOGICAL_HEIGHT: u32 = 500;

/// The bit pattern of the scale factor one.
pub const UNIT_SCALE_BITS: u64 = 0x3FF0_0000_0000_0000;

/// Two to the power 52: the number of values of the fraction field.
pub const FRACTION_RANGE: u64 = 0x10_0000_0000_0000;

/// Two to the power 11: the number of values of the exponent field.
pub const EXPONENT_RANGE: u64 = 0x800;

/// Two to the power 63: the sign bit.
pub const SIGN_BIT: u64 = 0x8000_0000_0000_0000;

/// A monitor's rectangle in physical pixels.
#[derive(Clone, Copy, Debug, PartialEq, Eq, Structural)]
pub struct Monitor {
    /// Left edge.
    pub x: i32,
    /// Top edge.
    pub y: i32,
    pub width: u32,
    pub height: u32,
}

/// A size in logical pixels.
#[derive(Clone, Copy, Debug, PartialEq, Eq, Structural)]
pub struct LogicalSize {
    pub width: u32,
    pub height: u32,
}

/// The number of physical pixels per logical pixel, as the bit pattern of a
/// binary64 number: a sign bit, eleven bits of exponent and 52 of fraction.
#[derive(Clone, Copy, Debug, PartialEq, Eq, Structural)]
pub struct ScaleFactor {
    pub bits: u64,
}

/// The window's rectangle in physical pixels.
#[derive(Clone, Copy, Debug, PartialEq, Eq, Structural)]
pub struct PlacementGeometry {
    /// Left edge.
    pub x: i32,
    /// Top edge.
    pub y: i32,
    pub width: u32,
    pub height: u32,
}

impl ScaleFactor {
    /// True when the sign bit is set.
    pub open spec fn is_negative(self) -> bool {
        self.bits >= SIGN_BIT
    }

    /// The exponent field.
    pub open spec fn exponent_field(self) -> nat {
        ((self.bits as nat) / (FRACTION_RANGE as nat)) % (EXPONENT_RANGE as nat)
    }

    /// The fraction field.
    pub open spec fn fraction_field(self) -> nat {
        (self.bits as nat) % (FRACTION_RANGE as nat)
    }

    /// True of a number, as opposed to an infinity or a NaN.
    pub open spec fn is_finite(self) -> bool {
        self.exponent_field() != EXPONENT_RANGE - 1
    }

    /// True of what can scale a length: a finite number that is not negative.
    pub open spec fn is_usable(self) -> bool {
        self.is_finite() && !self.is_negative()
    }

    /// The integer `m` of the magnitude `m * 2^e`: the fraction, with the
    /// implicit leading bit unless the number is subnormal.
    pub open spec fn significand(self) -> nat {
        if self.exponent_field() == 0 {
            self.fraction_field()
        } else {
            FRACTION_RANGE as nat + self.fraction_field()
        }
    }

    /// The integer `e` of the magnitude `m * 2^e`.
    pub open spec fn exponent(self) -> int {
        if self.exponent_field() == 0 {
            -1074
        } else {
            self.exponent_field() - 1075
        }
    }

    /// Wraps the bits of a binary64 number.
    pub fn from_bits(bits: u64) -> (scale: ScaleFactor)
        ensures
            scale.bits == bits,
    {
        ScaleFactor { bits }
    }

    /// The scale factor one, at which logical and physical pixels coincide.
    pub fn one() -> (scale: ScaleFactor)
        ensures
            scale.bits == UNIT_SCALE_BITS,
            scale.is_usable(),
            scale.significand() == FRACTION_RANGE,
            scale.exponent() == -52,
    {
        ScaleFactor { bits: UNIT_SCALE_BITS }
    }

    /// The reported scale factor, or one where the toolkit reported none.
    pub fn or_one(reported: Option<ScaleFactor>) -> (scale: ScaleFactor)
        ensures
            scale == scale_or_one(reported),
    {
        match reported {
            Some(scale) => scale,
            None => ScaleFactor::one(),
        }
    }
}

/// The reported scale factor, or one where there is none.
pub open spec fn scale_or_one(reported: Option<ScaleFactor>) -> ScaleFactor {
    match reported {
        Some(scale) => scale,
        None => ScaleFactor { bits: UNIT_SCALE_BITS },
    }
}

/// The integer nearest to `length` times the magnitude of `scale`; a product
/// halfway between two integers goes to the larger.
pub open spec fn scaled_length(length: nat, scale: ScaleFactor) -> nat {
    let product = length * scale.significand();
    if scale.exponent() >= 0 {
        product * pow2(scale.exponent() as nat)
    } else {
        let unit = pow2((-scale.exponent()) as nat);
        (2 * product + unit) / (2 * unit)
    }
}

/// The physical length of a logical one: the scaled length where the scale is
/// usable and the result fits in 32 bits.
pub open spec fn physical_length(length: u32, scale: ScaleFactor) -> Option<u32> {
    if scale.is_usable() && scaled_length(length as nat, scale) <= u32::MAX {
        Some(scaled_length(length as nat, scale) as u32)
    } else {
        None
    }
}

/// Two to the power `e`.
fn power_of_two(e: u32) -> (p: u128)
    requires
        e <= 126,
    ensures
        p == pow2(e as nat),
{
    let mut p: u128 = 1;
    let mut i: u32 = 0;
    proof {
        lemma2_to64();
    }
    while i < e
        invariant
            i <= e <= 126,
            p == pow2(i as nat),
        decreases e - i,
    {
        proof {
            lemma_pow2_unfold((i + 1) as nat);
            lemma_pow2_bound_126(i as nat);
        }
        p = p * 2;
        i += 1;
    }
    p
}

/// Below exponent 126 a power of two stays below two to the power 126.
proof fn lemma_pow2_bound_126(e: nat)
    requires
        e < 126,
    ensures
        pow2(e) < 0x4000_0000_0000_0000_0000_0000_0000_0000,
{
    lemma2_to64();
    lemma2_to64_rest();
    lemma_pow2_adds(64, 62);
    lemma_pow2_strictly_increases(e, 126);
}

/// Two to the power 87, written out.
proof fn lemma_pow2_87()
    ensures
        pow2(87) == 0x80_0000_0000_0000_0000_0000,
{
    lemma2_to64();
    lemma_pow2_adds(64, 23);
}

/// Scales a logical length to physical pixels, rounding to the nearest pixel.
pub fn scale_length(length: u32, scale: ScaleFactor) -> (physical: Option<u32>)
    ensures
        physical == physical_length(length, scale),
{
    let bits = scale.bits;
    if bits >= SIGN_BIT {
        return None;
    }
    let field: u64 = bits / FRACTION_RANGE;
    let fraction: u64 = bits % FRACTION_RANGE;
    if field == EXPONENT_RANGE - 1 {
        return None;
    }
    let significand: u64 = if field == 0 {
        fraction
    } else {
        FRACTION_RANGE + fraction
    };
    assert((length as u128) * (significand as u128) < 0x20_0000_0000_0000_0000_0000) by (nonlinear_arith)
        requires
            length <= 0xFFFF_FFFF,
            significand < 0x20_0000_0000_0000,
    ;
    let product: u128 = (length as u128) * (significand as u128);
    if product == 0 {
        proof {
            lemma_zero_scales_to_zero(length as nat, scale);
        }
        return Some(0);
    }
    if field >= 1075 {
        proof {
            let e = (field - 1075) as nat;
            lemma_pow2_pos(e);
            assert(product >= FRACTION_RANGE) by (nonlinear_arith)
                requires
                    product == length * significand,
                    product != 0,
                    significand >= FRACTION_RANGE,
            ;
            assert(product * pow2(e) >= product) by (nonlinear_arith)
                requires
                    pow2(e) >= 1,
                    product >= 0,
            ;
        }
        return None;
    }
    let shift: u64 = if field == 0 {
        1074
    } else {
        1075 - field
    };
    if shift > 86 {
        proof {
            let unit = pow2(shift as nat);
            lemma_pow2_87();
            if shift > 87 {
                lemma_pow2_strictly_increases(87, shift as nat);
            }
            let twice = (2 * product) as nat;
            assert((twice + unit) / (2 * unit) == 0) by (nonlinear_arith)
                requires
                    twice < unit,
            ;
        }
        return Some(0);
    }
    let unit: u128 = power_of_two(shift as u32);
    proof {
        lemma_pow2_87();
        lemma_pow2_strictly_increases(shift as nat, 87);
        lemma_pow2_pos(shift as nat);
    }
    let rounded: u128 = (2 * product + unit) / (2 * unit);
    if rounded > 0xFFFF_FFFF {
        None
    } else {
        Some(rounded as u32)
    }
}

/// Nothing scales to nothing: where the length or the scale is zero, so is the
/// scaled length.
proof fn lemma_zero_scales_to_zero(length: nat, scale: ScaleFactor)
    requires
        length * scale.significand() == 0,
    ensures
        scaled_length(length, scale) == 0,
{
    if scale.exponent() >= 0 {
        assert(0 * pow2(scale.exponent() as nat) == 0);
    } else {
        let unit = pow2((-scale.exponent()) as nat);
        lemma_pow2_pos((-scale.exponent()) as nat);
        assert(unit / (2 * unit) == 0) by (nonlinear_arith)
            requires
                unit > 0,
        ;
    }
}

impl PlacementGeometry {
    /// True when the window's bottom-right corner is the monitor's.
    pub open spec fn anchored_to(self, monitor: Monitor) -> bool {
        &&& self.x + self.width == monitor.x + monitor.width
        &&& self.y + self.height == monitor.y + monitor.height
    }
}

/// The coordinate at which a window of extent `window` ends where the monitor
/// does, along one axis.
pub open spec fn anchored_origin(origin: i32, extent: u32, window: u32) -> int {
    origin + extent - window
}

/// The window's rectangle on a monitor: the logical size scaled to physical
/// pixels, its bottom-right corner on the monitor's. There is none where the
/// scale is unusable or a length or coordinate does not fit in 32 bits.
pub open spec fn anchored_geometry(
    monitor: Monitor,
    scale: ScaleFactor,
    logical: LogicalSize,
) -> Option<PlacementGeometry> {
    match (physical_length(logical.width, scale), physical_length(logical.height, scale)) {
        (Some(width), Some(height)) => {
            let x = anchored_origin(monitor.x, monitor.width, width);
            let y = anchored_origin(monitor.y, monitor.height, height);
            if i32::MIN <= x <= i32::MAX && i32::MIN <= y <= i32::MAX {
                Some(PlacementGeometry { x: x as i32, y: y as i32, width, height })
            } else {
                None
            }
        },
        _ => None,
    }
}

/// The placement for what the toolkit reported: none without a monitor, and
/// the scale factor one without a scale.
pub open spec fn placement(
    monitor: Option<Monitor>,
    scale: Option<ScaleFactor>,
    logical: LogicalSize,
) -> Option<PlacementGeometry> {
    match monitor {
        Some(m) => anchored_geometry(m, scale_or_one(scale), logical),
        None => None,
    }
}

/// The size of the window in logical pixels.
pub fn window_size() -> (size: LogicalSize)
    ensures
        size.width == LOGICAL_WIDTH,
        size.height == LOGICAL_HEIGHT,
{
    LogicalSize { width: LOGICAL_WIDTH, height: LOGICAL_HEIGHT }
}

/// One coordinate of the anchored window, where it fits in 32 bits.
fn anchor(origin: i32, extent: u32, window: u32) -> (at: Option<i32>)
    ensures
        at is Some <==> i32::MIN <= anchored_origin(origin, extent, window) <= i32::MAX,
        at is Some ==> at.unwrap() == anchored_origin(origin, extent, window),
{
    let wide: i64 = origin as i64 + extent as i64 - window as i64;
    if wide < i32::MIN as i64 || wide > i32::MAX as i64 {
        None
    } else {
        Some(wide as i32)
    }
}

/// Computes where the window goes: `monitor` is the monitor that holds the
/// window, `None` where the query for it failed; `scale` is that monitor's
/// scale factor, `None` where it is unavailable. Without a placement the
/// window stays where the toolkit put it.
pub fn place_bottom_right(
    monitor: Option<Monitor>,
    scale: Option<ScaleFactor>,
    logical: LogicalSize,
) -> (geometry: Option<PlacementGeometry>)
    ensures
        geometry == placement(monitor, scale, logical),
        geometry is Some ==> monitor is Some && geometry.unwrap().anchored_to(monitor.unwrap()),
{
    let m = match monitor {
        Some(m) => m,
        None => {
            return None;
        },
    };
    let factor = ScaleFactor::or_one(scale);
    let width = match scale_length(logical.width, factor) {
        Some(width) => width,
        None => {
            return None;
        },
    };
    let height = match scale_length(logical.height, factor) {
        Some(height) => height,
        None => {
            return None;
        },
    };
    let x = match anchor(m.x, m.width, width) {
        Some(x) => x,
        None => {
            return None;
        },
    };
    let y = match anchor(m.y, m.height, height) {
        Some(y) => y,
        None => {
            return None;
        },
    };
    Some(PlacementGeometry { x, y, width, height })
}

/// Scaling rounds to the nearest pixel: a scale with a non-negative exponent
/// gives the exact product, any other the integer within half a pixel of it,
/// the larger one of two that are equally near.
pub proof fn scaled_length_is_nearest(length: nat, scale: ScaleFactor)
    ensures
        scale.exponent() >= 0 ==> scaled_length(length, scale) == length * scale.significand()
            * pow2(scale.exponent() as nat),
        scale.exponent() < 0 ==> {
            let unit = pow2((-scale.exponent()) as nat);
            let exact = 2 * (length * scale.significand());
            let rounded = scaled_length(length, scale);
            2 * rounded * unit - unit <= exact < 2 * rounded * unit + unit
        },
{
    if scale.exponent() < 0 {
        let unit = pow2((-scale.exponent()) as nat);
        let exact = 2 * (length * scale.significand());
        let rounded = scaled_length(length, scale);
        lemma_pow2_pos((-scale.exponent()) as nat);
        assert(2 * rounded * unit - unit <= exact < 2 * rounded * unit + unit) by (nonlinear_arith)
            requires
                unit > 0,
                exact >= 0,
                rounded == (exact + unit) / (2 * unit),
        ;
    }
}

/// At the scale factor one a physical length is the logical length.
pub proof fn unit_scale_keeps_length(length: u32)
    ensures
        physical_length(length, ScaleFactor { bits: UNIT_SCALE_BITS }) == Some(length),
{
    let one = ScaleFactor { bits: UNIT_SCALE_BITS };
    let unit = pow2(52);
    lemma2_to64_rest();
    assert(one.exponent() == -52);
    assert(one.significand() == unit);
    let n = length as nat;
    assert((2 * (n * unit) + unit) / (2 * unit) == n) by (nonlinear_arith)
        requires
            unit > 0,
    ;
}

} // verus!
