//! How electrical quantities map to visual space: calibration, pending
//! interpolations, clamping and the safety classes.

use vstd::prelude::*;
use crate::ieee::Binary32;
use crate::ieee::Binary64;

verus! {

/// Encoding of `0.95`, the per-unit voltage below which a conductor is low.
pub const SAFE_VOLTAGE_LOW_BITS: u32 = 0x3f73_3333;

/// Encoding of `1.05`, the per-unit voltage above which a conductor is high.
pub const SAFE_VOLTAGE_HIGH_BITS: u32 = 0x3f86_6666;

/// Encoding of `1.5`, the default height of the highest voltage.
pub const DEFAULT_HEIGHT_MAX_BITS: u32 = 0x3fc0_0000;

/// Encoding of `0.9`, the default lowest voltage of the height scale.
pub const DEFAULT_VOLT_MIN_BITS: u32 = 0x3f66_6666;

/// Encoding of `1.1`, the default highest voltage of the height scale.
pub const DEFAULT_VOLT_MAX_BITS: u32 = 0x3f8c_cccd;

/// Encoding of `0.001`, the default width of the thinnest tube.
pub const DEFAULT_TUBE_MIN_BITS: u32 = 0x3a83_126f;

/// Encoding of `0.03`, the default width of the thickest tube.
pub const DEFAULT_TUBE_MAX_BITS: u32 = 0x3cf5_c28f;

/// Encoding of `1700.0`, the default power that gets the thickest tube.
pub const DEFAULT_WATT_BOUNDS_BITS: u32 = 0x44d4_8000;

/// Encoding of `2.0`, the line load that gets the greatest height.
pub const LINE_LOAD_MAX_BITS: u32 = 0x4000_0000;

/// Encoding of the double `1.0`.
pub const WIDE_ONE_BITS: u64 = 0x3ff0_0000_0000_0000;

/// Encoding of the double `-1.0`.
pub const WIDE_MINUS_ONE_BITS: u64 = 0xbff0_0000_0000_0000;

/// Whether a per-unit voltage lies in the safe band.
#[derive(Clone, Copy, Debug, PartialEq, Eq, Structural)]
pub enum VoltageSafety {
    Safe,
    Low,
    High,
}

/// A lower and an upper bound along one axis, in double precision.
#[derive(Clone, Copy, Debug, PartialEq, Eq, Structural)]
pub struct Span {
    pub lo: Binary64,
    pub hi: Binary64,
}

/// A clamped affine interpolation that is still to be evaluated: the value
/// at `x` of the line through `(x0, y0)` and `(x1, y1)`, which is
/// `y0 + (x - x0) * ((y1 - y0) / (x1 - x0))`, held within the output range.
/// Where `x` lies on or beyond a bound of the input range the value is
/// settled without arithmetic ([`Lerp::settled`]); else the caller evaluates
/// the line and hands the value to [`Lerp::resolved`].
#[derive(Clone, Copy, Debug, PartialEq, Eq, Structural)]
pub struct Lerp {
    pub x: Binary32,
    pub x0: Binary32,
    pub x1: Binary32,
    pub y0: Binary32,
    pub y1: Binary32,
}

/// An interpolation of a single-precision coordinate between double-precision
/// bounds, still to be evaluated: `x` is widened, the line through `(x0, y0)`
/// and `(x1, y1)` is taken at it, and the value is narrowed again. It is not
/// clamped.
#[derive(Clone, Copy, Debug, PartialEq, Eq, Structural)]
pub struct WideLerp {
    pub x: Binary32,
    pub x0: Binary64,
    pub x1: Binary64,
    pub y0: Binary64,
    pub y1: Binary64,
}

/// How voltage and power map to heights and widths, and data coordinates to
/// the visual square.
#[derive(Clone, Copy, Debug, PartialEq, Eq, Structural)]
pub struct Domain {
    /// Smallest and largest data coordinate along X.
    pub data_x: Span,
    /// Smallest and largest data coordinate along Y.
    pub data_y: Span,
    /// The side of the square around the data along X.
    pub x_bounds: Span,
    /// The side of the square around the data along Y.
    pub y_bounds: Span,
    /// Height of the lowest voltage of the scale.
    pub volt_height_min: Binary32,
    /// Height of the highest voltage of the scale.
    pub volt_height_max: Binary32,
    /// Lowest voltage of the height scale.
    pub volt_min: Binary32,
    /// Highest voltage of the height scale.
    pub volt_max: Binary32,
    /// Width of the thinnest tube.
    pub tube_min: Binary32,
    /// Width of the thickest tube.
    pub tube_max: Binary32,
    /// Real or reactive power that gets the thickest tube.
    pub watt_bounds: Binary32,
}

/// `input` bounded by `min` and `max`: `min` if `input < min`, else `max` if
/// `input > max`, else `input`. A NaN passes through, since it compares with
/// nothing.
pub open spec fn clamp_spec(input: Binary32, min: Binary32, max: Binary32) -> Binary32 {
    if input.less(min) {
        min
    } else if max.less(input) {
        max
    } else {
        input
    }
}

pub fn clamp(input: Binary32, min: Binary32, max: Binary32) -> (r: Binary32)
    ensures
        r == clamp_spec(input, min, max),
{
    if input.lt(min) {
        min
    } else if input.gt(max) {
        max
    } else {
        input
    }
}

impl Lerp {
    /// The evaluated interpolation `value`, clamped to the output range: to
    /// `[y0, y1]`, or to `[y1, y0]` where the range is inverted.
    pub open spec fn clamped_spec(self, value: Binary32) -> Binary32 {
        if self.y1.less(self.y0) {
            clamp_spec(value, self.y1, self.y0)
        } else {
            clamp_spec(value, self.y0, self.y1)
        }
    }

    pub fn clamped(&self, value: Binary32) -> (r: Binary32)
        ensures
            r == self.clamped_spec(value),
    {
        if self.y1.lt(self.y0) {
            clamp(value, self.y1, self.y0)
        } else {
            clamp(value, self.y0, self.y1)
        }
    }

    /// What the interpolation comes to without any arithmetic: `y0` where
    /// `x` lies at or below the lower bound of the input range, `y1` where
    /// it lies at or above the upper bound. Nothing is settled inside the
    /// range, for an `x` that is no number, or where the input range is
    /// empty or inverted.
    pub open spec fn settled_spec(self) -> Option<Binary32> {
        if !self.x0.less(self.x1) {
            None
        } else if self.x.at_most(self.x0) {
            Some(self.y0)
        } else if self.x1.at_most(self.x) {
            Some(self.y1)
        } else {
            None
        }
    }

    pub fn settled(&self) -> (r: Option<Binary32>)
        ensures
            r == self.settled_spec(),
    {
        if !self.x0.lt(self.x1) {
            None
        } else if self.x.le(self.x0) {
            Some(self.y0)
        } else if self.x1.le(self.x) {
            Some(self.y1)
        } else {
            None
        }
    }

    /// The value of the clamped interpolation, given what the line gives at
    /// `x`: the settled value where there is one, so that an input beyond
    /// the range maps to the boundary output exactly, else `value` clamped
    /// to the output range.
    pub open spec fn resolved_spec(self, value: Binary32) -> Binary32 {
        match self.settled_spec() {
            Some(y) => y,
            None => self.clamped_spec(value),
        }
    }

    pub fn resolved(&self, value: Binary32) -> (r: Binary32)
        ensures
            r == self.resolved_spec(value),
    {
        match self.settled() {
            Some(y) => y,
            None => self.clamped(value),
        }
    }
}

impl Domain {
    /// The calibration that a new domain gets.
    pub open spec fn default_spec() -> Domain {
        Domain {
            data_x: Span { lo: Binary64 { bits: 0 }, hi: Binary64 { bits: 0 } },
            data_y: Span { lo: Binary64 { bits: 0 }, hi: Binary64 { bits: 0 } },
            x_bounds: Span { lo: Binary64 { bits: 0 }, hi: Binary64 { bits: 0 } },
            y_bounds: Span { lo: Binary64 { bits: 0 }, hi: Binary64 { bits: 0 } },
            volt_height_min: Binary32 { bits: 0 },
            volt_height_max: Binary32 { bits: DEFAULT_HEIGHT_MAX_BITS },
            volt_min: Binary32 { bits: DEFAULT_VOLT_MIN_BITS },
            volt_max: Binary32 { bits: DEFAULT_VOLT_MAX_BITS },
            tube_min: Binary32 { bits: DEFAULT_TUBE_MIN_BITS },
            tube_max: Binary32 { bits: DEFAULT_TUBE_MAX_BITS },
            watt_bounds: Binary32 { bits: DEFAULT_WATT_BOUNDS_BITS },
        }
    }

    /// The scales are real intervals: no bound is a NaN, the voltage scale
    /// and the power scale are not empty, heights run upwards and widths
    /// grow.
    pub open spec fn calibrated(self) -> bool {
        &&& self.volt_min.less(self.volt_max)
        &&& (Binary32 { bits: 0 }).less(self.watt_bounds)
        &&& self.volt_height_min.at_most(self.volt_height_max)
        &&& self.tube_min.at_most(self.tube_max)
    }

    /// A domain over the given data bounds and the square around them, with
    /// the default calibration.
    pub fn new(data_x: Span, data_y: Span, x_bounds: Span, y_bounds: Span) -> (r: Domain)
        ensures
            r == (Domain { data_x, data_y, x_bounds, y_bounds, ..Self::default_spec() }),
            r.calibrated(),
    {
        let base = Domain::default();
        Domain { data_x, data_y, x_bounds, y_bounds, ..base }
    }

    /// The height of voltage `v`: `|v|` taken from the voltage scale to the
    /// height scale.
    pub open spec fn voltage_lerp(self, v: Binary32) -> Lerp {
        Lerp {
            x: v.absolute(),
            x0: self.volt_min,
            x1: self.volt_max,
            y0: self.volt_height_min,
            y1: self.volt_height_max,
        }
    }

    /// The height of line load `v`: `|v|` taken from `[0, 2]` to the height
    /// scale.
    pub open spec fn line_load_lerp(self, v: Binary32) -> Lerp {
        Lerp {
            x: v.absolute(),
            x0: Binary32 { bits: 0 },
            x1: Binary32 { bits: LINE_LOAD_MAX_BITS },
            y0: self.volt_height_min,
            y1: self.volt_height_max,
        }
    }

    /// The tube width of power `v`: `|v|` taken from `[0, watt_bounds]` to
    /// the width scale.
    pub open spec fn power_lerp(self, v: Binary32) -> Lerp {
        Lerp {
            x: v.absolute(),
            x0: Binary32 { bits: 0 },
            x1: self.watt_bounds,
            y0: self.tube_min,
            y1: self.tube_max,
        }
    }

    /// Maps a voltage to a height: the pending interpolation, which
    /// [`Lerp::resolved`] turns into the height.
    pub fn voltage_to_height(&self, v: Binary32) -> (r: Lerp)
        ensures
            r == self.voltage_lerp(v),
    {
        Lerp {
            x: v.abs(),
            x0: self.volt_min,
            x1: self.volt_max,
            y0: self.volt_height_min,
            y1: self.volt_height_max,
        }
    }

    /// Maps a line load to a height, as [`Domain::voltage_to_height`] does a
    /// voltage.
    pub fn line_load_to_height(&self, v: Binary32) -> (r: Lerp)
        ensures
            r == self.line_load_lerp(v),
    {
        Lerp {
            x: v.abs(),
            x0: Binary32::zero(),
            x1: Binary32::from_bits(LINE_LOAD_MAX_BITS),
            y0: self.volt_height_min,
            y1: self.volt_height_max,
        }
    }

    /// Whether voltage `v` is in the safe band: low below 0.95, high above
    /// 1.05, safe otherwise, both bounds included. A NaN is safe.
    pub open spec fn safety_of(v: Binary32) -> VoltageSafety {
        if v.less(Binary32 { bits: SAFE_VOLTAGE_LOW_BITS }) {
            VoltageSafety::Low
        } else if (Binary32 { bits: SAFE_VOLTAGE_HIGH_BITS }).less(v) {
            VoltageSafety::High
        } else {
            VoltageSafety::Safe
        }
    }

    /// Classifies a voltage. The thresholds are fixed; the calibration plays
    /// no part.
    pub fn voltage_safety(&self, v: Binary32) -> (r: VoltageSafety)
        ensures
            r == Self::safety_of(v),
    {
        if v.lt(Binary32::from_bits(SAFE_VOLTAGE_LOW_BITS)) {
            VoltageSafety::Low
        } else if v.gt(Binary32::from_bits(SAFE_VOLTAGE_HIGH_BITS)) {
            VoltageSafety::High
        } else {
            VoltageSafety::Safe
        }
    }

    /// Maps real power to a tube width: the pending interpolation.
    pub fn real_power_to_width(&self, v: Binary32) -> (r: Lerp)
        ensures
            r == self.power_lerp(v),
    {
        Lerp {
            x: v.abs(),
            x0: Binary32::zero(),
            x1: self.watt_bounds,
            y0: self.tube_min,
            y1: self.tube_max,
        }
    }

    /// Maps reactive power to a tube width: the pending interpolation.
    pub fn reactive_power_to_width(&self, v: Binary32) -> (r: Lerp)
        ensures
            r == self.power_lerp(v),
    {
        Lerp {
            x: v.abs(),
            x0: Binary32::zero(),
            x1: self.watt_bounds,
            y0: self.tube_min,
            y1: self.tube_max,
        }
    }

    /// Maps a data X coordinate into the visual square: from `x_bounds` to
    /// `[-1, 1]`.
    pub fn lerp_x(&self, v: Binary32) -> (r: WideLerp)
        ensures
            r == (WideLerp {
                x: v,
                x0: self.x_bounds.lo,
                x1: self.x_bounds.hi,
                y0: Binary64 { bits: WIDE_MINUS_ONE_BITS },
                y1: Binary64 { bits: WIDE_ONE_BITS },
            }),
    {
        WideLerp {
            x: v,
            x0: self.x_bounds.lo,
            x1: self.x_bounds.hi,
            y0: Binary64::from_bits(WIDE_MINUS_ONE_BITS),
            y1: Binary64::from_bits(WIDE_ONE_BITS),
        }
    }

    /// Maps a data Y coordinate into the visual square, flipped: from
    /// `y_bounds` to `[1, -1]`, so that growing data Y runs towards -1.
    pub fn lerp_y(&self, v: Binary32) -> (r: WideLerp)
        ensures
            r == (WideLerp {
                x: v,
                x0: self.y_bounds.lo,
                x1: self.y_bounds.hi,
                y0: Binary64 { bits: WIDE_ONE_BITS },
                y1: Binary64 { bits: WIDE_MINUS_ONE_BITS },
            }),
    {
        WideLerp {
            x: v,
            x0: self.y_bounds.lo,
            x1: self.y_bounds.hi,
            y0: Binary64::from_bits(WIDE_ONE_BITS),
            y1: Binary64::from_bits(WIDE_MINUS_ONE_BITS),
        }
    }
}

impl Default for Domain {
    fn default() -> (r: Domain)
        ensures
            r == Domain::default_spec(),
            r.calibrated(),
    {
        Domain {
            data_x: Span { lo: Binary64::from_bits(0), hi: Binary64::from_bits(0) },
            data_y: Span { lo: Binary64::from_bits(0), hi: Binary64::from_bits(0) },
            x_bounds: Span { lo: Binary64::from_bits(0), hi: Binary64::from_bits(0) },
            y_bounds: Span { lo: Binary64::from_bits(0), hi: Binary64::from_bits(0) },
            volt_height_min: Binary32::zero(),
            volt_height_max: Binary32::from_bits(DEFAULT_HEIGHT_MAX_BITS),
            volt_min: Binary32::from_bits(DEFAULT_VOLT_MIN_BITS),
            volt_max: Binary32::from_bits(DEFAULT_VOLT_MAX_BITS),
            tube_min: Binary32::from_bits(DEFAULT_TUBE_MIN_BITS),
            tube_max: Binary32::from_bits(DEFAULT_TUBE_MAX_BITS),
            watt_bounds: Binary32::from_bits(DEFAULT_WATT_BOUNDS_BITS),
        }
    }
}

/// A clamped value lies in the output range, whatever the interpolation gave,
/// unless that was a NaN: the bounds of the range are themselves values of it.
pub proof fn lemma_clamped_in_range(l: Lerp, value: Binary32)
    requires
        !l.y0.nan(),
        !l.y1.nan(),
        !value.nan(),
    ensures
        l.y0.at_most(l.y1) ==> l.y0.at_most(l.clamped_spec(value)) && l.clamped_spec(value).at_most(
            l.y1,
        ),
        l.y1.at_most(l.y0) ==> l.y1.at_most(l.clamped_spec(value)) && l.clamped_spec(value).at_most(
            l.y0,
        ),
{
}

/// A value beyond the output range comes out as the bound that it passed,
/// exactly: nothing overshoots.
pub proof fn lemma_clamped_at_boundary(l: Lerp, value: Binary32)
    requires
        l.y0.at_most(l.y1),
    ensures
        value.less(l.y0) ==> l.clamped_spec(value) == l.y0,
        l.y1.less(value) ==> l.clamped_spec(value) == l.y1,
        l.y0.at_most(value) && value.at_most(l.y1) ==> l.clamped_spec(value) == value,
{
}

/// For every voltage, line load and power, the height or width lies within
/// the calibrated range, whatever number the line gave. It can fail only
/// for a quantity inside its scale for which the line gives no number, and
/// for a quantity that is itself no number.
pub proof fn lemma_voltage_height_in_range(d: Domain, v: Binary32, value: Binary32)
    requires
        d.calibrated(),
    ensures
        !value.nan() || d.voltage_lerp(v).settled_spec() is Some ==> d.volt_height_min.at_most(
            d.voltage_lerp(v).resolved_spec(value),
        ) && d.voltage_lerp(v).resolved_spec(value).at_most(d.volt_height_max),
        !value.nan() || d.line_load_lerp(v).settled_spec() is Some ==> d.volt_height_min.at_most(
            d.line_load_lerp(v).resolved_spec(value),
        ) && d.line_load_lerp(v).resolved_spec(value).at_most(d.volt_height_max),
        !value.nan() || d.power_lerp(v).settled_spec() is Some ==> d.tube_min.at_most(
            d.power_lerp(v).resolved_spec(value),
        ) && d.power_lerp(v).resolved_spec(value).at_most(d.tube_max),
{
}

/// A voltage outside the voltage scale maps to the boundary height exactly,
/// whatever the line gives there: the lowest height for a magnitude at or
/// below the lowest voltage, the highest for one at or above the highest.
/// The same holds of line load and of power on their scales.
pub proof fn lemma_beyond_scale_is_boundary(d: Domain, v: Binary32, value: Binary32)
    requires
        d.calibrated(),
    ensures
        v.absolute().at_most(d.volt_min) ==> d.voltage_lerp(v).resolved_spec(value)
            == d.volt_height_min,
        d.volt_max.at_most(v.absolute()) ==> d.voltage_lerp(v).resolved_spec(value)
            == d.volt_height_max,
        (Binary32 { bits: LINE_LOAD_MAX_BITS }).at_most(v.absolute()) ==> d.line_load_lerp(
            v,
        ).resolved_spec(value) == d.volt_height_max,
        d.watt_bounds.at_most(v.absolute()) ==> d.power_lerp(v).resolved_spec(value) == d.tube_max,
        v.absolute().at_most(Binary32 { bits: 0 }) ==> d.power_lerp(v).resolved_spec(value)
            == d.tube_min && d.line_load_lerp(v).resolved_spec(value) == d.volt_height_min,
{
}

/// For every voltage that is a number, the interpolation is settled or its
/// magnitude lies strictly inside the voltage scale: nothing outside the
/// scale is left to arithmetic.
pub proof fn lemma_settled_outside_scale(d: Domain, v: Binary32)
    requires
        d.calibrated(),
        !v.nan(),
    ensures
        d.voltage_lerp(v).settled_spec() is None ==> d.volt_min.less(v.absolute())
            && v.absolute().less(d.volt_max),
{
}

} // verus!
