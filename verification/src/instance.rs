//! The instance record and the rules by which each category of element
//! becomes one: which phase is read, which heights and widths are asked for,
//! which elements are left out, how the colour channels are set, and how a
//! record is laid out in a buffer.

use vstd::prelude::*;
use crate::domain::Domain;
use crate::domain::Lerp;
use crate::domain::VoltageSafety;
use crate::dots::GeneratorState;
use crate::dots::GeneratorType;
use crate::dots::LineState;
use crate::dots::TransformerState;
use crate::ieee::Binary32;
use crate::ieee::ONE_BITS;
use crate::vector::Quat;
use crate::vector::Vec3;
use crate::vector::Vec4;

verus! {

/// Encoding of `0.5`, the saturation of a safe voltage.
pub const SATURATION_SAFE_BITS: u32 = 0x3f00_0000;

/// Encoding of `0.2`, the saturation of a low voltage.
pub const SATURATION_LOW_BITS: u32 = 0x3e4c_cccd;

/// Encoding of `0.8`, the saturation of a high voltage.
pub const SATURATION_HIGH_BITS: u32 = 0x3f4c_cccd;

/// Encoding of `0.000001`: an end point below this height is on the ground.
pub const GROUND_EPSILON_BITS: u32 = 0x3586_37bd;

/// Encoding of `0.33`, the colour band of phase B.
pub const BAND_GREEN_BITS: u32 = 0x3ea8_f5c3;

/// Encoding of `0.66`, the colour band of phase C.
pub const BAND_BLUE_BITS: u32 = 0x3f28_f5c3;

/// Encoding of `0.6`, the saturation of a transformer.
pub const TRANSFORMER_SATURATION_BITS: u32 = 0x3f19_999a;

/// Encoding of `0.1`, the colour band of a ground line.
pub const GROUND_BAND_BITS: u32 = 0x3dcc_cccd;

/// Encoding of `0.005`, the width of a ground line.
pub const GROUND_WIDTH_BITS: u32 = 0x3ba3_d70a;

/// Encoding of `0.17`, the hue of a solar generator.
pub const HUE_SOLAR_BITS: u32 = 0x3e2e_147b;

/// Encoding of `0.3125`, the hue of a battery.
pub const HUE_BATTERY_BITS: u32 = 0x3ea0_0000;

/// Encoding of `0.001`, by which each phase is set off from the one before.
pub const PHASE_STEP_BITS: u32 = 0x3a83_126f;

/// Encoding of `0.002`, twice the phase step.
pub const PHASE_STEP_TWICE_BITS: u32 = 0x3b03_126f;

/// The number of bytes that one record takes in a buffer.
pub const RECORD_BYTES: usize = 64;

/// One of the three conductors of a circuit.
#[derive(Clone, Copy, Debug, PartialEq, Eq, Structural)]
pub enum Phase {
    A,
    B,
    C,
}

/// What an instance of a line is built from.
#[derive(Clone, Copy, Debug, PartialEq, Eq, Structural)]
pub struct LineGetterResult {
    pub volt_start: Binary32,
    pub volt_end: Binary32,
    pub watt: Binary32,
    pub vars: Binary32,
    pub line_load: Binary32,
}

/// What an instance of a transformer is built from.
#[derive(Clone, Copy, Debug, PartialEq, Eq, Structural)]
pub struct TfGetterResult {
    pub volt_start: Binary32,
    pub volt_end: Binary32,
    pub tap: i32,
    pub tap_change: i32,
}

/// What an instance of a generator is built from.
#[derive(Clone, Copy, Debug, PartialEq, Eq, Structural)]
pub struct GeneratorGetterResult {
    pub voltage: Binary32,
    pub angle: Binary32,
    pub real: Binary32,
    pub react: Binary32,
    pub ty: GeneratorType,
}

/// One rendered copy of a shape: where it stands, how it is coloured, how it
/// is turned and how it is scaled.
#[derive(Clone, Copy, Debug, PartialEq, Eq, Structural)]
pub struct InstanceRecord {
    pub position: Vec3,
    pub texture: Vec4,
    pub rotation: Quat,
    pub scale: Vec3,
}

/// What the caller has computed of a conductor between two end points.
#[derive(Clone, Copy, Debug, PartialEq, Eq, Structural)]
pub struct LineGeometry {
    /// The start point in world space.
    pub p_a: Vec3,
    /// The end point in world space.
    pub p_b: Vec3,
    /// The point half way between the two.
    pub center: Vec3,
    /// The rotation without roll that turns forward into the direction of
    /// the conductor.
    pub rotation: Quat,
    /// The distance between the two end points.
    pub length: Binary32,
    /// The width that stands for the real power.
    pub watt_size: Binary32,
    /// The width that stands for the reactive power.
    pub vars_size: Binary32,
}

impl Phase {
    /// The colour band of the phase: `0.0`, `0.33` or `0.66`.
    pub open spec fn band(self) -> Binary32 {
        match self {
            Phase::A => Binary32 { bits: 0 },
            Phase::B => Binary32 { bits: BAND_GREEN_BITS },
            Phase::C => Binary32 { bits: BAND_BLUE_BITS },
        }
    }

    /// By how much the phase is set off from phase A, so that the phases do
    /// not cover each other: `(0.001, 0, -0.001)` times 0, 1 or 2.
    pub open spec fn offset_spec(self) -> Vec3 {
        match self {
            Phase::A => Vec3 {
                x: Binary32 { bits: 0 },
                y: Binary32 { bits: 0 },
                z: (Binary32 { bits: 0 }).negated(),
            },
            Phase::B => Vec3 {
                x: Binary32 { bits: PHASE_STEP_BITS },
                y: Binary32 { bits: 0 },
                z: (Binary32 { bits: PHASE_STEP_BITS }).negated(),
            },
            Phase::C => Vec3 {
                x: Binary32 { bits: PHASE_STEP_TWICE_BITS },
                y: Binary32 { bits: 0 },
                z: (Binary32 { bits: PHASE_STEP_TWICE_BITS }).negated(),
            },
        }
    }

    pub fn color_band(self) -> (r: Binary32)
        ensures
            r == self.band(),
    {
        match self {
            Phase::A => Binary32::zero(),
            Phase::B => Binary32::from_bits(BAND_GREEN_BITS),
            Phase::C => Binary32::from_bits(BAND_BLUE_BITS),
        }
    }

    pub fn offset(self) -> (r: Vec3)
        ensures
            r == self.offset_spec(),
    {
        let step = match self {
            Phase::A => Binary32::zero(),
            Phase::B => Binary32::from_bits(PHASE_STEP_BITS),
            Phase::C => Binary32::from_bits(PHASE_STEP_TWICE_BITS),
        };
        Vec3 { x: step, y: Binary32::zero(), z: step.neg() }
    }
}

/// What a line shows of one phase: the voltages of both ends, and the power
/// and the load at the start. For phase C the reactive power is that of the
/// end point.
pub open spec fn line_phase(s: LineState, phase: Phase) -> LineGetterResult {
    match phase {
        Phase::A => LineGetterResult {
            volt_start: s.voltage.sa,
            volt_end: s.voltage.ea,
            watt: s.real_power.sa,
            vars: s.reactive_power.sa,
            line_load: s.line_load.a,
        },
        Phase::B => LineGetterResult {
            volt_start: s.voltage.sb,
            volt_end: s.voltage.eb,
            watt: s.real_power.sb,
            vars: s.reactive_power.sb,
            line_load: s.line_load.b,
        },
        Phase::C => LineGetterResult {
            volt_start: s.voltage.sc,
            volt_end: s.voltage.ec,
            watt: s.real_power.sc,
            vars: s.reactive_power.ec,
            line_load: s.line_load.c,
        },
    }
}

/// What sizes a bus and a flow: phase A, with the magnitudes of the powers.
/// The magnitudes give the widths only; the direction of a flow follows the
/// signed power, as [`power_direction`] takes it.
pub open spec fn line_magnitudes(s: LineState) -> LineGetterResult {
    LineGetterResult {
        volt_start: s.voltage.sa,
        volt_end: s.voltage.ea,
        watt: s.real_power.sa.absolute(),
        vars: s.reactive_power.sa.absolute(),
        line_load: s.line_load.a,
    }
}

/// What a transformer shows of one phase.
pub open spec fn transformer_phase(s: TransformerState, phase: Phase) -> TfGetterResult {
    match phase {
        Phase::A => TfGetterResult {
            volt_start: s.voltage.sa,
            volt_end: s.voltage.ea,
            tap: s.tap.a,
            tap_change: s.tap_changes.a,
        },
        Phase::B => TfGetterResult {
            volt_start: s.voltage.sb,
            volt_end: s.voltage.eb,
            tap: s.tap.b,
            tap_change: s.tap_changes.b,
        },
        Phase::C => TfGetterResult {
            volt_start: s.voltage.sc,
            volt_end: s.voltage.ec,
            tap: s.tap.c,
            tap_change: s.tap_changes.c,
        },
    }
}

/// What a generator shows: phase A of voltage and angle, and its powers.
pub open spec fn generator_phase(s: GeneratorState) -> GeneratorGetterResult {
    GeneratorGetterResult {
        voltage: s.voltage.a,
        angle: s.angle.a,
        real: s.real,
        react: s.react,
        ty: s.ty,
    }
}

pub fn line_getter(s: &LineState, phase: Phase) -> (r: LineGetterResult)
    ensures
        r == line_phase(*s, phase),
{
    match phase {
        Phase::A => LineGetterResult {
            volt_start: s.voltage.sa,
            volt_end: s.voltage.ea,
            watt: s.real_power.sa,
            vars: s.reactive_power.sa,
            line_load: s.line_load.a,
        },
        Phase::B => LineGetterResult {
            volt_start: s.voltage.sb,
            volt_end: s.voltage.eb,
            watt: s.real_power.sb,
            vars: s.reactive_power.sb,
            line_load: s.line_load.b,
        },
        Phase::C => LineGetterResult {
            volt_start: s.voltage.sc,
            volt_end: s.voltage.ec,
            watt: s.real_power.sc,
            vars: s.reactive_power.ec,
            line_load: s.line_load.c,
        },
    }
}

pub fn magnitude_getter(s: &LineState) -> (r: LineGetterResult)
    ensures
        r == line_magnitudes(*s),
{
    LineGetterResult {
        volt_start: s.voltage.sa,
        volt_end: s.voltage.ea,
        watt: s.real_power.sa.abs(),
        vars: s.reactive_power.sa.abs(),
        line_load: s.line_load.a,
    }
}

pub fn transformer_getter(s: &TransformerState, phase: Phase) -> (r: TfGetterResult)
    ensures
        r == transformer_phase(*s, phase),
{
    match phase {
        Phase::A => TfGetterResult {
            volt_start: s.voltage.sa,
            volt_end: s.voltage.ea,
            tap: s.tap.a,
            tap_change: s.tap_changes.a,
        },
        Phase::B => TfGetterResult {
            volt_start: s.voltage.sb,
            volt_end: s.voltage.eb,
            tap: s.tap.b,
            tap_change: s.tap_changes.b,
        },
        Phase::C => TfGetterResult {
            volt_start: s.voltage.sc,
            volt_end: s.voltage.ec,
            tap: s.tap.c,
            tap_change: s.tap_changes.c,
        },
    }
}

pub fn generator_getter(s: &GeneratorState) -> (r: GeneratorGetterResult)
    ensures
        r == generator_phase(*s),
{
    GeneratorGetterResult {
        voltage: s.voltage.a,
        angle: s.angle.a,
        real: s.real,
        react: s.react,
        ty: s.ty,
    }
}

/// The saturation that shows a safety class: 0.5 safe, 0.2 low, 0.8 high.
pub open spec fn saturation_of(v: VoltageSafety) -> Binary32 {
    match v {
        VoltageSafety::Safe => Binary32 { bits: SATURATION_SAFE_BITS },
        VoltageSafety::Low => Binary32 { bits: SATURATION_LOW_BITS },
        VoltageSafety::High => Binary32 { bits: SATURATION_HIGH_BITS },
    }
}

pub fn safety_to_saturation(v: VoltageSafety) -> (r: Binary32)
    ensures
        r == saturation_of(v),
{
    match v {
        VoltageSafety::Safe => Binary32::from_bits(SATURATION_SAFE_BITS),
        VoltageSafety::Low => Binary32::from_bits(SATURATION_LOW_BITS),
        VoltageSafety::High => Binary32::from_bits(SATURATION_HIGH_BITS),
    }
}

/// The colour channels of an element with a voltage: its colour band, the
/// saturation of the safety class of its mean voltage, and two ones.
pub open spec fn banded_texture(color_band: Binary32, mean_voltage: Binary32) -> Vec4 {
    Vec4 {
        x: color_band,
        y: saturation_of(Domain::safety_of(mean_voltage)),
        z: Binary32 { bits: ONE_BITS },
        w: Binary32 { bits: ONE_BITS },
    }
}

/// The colour channels of a line or a bus. `mean_voltage` is the mean of the
/// voltages of its two ends.
pub fn line_texture(d: &Domain, color_band: Binary32, mean_voltage: Binary32) -> (r: Vec4)
    ensures
        r == banded_texture(color_band, mean_voltage),
{
    let safety = d.voltage_safety(mean_voltage);
    Vec4 { x: color_band, y: safety_to_saturation(safety), z: Binary32::one(), w: Binary32::one() }
}

/// The colour channels of a flow: no band, no saturation, the speed of the
/// flow and a one.
pub fn flow_texture(speed: Binary32) -> (r: Vec4)
    ensures
        r == (Vec4 {
            x: Binary32 { bits: 0 },
            y: Binary32 { bits: 0 },
            z: speed,
            w: Binary32 { bits: ONE_BITS },
        }),
{
    Vec4 { x: Binary32::zero(), y: Binary32::zero(), z: speed, w: Binary32::one() }
}

/// The heights that the two ends of a line ask for: both from the line load
/// in line-load mode, else each from its own voltage.
pub open spec fn end_heights(d: Domain, r: LineGetterResult, use_line_load: bool) -> (Lerp, Lerp) {
    if use_line_load {
        (d.line_load_lerp(r.line_load), d.line_load_lerp(r.line_load))
    } else {
        (d.voltage_lerp(r.volt_start), d.voltage_lerp(r.volt_end))
    }
}

pub fn line_heights(d: &Domain, r: &LineGetterResult, use_line_load: bool) -> (h: (Lerp, Lerp))
    ensures
        h == end_heights(*d, *r, use_line_load),
{
    if use_line_load {
        (d.line_load_to_height(r.line_load), d.line_load_to_height(r.line_load))
    } else {
        (d.voltage_to_height(r.volt_start), d.voltage_to_height(r.volt_end))
    }
}

/// The height that a generator asks for: none in line-load mode, where it
/// stands on the ground, else that of its voltage.
pub fn generator_height(d: &Domain, r: &GeneratorGetterResult, use_line_load: bool) -> (h: Option<
    Lerp,
>)
    ensures
        h == if use_line_load {
            None
        } else {
            Some(d.voltage_lerp(r.voltage))
        },
{
    if use_line_load {
        None
    } else {
        Some(d.voltage_to_height(r.voltage))
    }
}

/// The direction in which a conductor is drawn: from start to end, turned
/// round where the real power is negative, so that it follows the power.
pub open spec fn directed(v: Vec3, watt: Binary32) -> Vec3 {
    if watt.less(Binary32 { bits: 0 }) {
        v.negated()
    } else {
        v
    }
}

pub fn flow_direction(v: Vec3, watt: Binary32) -> (r: Vec3)
    ensures
        r == directed(v, watt),
{
    if Binary32::zero().gt(watt) {
        v.neg()
    } else {
        v
    }
}

/// One of the two end points lies on or under the ground: such a conductor
/// is not drawn.
pub open spec fn grounded(height_a: Binary32, height_b: Binary32) -> bool {
    height_a.less(Binary32 { bits: GROUND_EPSILON_BITS }) || height_b.less(
        Binary32 { bits: GROUND_EPSILON_BITS },
    )
}

pub fn below_ground(height_a: Binary32, height_b: Binary32) -> (r: bool)
    ensures
        r == grounded(height_a, height_b),
{
    let eps = Binary32::from_bits(GROUND_EPSILON_BITS);
    height_a.lt(eps) || height_b.lt(eps)
}

/// The direction of a conductor has a length: a conductor whose two end
/// points fall together, or whose length is no number, has none.
pub open spec fn has_direction(length: Binary32) -> bool {
    (Binary32 { bits: 0 }).less(length)
}

pub fn is_directed(length: Binary32) -> (r: bool)
    ensures
        r == has_direction(length),
{
    Binary32::zero().lt(length)
}

/// A conductor is drawn if none of its end points lies on or under the
/// ground and its direction has a length.
pub open spec fn line_drawn(g: LineGeometry) -> bool {
    !grounded(g.p_a.y, g.p_b.y) && has_direction(g.length)
}

/// The direction in which the conductor of a line is drawn in one phase:
/// from start to end, turned round where the real power of that phase at
/// the start of the line is negative. A flow takes phase A.
pub fn power_direction(s: &LineState, phase: Phase, v: Vec3) -> (r: Vec3)
    ensures
        r == directed(v, line_phase(*s, phase).watt),
{
    flow_direction(v, line_getter(s, phase).watt)
}

/// The record of a conductor: at its centre, turned into its direction, as
/// wide as its powers and as long as itself.
pub open spec fn line_record(g: LineGeometry, texture: Vec4) -> InstanceRecord {
    InstanceRecord {
        position: g.center,
        texture,
        rotation: g.rotation,
        scale: Vec3 { x: g.watt_size, y: g.vars_size, z: g.length },
    }
}

/// Turns a conductor into its record, or into nothing where one of its end
/// points is on the ground or its direction has no length.
pub fn state_to_line(g: &LineGeometry, texture: Vec4) -> (r: Option<InstanceRecord>)
    ensures
        r == if line_drawn(*g) {
            Some(line_record(*g, texture))
        } else {
            None
        },
{
    if below_ground(g.p_a.y, g.p_b.y) || !is_directed(g.length) {
        return None;
    }
    Some(
        InstanceRecord {
            position: g.center,
            texture,
            rotation: g.rotation,
            scale: Vec3 { x: g.watt_size, y: g.vars_size, z: g.length },
        },
    )
}

/// The record of a bus: at the start point of its line, turned as the line,
/// `width` wide and deep and `height` high, coloured by the safety class.
pub fn bus_record(
    d: &Domain,
    center: Vec3,
    rotation: Quat,
    color_band: Binary32,
    mean_voltage: Binary32,
    width: Binary32,
    height: Binary32,
) -> (r: InstanceRecord)
    ensures
        r == (InstanceRecord {
            position: center,
            texture: banded_texture(color_band, mean_voltage),
            rotation,
            scale: Vec3 { x: width, y: height, z: width },
        }),
{
    InstanceRecord {
        position: center,
        texture: line_texture(d, color_band, mean_voltage),
        rotation,
        scale: Vec3 { x: width, y: height, z: width },
    }
}

/// The record of a ground line: a thin tube of fixed width and colour along
/// the line, on the ground.
pub fn ground_line_record(center: Vec3, rotation: Quat, length: Binary32) -> (r: InstanceRecord)
    ensures
        r == (InstanceRecord {
            position: center,
            texture: Vec4 {
                x: Binary32 { bits: GROUND_BAND_BITS },
                y: Binary32 { bits: SATURATION_SAFE_BITS },
                z: Binary32 { bits: ONE_BITS },
                w: Binary32 { bits: ONE_BITS },
            },
            rotation,
            scale: Vec3 {
                x: Binary32 { bits: GROUND_WIDTH_BITS },
                y: Binary32 { bits: GROUND_WIDTH_BITS },
                z: length,
            },
        }),
{
    InstanceRecord {
        position: center,
        texture: Vec4 {
            x: Binary32::from_bits(GROUND_BAND_BITS),
            y: Binary32::from_bits(SATURATION_SAFE_BITS),
            z: Binary32::one(),
            w: Binary32::one(),
        },
        rotation,
        scale: Vec3 {
            x: Binary32::from_bits(GROUND_WIDTH_BITS),
            y: Binary32::from_bits(GROUND_WIDTH_BITS),
            z: length,
        },
    }
}

/// The colour channels of a transformer: its colour band and a fixed
/// saturation.
pub open spec fn transformer_texture(color_band: Binary32) -> Vec4 {
    Vec4 {
        x: color_band,
        y: Binary32 { bits: TRANSFORMER_SATURATION_BITS },
        z: Binary32 { bits: ONE_BITS },
        w: Binary32 { bits: ONE_BITS },
    }
}

/// The thick tube of a transformer, between the heights of its two
/// voltages.
pub open spec fn transformer_body(
    d: Domain,
    center: Vec3,
    height: Binary32,
    color_band: Binary32,
) -> InstanceRecord {
    InstanceRecord {
        position: center,
        texture: transformer_texture(color_band),
        rotation: Quat::identity_spec(),
        scale: Vec3 { x: d.tube_max, y: height, z: d.tube_max },
    }
}

/// The thin tube that ties a transformer to the map: as high as the whole
/// height scale, standing at half that height.
pub open spec fn transformer_link(
    d: Domain,
    center: Vec3,
    span: Binary32,
    half_span: Binary32,
    color_band: Binary32,
) -> InstanceRecord {
    InstanceRecord {
        position: Vec3 { x: center.x, y: half_span, z: center.z },
        texture: transformer_texture(color_band),
        rotation: Quat::identity_spec(),
        scale: Vec3 { x: d.tube_min, y: span, z: d.tube_min },
    }
}

/// Turns a transformer into its two records, or into nothing where one of
/// its two ends is on the ground. `height` is the distance between the two
/// ends, `span` the distance between the lowest and the highest height of
/// the calibration, `half_span` half of that.
pub fn transformer_records(
    d: &Domain,
    height_a: Binary32,
    height_b: Binary32,
    center: Vec3,
    height: Binary32,
    span: Binary32,
    half_span: Binary32,
    color_band: Binary32,
) -> (r: Option<(InstanceRecord, InstanceRecord)>)
    ensures
        r == if grounded(height_a, height_b) {
            None
        } else {
            Some(
                (
                    transformer_body(*d, center, height, color_band),
                    transformer_link(*d, center, span, half_span, color_band),
                ),
            )
        },
{
    if below_ground(height_a, height_b) {
        return None;
    }
    let texture = Vec4 {
        x: color_band,
        y: Binary32::from_bits(TRANSFORMER_SATURATION_BITS),
        z: Binary32::one(),
        w: Binary32::one(),
    };
    let body = InstanceRecord {
        position: center,
        texture,
        rotation: Quat::identity(),
        scale: Vec3 { x: d.tube_max, y: height, z: d.tube_max },
    };
    let link = InstanceRecord {
        position: Vec3 { x: center.x, y: half_span, z: center.z },
        texture,
        rotation: Quat::identity(),
        scale: Vec3 { x: d.tube_min, y: span, z: d.tube_min },
    };
    Some((body, link))
}

/// The hue of a generator: 0 unknown, 0.17 solar, 0.3125 battery.
pub open spec fn hue_of(ty: GeneratorType) -> Binary32 {
    match ty {
        GeneratorType::Unknown => Binary32 { bits: 0 },
        GeneratorType::Solar => Binary32 { bits: HUE_SOLAR_BITS },
        GeneratorType::Battery => Binary32 { bits: HUE_BATTERY_BITS },
    }
}

/// The saturation of a generator: full where its kind is unknown, half
/// otherwise.
pub open spec fn generator_saturation(ty: GeneratorType) -> Binary32 {
    match ty {
        GeneratorType::Unknown => Binary32 { bits: ONE_BITS },
        _ => Binary32 { bits: SATURATION_SAFE_BITS },
    }
}

/// The record of a generator: at its place, not turned, `width` wide, deep
/// and high, coloured by its kind.
pub fn generator_record(position: Vec3, width: Binary32, ty: GeneratorType) -> (r: InstanceRecord)
    ensures
        r == (InstanceRecord {
            position,
            texture: Vec4 {
                x: hue_of(ty),
                y: generator_saturation(ty),
                z: Binary32 { bits: ONE_BITS },
                w: Binary32 { bits: ONE_BITS },
            },
            rotation: Quat::identity_spec(),
            scale: Vec3 { x: width, y: width, z: width },
        }),
{
    let hue = match ty {
        GeneratorType::Unknown => Binary32::zero(),
        GeneratorType::Solar => Binary32::from_bits(HUE_SOLAR_BITS),
        GeneratorType::Battery => Binary32::from_bits(HUE_BATTERY_BITS),
    };
    let sat = match ty {
        GeneratorType::Unknown => Binary32::one(),
        _ => Binary32::from_bits(SATURATION_SAFE_BITS),
    };
    InstanceRecord {
        position,
        texture: Vec4 { x: hue, y: sat, z: Binary32::one(), w: Binary32::one() },
        rotation: Quat::identity(),
        scale: Vec3 { x: width, y: width, z: width },
    }
}

/// The three phases have three different colour bands.
pub proof fn lemma_bands_distinct(p: Phase, q: Phase)
    ensures
        p != q ==> !p.band().equal_value(q.band()),
        !p.band().nan(),
{
}

/// The three safety classes have three different saturations.
pub proof fn lemma_saturations_distinct(a: VoltageSafety, b: VoltageSafety)
    ensures
        a != b ==> !saturation_of(a).equal_value(saturation_of(b)),
{
}

} // verus!
