use noodles_grid::buffer::append_line;
use noodles_grid::buffer::append_record;
use noodles_grid::buffer::append_records;
use noodles_grid::domain::Domain;
use noodles_grid::domain::VoltageSafety;
use noodles_grid::dots::EndPhased;
use noodles_grid::dots::EndedPosition;
use noodles_grid::dots::GeneratorState;
use noodles_grid::dots::GeneratorType;
use noodles_grid::dots::LineState;
use noodles_grid::dots::Phased;
use noodles_grid::dots::Position;
use noodles_grid::dots::TransformerState;
use noodles_grid::ieee::Binary32;
use noodles_grid::ieee::Binary64;
use noodles_grid::instance::below_ground;
use noodles_grid::instance::bus_record;
use noodles_grid::instance::flow_direction;
use noodles_grid::instance::flow_texture;
use noodles_grid::instance::generator_getter;
use noodles_grid::instance::generator_height;
use noodles_grid::instance::generator_record;
use noodles_grid::instance::ground_line_record;
use noodles_grid::instance::line_getter;
use noodles_grid::instance::line_heights;
use noodles_grid::instance::line_texture;
use noodles_grid::instance::is_directed;
use noodles_grid::instance::magnitude_getter;
use noodles_grid::instance::power_direction;
use noodles_grid::instance::safety_to_saturation;
use noodles_grid::instance::state_to_line;
use noodles_grid::instance::transformer_getter;
use noodles_grid::instance::transformer_records;
use noodles_grid::instance::GeneratorGetterResult;
use noodles_grid::instance::InstanceRecord;
use noodles_grid::instance::LineGeometry;
use noodles_grid::instance::LineGetterResult;
use noodles_grid::instance::Phase;
use noodles_grid::instance::RECORD_BYTES;
use noodles_grid::vector::Quat;
use noodles_grid::vector::Vec3;
use noodles_grid::vector::Vec4;

fn b(x: f32) -> Binary32 {
    Binary32::from_bits(x.to_bits())
}

fn f(x: Binary32) -> f32 {
    f32::from_bits(x.to_bits())
}

fn w(x: f64) -> Binary64 {
    Binary64::from_bits(x.to_bits())
}

fn v3(x: f32, y: f32, z: f32) -> Vec3 {
    Vec3 { x: b(x), y: b(y), z: b(z) }
}

fn v4(x: f32, y: f32, z: f32, w: f32) -> Vec4 {
    Vec4 { x: b(x), y: b(y), z: b(z), w: b(w) }
}

fn quat(x: f32, y: f32, z: f32, w: f32) -> Quat {
    Quat { x: b(x), y: b(y), z: b(z), w: b(w) }
}

fn floats(bytes: &[u8]) -> Vec<f32> {
    bytes.chunks(4).map(|c| f32::from_ne_bytes([c[0], c[1], c[2], c[3]])).collect()
}

fn line_state() -> LineState {
    LineState {
        voltage: EndPhased { sa: b(1.0), sb: b(1.1), sc: b(1.2), ea: b(2.0), eb: b(2.1), ec: b(2.2) },
        real_power: EndPhased { sa: b(-10.0), sb: b(11.0), sc: b(12.0), ea: b(20.0), eb: b(21.0), ec: b(22.0) },
        reactive_power: EndPhased { sa: b(-30.0), sb: b(31.0), sc: b(32.0), ea: b(40.0), eb: b(41.0), ec: b(42.0) },
        loc: EndedPosition { sx: w(0.0), sy: w(0.0), ex: w(1.0), ey: w(1.0) },
        line_load: Phased { a: b(0.1), b: b(0.2), c: b(0.3) },
    }
}

fn geometry(ya: f32, yb: f32) -> LineGeometry {
    LineGeometry {
        p_a: v3(0.0, ya, 0.0),
        p_b: v3(1.0, yb, 0.0),
        center: v3(0.5, (ya + yb) / 2.0, 0.0),
        rotation: quat(0.0, 0.7, 0.0, 0.7),
        length: b(1.0),
        watt_size: b(0.01),
        vars_size: b(0.02),
    }
}

#[test]
fn line_getter_reads_one_phase() {
    let s = line_state();
    let a = line_getter(&s, Phase::A);
    assert_eq!(
        a,
        LineGetterResult { volt_start: b(1.0), volt_end: b(2.0), watt: b(-10.0), vars: b(-30.0), line_load: b(0.1) }
    );
    let bb = line_getter(&s, Phase::B);
    assert_eq!(
        bb,
        LineGetterResult { volt_start: b(1.1), volt_end: b(2.1), watt: b(11.0), vars: b(31.0), line_load: b(0.2) }
    );
    let c = line_getter(&s, Phase::C);
    assert_eq!(
        c,
        LineGetterResult { volt_start: b(1.2), volt_end: b(2.2), watt: b(12.0), vars: b(42.0), line_load: b(0.3) }
    );
}

#[test]
fn magnitude_getter_takes_the_magnitudes_of_phase_a() {
    let r = magnitude_getter(&line_state());
    assert_eq!(
        r,
        LineGetterResult { volt_start: b(1.0), volt_end: b(2.0), watt: b(10.0), vars: b(30.0), line_load: b(0.1) }
    );
}

#[test]
fn transformer_getter_reads_one_phase() {
    let s = TransformerState {
        voltage: EndPhased { sa: b(1.0), sb: b(1.1), sc: b(1.2), ea: b(2.0), eb: b(2.1), ec: b(2.2) },
        tap: Phased { a: 1, b: 2, c: 3 },
        tap_changes: Phased { a: 4, b: 5, c: 6 },
        loc: Position { sx: w(0.0), sy: w(0.0) },
    };
    let a = transformer_getter(&s, Phase::A);
    assert_eq!((f(a.volt_start), f(a.volt_end), a.tap, a.tap_change), (1.0, 2.0, 1, 4));
    let bb = transformer_getter(&s, Phase::B);
    assert_eq!((f(bb.volt_start), f(bb.volt_end), bb.tap, bb.tap_change), (1.1, 2.1, 2, 5));
    let c = transformer_getter(&s, Phase::C);
    assert_eq!((f(c.volt_start), f(c.volt_end), c.tap, c.tap_change), (1.2, 2.2, 3, 6));
}

#[test]
fn generator_getter_reads_phase_a() {
    let s = GeneratorState {
        voltage: Phased { a: b(1.0), b: b(1.1), c: b(1.2) },
        angle: Phased { a: b(0.1), b: b(0.2), c: b(0.3) },
        real: b(5.0),
        react: b(6.0),
        loc: Position { sx: w(0.0), sy: w(0.0) },
        ty: GeneratorType::Battery,
    };
    assert_eq!(
        generator_getter(&s),
        GeneratorGetterResult { voltage: b(1.0), angle: b(0.1), real: b(5.0), react: b(6.0), ty: GeneratorType::Battery }
    );
}

#[test]
fn each_phase_has_its_colour_band() {
    assert_eq!(f(Phase::A.color_band()), 0.0);
    assert_eq!(f(Phase::B.color_band()), 0.33);
    assert_eq!(f(Phase::C.color_band()), 0.66);
}

#[test]
fn each_phase_is_set_off_by_a_multiple_of_the_step() {
    let step = (0.001f32, 0.0f32, -0.001f32);
    for (phase, k) in [(Phase::A, 0.0f32), (Phase::B, 1.0), (Phase::C, 2.0)] {
        let o = phase.offset();
        assert_eq!(o.x.to_bits(), (step.0 * k).to_bits());
        assert_eq!(o.y.to_bits(), (step.1 * k).to_bits());
        assert_eq!(o.z.to_bits(), (step.2 * k).to_bits());
    }
}

#[test]
fn saturation_shows_the_safety_class() {
    assert_eq!(f(safety_to_saturation(VoltageSafety::Safe)), 0.5);
    assert_eq!(f(safety_to_saturation(VoltageSafety::Low)), 0.2);
    assert_eq!(f(safety_to_saturation(VoltageSafety::High)), 0.8);
}

#[test]
fn line_texture_is_band_and_saturation() {
    let d = Domain::default();
    assert_eq!(line_texture(&d, b(0.33), b(1.0)), v4(0.33, 0.5, 1.0, 1.0));
    assert_eq!(line_texture(&d, b(0.33), b(0.9)), v4(0.33, 0.2, 1.0, 1.0));
    assert_eq!(line_texture(&d, b(0.66), b(1.07)), v4(0.66, 0.8, 1.0, 1.0));
}

#[test]
fn flow_texture_carries_the_speed() {
    assert_eq!(flow_texture(b(12.5)), v4(0.0, 0.0, 12.5, 1.0));
}

#[test]
fn heights_come_from_the_voltages_or_from_the_line_load() {
    let d = Domain::default();
    let r = line_getter(&line_state(), Phase::A);
    let (ha, hb) = line_heights(&d, &r, false);
    assert_eq!(ha, d.voltage_to_height(b(1.0)));
    assert_eq!(hb, d.voltage_to_height(b(2.0)));
    let (la, lb) = line_heights(&d, &r, true);
    assert_eq!(la, d.line_load_to_height(b(0.1)));
    assert_eq!(lb, d.line_load_to_height(b(0.1)));
}

#[test]
fn a_generator_stands_on_the_ground_in_line_load_mode() {
    let d = Domain::default();
    let r = GeneratorGetterResult { voltage: b(1.0), angle: b(0.0), real: b(1.0), react: b(1.0), ty: GeneratorType::Solar };
    assert_eq!(generator_height(&d, &r, true), None);
    assert_eq!(generator_height(&d, &r, false), Some(d.voltage_to_height(b(1.0))));
}

#[test]
fn flows_follow_the_power() {
    let v = v3(1.0, -2.0, 0.0);
    assert_eq!(flow_direction(v, b(5.0)), v);
    assert_eq!(flow_direction(v, b(0.0)), v);
    assert_eq!(flow_direction(v, b(-0.0)), v);
    assert_eq!(flow_direction(v, b(f32::NAN)), v);
    let r = flow_direction(v, b(-5.0));
    assert_eq!((f(r.x), f(r.y), f(r.z)), (-1.0, 2.0, -0.0));
    assert_eq!(r.z.to_bits(), (-0.0f32).to_bits());
}

#[test]
fn an_end_point_below_the_epsilon_is_on_the_ground() {
    assert!(below_ground(b(0.0), b(1.0)));
    assert!(below_ground(b(1.0), b(0.0000009)));
    assert!(below_ground(b(-1.0), b(-1.0)));
    assert!(!below_ground(b(0.000001), b(0.000001)));
    assert!(!below_ground(b(0.5), b(1.5)));
    assert!(!below_ground(b(f32::NAN), b(1.0)));
}

#[test]
fn a_line_on_the_ground_has_no_record() {
    assert_eq!(state_to_line(&geometry(0.0, 0.0), v4(0.0, 0.5, 1.0, 1.0)), None);
    assert_eq!(state_to_line(&geometry(0.5, 0.0), v4(0.0, 0.5, 1.0, 1.0)), None);
}

#[test]
fn a_line_above_the_ground_has_its_record() {
    let g = geometry(0.5, 1.0);
    let r = state_to_line(&g, v4(0.33, 0.8, 1.0, 1.0)).unwrap();
    assert_eq!(
        r,
        InstanceRecord {
            position: v3(0.5, 0.75, 0.0),
            texture: v4(0.33, 0.8, 1.0, 1.0),
            rotation: quat(0.0, 0.7, 0.0, 0.7),
            scale: v3(0.01, 0.02, 1.0),
        }
    );
}

#[test]
fn a_line_on_the_ground_appends_no_byte() {
    let mut dest = vec![7u8; 3];
    assert!(!append_line(&mut dest, &geometry(0.0, 0.0), v4(0.0, 0.5, 1.0, 1.0)));
    assert_eq!(dest, vec![7u8; 3]);
    assert!(append_line(&mut dest, &geometry(0.5, 1.0), v4(0.0, 0.5, 1.0, 1.0)));
    assert_eq!(dest.len(), 3 + 64);
    assert_eq!(&dest[..3], &[7u8; 3]);
}

#[test]
fn a_record_is_sixteen_floats() {
    let r = InstanceRecord {
        position: v3(1.0, 2.0, 3.0),
        texture: v4(4.0, 5.0, 6.0, 7.0),
        rotation: quat(8.0, 9.0, 10.0, 11.0),
        scale: v3(12.0, 13.0, 14.0),
    };
    assert_eq!(
        r.to_words().to_vec(),
        [1.0f32, 2.0, 3.0, 0.0, 4.0, 5.0, 6.0, 7.0, 8.0, 9.0, 10.0, 11.0, 12.0, 13.0, 14.0, 0.0]
            .iter()
            .map(|x| x.to_bits())
            .collect::<Vec<u32>>()
    );
    let mut dest = Vec::new();
    append_record(&mut dest, &r);
    assert_eq!(dest.len(), RECORD_BYTES);
    assert_eq!(
        floats(&dest),
        vec![1.0, 2.0, 3.0, 0.0, 4.0, 5.0, 6.0, 7.0, 8.0, 9.0, 10.0, 11.0, 12.0, 13.0, 14.0, 0.0]
    );
}

#[test]
fn records_follow_each_other_in_a_buffer() {
    let a = InstanceRecord { position: v3(1.0, 1.0, 1.0), texture: v4(0.0, 0.0, 0.0, 0.0), rotation: quat(0.0, 0.0, 0.0, 1.0), scale: v3(1.0, 1.0, 1.0) };
    let c = InstanceRecord { position: v3(2.0, 2.0, 2.0), ..a };
    let mut dest = vec![9u8];
    append_records(&mut dest, &vec![a, c]);
    assert_eq!(dest.len(), 1 + 128);
    assert_eq!(dest[0], 9);
    assert_eq!(floats(&dest[1..])[0], 1.0);
    assert_eq!(floats(&dest[1..])[16], 2.0);
    append_records(&mut dest, &vec![]);
    assert_eq!(dest.len(), 129);
}

#[test]
fn a_bus_is_as_wide_as_deep() {
    let d = Domain::default();
    let r = bus_record(&d, v3(1.0, 2.0, 3.0), quat(0.0, 0.0, 0.0, 1.0), b(0.0), b(0.9), b(0.01), b(0.02));
    assert_eq!(r.position, v3(1.0, 2.0, 3.0));
    assert_eq!(r.texture, v4(0.0, 0.2, 1.0, 1.0));
    assert_eq!(r.scale, v3(0.01, 0.02, 0.01));
}

#[test]
fn a_ground_line_is_thin_and_blue() {
    let r = ground_line_record(v3(1.0, 0.0, 3.0), quat(0.0, 1.0, 0.0, 0.0), b(2.5));
    assert_eq!(r.position, v3(1.0, 0.0, 3.0));
    assert_eq!(r.texture, v4(0.1, 0.5, 1.0, 1.0));
    assert_eq!(r.rotation, quat(0.0, 1.0, 0.0, 0.0));
    assert_eq!(r.scale, v3(0.005, 0.005, 2.5));
}

#[test]
fn a_transformer_is_a_body_and_a_link() {
    let d = Domain::default();
    let (body, link) =
        transformer_records(&d, b(0.5), b(0.9), v3(1.0, 0.7, 2.0), b(0.4), b(1.5), b(0.75), b(0.33)).unwrap();
    assert_eq!(body.position, v3(1.0, 0.7, 2.0));
    assert_eq!(body.texture, v4(0.33, 0.6, 1.0, 1.0));
    assert_eq!(body.rotation, quat(0.0, 0.0, 0.0, 1.0));
    assert_eq!(body.scale, v3(0.03, 0.4, 0.03));
    assert_eq!(link.position, v3(1.0, 0.75, 2.0));
    assert_eq!(link.texture, v4(0.33, 0.6, 1.0, 1.0));
    assert_eq!(link.scale, v3(0.001, 1.5, 0.001));
}

#[test]
fn a_transformer_on_the_ground_is_left_out() {
    let d = Domain::default();
    assert_eq!(transformer_records(&d, b(0.0), b(0.9), v3(1.0, 0.45, 2.0), b(0.9), b(1.5), b(0.75), b(0.0)), None);
    assert_eq!(transformer_records(&d, b(0.9), b(0.0), v3(1.0, 0.45, 2.0), b(0.9), b(1.5), b(0.75), b(0.0)), None);
}

#[test]
fn a_generator_is_coloured_by_its_kind() {
    let u = generator_record(v3(1.0, 2.0, 3.0), b(0.04), GeneratorType::Unknown);
    assert_eq!(u.texture, v4(0.0, 1.0, 1.0, 1.0));
    assert_eq!(u.scale, v3(0.04, 0.04, 0.04));
    assert_eq!(u.rotation, quat(0.0, 0.0, 0.0, 1.0));
    let s = generator_record(v3(1.0, 2.0, 3.0), b(0.04), GeneratorType::Solar);
    assert_eq!(s.texture, v4(0.17, 0.5, 1.0, 1.0));
    let bt = generator_record(v3(1.0, 2.0, 3.0), b(0.04), GeneratorType::Battery);
    assert_eq!(bt.texture, v4(0.3125, 0.5, 1.0, 1.0));
}

#[test]
fn instance_constants_are_the_encodings_of_their_values() {
    assert_eq!(noodles_grid::instance::GROUND_EPSILON_BITS, 0.000001f32.to_bits());
    assert_eq!(noodles_grid::instance::PHASE_STEP_BITS, 0.001f32.to_bits());
    assert_eq!(noodles_grid::instance::PHASE_STEP_TWICE_BITS, (0.001f32 * 2.0).to_bits());
    assert_eq!(noodles_grid::instance::TRANSFORMER_SATURATION_BITS, 0.6f32.to_bits());
}

#[test]
fn a_conductor_without_length_has_no_record() {
    let mut g = geometry(0.5, 0.5);
    g.p_b = g.p_a;
    g.length = b(0.0);
    assert_eq!(state_to_line(&g, v4(0.0, 0.5, 1.0, 1.0)), None);
    g.length = b(f32::NAN);
    assert_eq!(state_to_line(&g, v4(0.0, 0.5, 1.0, 1.0)), None);
    g.length = b(-1.0);
    assert_eq!(state_to_line(&g, v4(0.0, 0.5, 1.0, 1.0)), None);
    let mut dest = Vec::new();
    assert!(!append_line(&mut dest, &g, v4(0.0, 0.5, 1.0, 1.0)));
    assert!(dest.is_empty());
    assert!(!is_directed(b(0.0)));
    assert!(!is_directed(b(-0.0)));
    assert!(is_directed(b(1e-30)));
    assert!(is_directed(b(f32::INFINITY)));
}

#[test]
fn a_flow_follows_the_signed_power_of_phase_a() {
    let s = line_state();
    let v = v3(1.0, 2.0, 3.0);
    let r = power_direction(&s, Phase::A, v);
    assert_eq!((f(r.x), f(r.y), f(r.z)), (-1.0, -2.0, -3.0));
    assert_eq!(power_direction(&s, Phase::B, v), v);
    assert_eq!(power_direction(&s, Phase::C, v), v);
    assert_eq!(f(magnitude_getter(&s).watt), 10.0);
}
