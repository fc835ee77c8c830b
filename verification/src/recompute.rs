//! The passes that rebuild the instance buffers: one pass for each category
//! of element, and the full recomputation that runs them all.

use vstd::prelude::*;
use crate::buffer::append_records;
use crate::buffer::holds_records;
use crate::buffer::lemma_appended_nothing;
use crate::buffer::lemma_appended_to_empty;
use crate::buffer::lemma_appended_twice;
use crate::buffer::records_appended;
use crate::domain::Domain;
use crate::dots::GeneratorType;
use crate::hazard::HazardCell;
use crate::hazard::HazardCheck;
use crate::hazard::HazardEntry;
use crate::hazard::HazardLevel;
use crate::hazard::SNAP_BITS;
use crate::hazard::crosses;
use crate::hazard::entry_records;
use crate::hazard::plane_crossed;
use crate::hazard::with_entry;
use crate::ieee::Binary32;
use crate::ieee::ONE_BITS;
use crate::instance::GROUND_BAND_BITS;
use crate::instance::GROUND_WIDTH_BITS;
use crate::instance::InstanceRecord;
use crate::instance::LineGeometry;
use crate::instance::Phase;
use crate::instance::SATURATION_SAFE_BITS;
use crate::instance::banded_texture;
use crate::instance::bus_record;
use crate::instance::flow_texture;
use crate::instance::generator_record;
use crate::instance::generator_saturation;
use crate::instance::ground_line_record;
use crate::instance::grounded;
use crate::instance::has_direction;
use crate::instance::is_directed;
use crate::instance::line_drawn;
use crate::instance::hue_of;
use crate::instance::line_record;
use crate::instance::line_texture;
use crate::instance::state_to_line;
use crate::instance::transformer_body;
use crate::instance::transformer_link;
use crate::instance::transformer_records;
use crate::state::GridState;
use crate::vector::Quat;
use crate::vector::Vec2;
use crate::vector::Vec3;
use crate::vector::Vec4;

verus! {

/// What the caller has computed of a conductor and one of the two planes.
#[derive(Clone, Copy, Debug, PartialEq, Eq, Structural)]
pub struct Crossing {
    /// The height that the conductor gains from its start to its end.
    pub rise: Binary32,
    /// The share of the conductor that lies before the plane.
    pub fac: Binary32,
    /// The cell of the point at that share, along X. It counts only where
    /// the conductor crosses the plane.
    pub x: i32,
    /// The cell of the point at that share, along Z.
    pub z: i32,
    /// Where the centre of that cell stands on the ground.
    pub centre: Vec2,
}

/// A line in one phase, as far as the caller has computed it.
#[derive(Clone, Copy, Debug, PartialEq, Eq, Structural)]
pub struct LineItem {
    pub geometry: LineGeometry,
    /// The mean of the voltages of the two ends.
    pub mean_voltage: Binary32,
    /// The line and the lower plane.
    pub lower: Crossing,
    /// The line and the upper plane.
    pub upper: Crossing,
}

/// A bus, as far as the caller has computed it.
#[derive(Clone, Copy, Debug, PartialEq, Eq, Structural)]
pub struct BusItem {
    pub center: Vec3,
    pub rotation: Quat,
    /// The distance between the two end points of the line of the bus.
    pub length: Binary32,
    pub mean_voltage: Binary32,
    pub width: Binary32,
    pub height: Binary32,
}

/// A ground line, as far as the caller has computed it.
#[derive(Clone, Copy, Debug, PartialEq, Eq, Structural)]
pub struct GroundItem {
    pub center: Vec3,
    pub rotation: Quat,
    pub length: Binary32,
}

/// A flow along a line, as far as the caller has computed it.
#[derive(Clone, Copy, Debug, PartialEq, Eq, Structural)]
pub struct FlowItem {
    pub geometry: LineGeometry,
    /// How fast the texture runs along the line.
    pub speed: Binary32,
}

/// A transformer in one phase, as far as the caller has computed it.
#[derive(Clone, Copy, Debug, PartialEq, Eq, Structural)]
pub struct TfItem {
    /// The height of the start voltage.
    pub height_a: Binary32,
    /// The height of the end voltage.
    pub height_b: Binary32,
    /// The point half way between the two heights.
    pub center: Vec3,
    /// The distance between the two heights.
    pub height: Binary32,
}

/// A generator, as far as the caller has computed it.
#[derive(Clone, Copy, Debug, PartialEq, Eq, Structural)]
pub struct GenItem {
    pub position: Vec3,
    pub width: Binary32,
    pub ty: GeneratorType,
}

/// All that a full recomputation draws, as far as the caller has computed
/// it.
pub struct Frame {
    pub buses: Vec<BusItem>,
    pub lines_a: Vec<LineItem>,
    pub lines_b: Vec<LineItem>,
    pub lines_c: Vec<LineItem>,
    pub ground_lines: Vec<GroundItem>,
    pub flows: Vec<FlowItem>,
    pub tfs_a: Vec<TfItem>,
    pub tfs_b: Vec<TfItem>,
    pub tfs_c: Vec<TfItem>,
    pub gens: Vec<GenItem>,
    /// The height of the lower plane.
    pub v_min_height: Binary32,
    /// The height of the upper plane.
    pub v_max_height: Binary32,
    /// The distance between the lowest and the highest height of the
    /// calibration.
    pub span: Binary32,
    /// Half of `span`.
    pub half_span: Binary32,
}

/// The records of the first `n` lines: one for each line that is drawn, in
/// the order of the lines. A line with an end point on the ground, or with
/// a direction without length, is left out.
pub open spec fn drawn_lines(items: Seq<LineItem>, color_band: Binary32, n: int) -> Seq<
    InstanceRecord,
>
    decreases n,
{
    if n <= 0 {
        Seq::empty()
    } else {
        let before = drawn_lines(items, color_band, n - 1);
        let it = items[n - 1];
        if line_drawn(it.geometry) {
            before.push(line_record(it.geometry, banded_texture(color_band, it.mean_voltage)))
        } else {
            before
        }
    }
}

/// The entries `entries` with the cell of `c` on the plane of `level` among
/// them, if the conductor crosses that plane.
pub open spec fn with_crossing(
    entries: Seq<HazardEntry>,
    level: HazardLevel,
    c: Crossing,
) -> Seq<HazardEntry> {
    if crosses(c.rise, c.fac) {
        with_entry(
            entries,
            HazardEntry { cell: HazardCell { x: c.x, z: c.z, level }, centre: c.centre },
        )
    } else {
        entries
    }
}

/// The cells in which the first `n` lines cross the two planes, each once,
/// in the order in which they are first crossed. A line counts whether it
/// is drawn or not.
pub open spec fn crossed_cells(items: Seq<LineItem>, n: int) -> Seq<HazardEntry>
    decreases n,
{
    if n <= 0 {
        Seq::empty()
    } else {
        with_crossing(
            with_crossing(crossed_cells(items, n - 1), HazardLevel::Lower, items[n - 1].lower),
            HazardLevel::Upper,
            items[n - 1].upper,
        )
    }
}

/// The records of the cells that the lines cross, between planes at the two
/// heights.
pub open spec fn hazard_records(
    items: Seq<LineItem>,
    v_min_height: Binary32,
    v_max_height: Binary32,
) -> Seq<InstanceRecord> {
    entry_records(
        Binary32 { bits: SNAP_BITS },
        v_min_height,
        v_max_height,
        crossed_cells(items, items.len() as int),
    )
}

/// The colour channels of a flow.
pub open spec fn flow_channels(speed: Binary32) -> Vec4 {
    Vec4 {
        x: Binary32 { bits: 0 },
        y: Binary32 { bits: 0 },
        z: speed,
        w: Binary32 { bits: ONE_BITS },
    }
}

/// The records of the first `n` flows: one for each flow along a line that
/// is drawn.
pub open spec fn drawn_flows(items: Seq<FlowItem>, n: int) -> Seq<InstanceRecord>
    decreases n,
{
    if n <= 0 {
        Seq::empty()
    } else {
        let before = drawn_flows(items, n - 1);
        let it = items[n - 1];
        if line_drawn(it.geometry) {
            before.push(line_record(it.geometry, flow_channels(it.speed)))
        } else {
            before
        }
    }
}

/// The records of the first `n` transformers: two for each transformer that
/// has no end on the ground, its body and its link.
pub open spec fn drawn_transformers(
    items: Seq<TfItem>,
    d: Domain,
    span: Binary32,
    half_span: Binary32,
    color_band: Binary32,
    n: int,
) -> Seq<InstanceRecord>
    decreases n,
{
    if n <= 0 {
        Seq::empty()
    } else {
        let before = drawn_transformers(items, d, span, half_span, color_band, n - 1);
        let it = items[n - 1];
        if grounded(it.height_a, it.height_b) {
            before
        } else {
            before.push(transformer_body(d, it.center, it.height, color_band)).push(
                transformer_link(d, it.center, span, half_span, color_band),
            )
        }
    }
}

/// The record of a bus.
pub open spec fn bus_record_of(it: BusItem, color_band: Binary32) -> InstanceRecord {
    InstanceRecord {
        position: it.center,
        texture: banded_texture(color_band, it.mean_voltage),
        rotation: it.rotation,
        scale: Vec3 { x: it.width, y: it.height, z: it.width },
    }
}

/// The records of the first `n` buses: one for each bus whose line has a
/// direction with a length.
pub open spec fn drawn_buses(items: Seq<BusItem>, color_band: Binary32, n: int) -> Seq<
    InstanceRecord,
>
    decreases n,
{
    if n <= 0 {
        Seq::empty()
    } else {
        let before = drawn_buses(items, color_band, n - 1);
        if has_direction(items[n - 1].length) {
            before.push(bus_record_of(items[n - 1], color_band))
        } else {
            before
        }
    }
}

/// The record of a ground line.
pub open spec fn ground_record_of(it: GroundItem) -> InstanceRecord {
    InstanceRecord {
        position: it.center,
        texture: Vec4 {
            x: Binary32 { bits: GROUND_BAND_BITS },
            y: Binary32 { bits: SATURATION_SAFE_BITS },
            z: Binary32 { bits: ONE_BITS },
            w: Binary32 { bits: ONE_BITS },
        },
        rotation: it.rotation,
        scale: Vec3 {
            x: Binary32 { bits: GROUND_WIDTH_BITS },
            y: Binary32 { bits: GROUND_WIDTH_BITS },
            z: it.length,
        },
    }
}

/// A ground line is drawn if its direction has a length: one whose end
/// points fall together, or whose length is no number, is left out.
pub open spec fn ground_drawn(it: GroundItem) -> bool {
    has_direction(it.length)
}

/// The records of the first `n` ground lines: one for each that is drawn.
pub open spec fn drawn_ground_lines(items: Seq<GroundItem>, n: int) -> Seq<InstanceRecord>
    decreases n,
{
    if n <= 0 {
        Seq::empty()
    } else {
        let before = drawn_ground_lines(items, n - 1);
        if ground_drawn(items[n - 1]) {
            before.push(ground_record_of(items[n - 1]))
        } else {
            before
        }
    }
}

/// The record of a generator.
pub open spec fn generator_record_of(it: GenItem) -> InstanceRecord {
    InstanceRecord {
        position: it.position,
        texture: Vec4 {
            x: hue_of(it.ty),
            y: generator_saturation(it.ty),
            z: Binary32 { bits: ONE_BITS },
            w: Binary32 { bits: ONE_BITS },
        },
        rotation: Quat::identity_spec(),
        scale: Vec3 { x: it.width, y: it.width, z: it.width },
    }
}

/// Appends one record for each bus whose line has a direction with a
/// length; the other buses are left out.
pub fn recompute_buses(src: &Vec<BusItem>, d: &Domain, color_band: Binary32, dest: &mut Vec<u8>)
    ensures
        records_appended(old(dest)@, final(dest)@, drawn_buses(src@, color_band, src.len() as int)),
{
    let mut recs: Vec<InstanceRecord> = Vec::new();
    let mut i: usize = 0;
    while i < src.len()
        invariant
            i <= src.len(),
            recs@ == drawn_buses(src@, color_band, i as int),
        decreases src.len() - i,
    {
        let it = src[i];
        if is_directed(it.length) {
            recs.push(
                bus_record(
                    d,
                    it.center,
                    it.rotation,
                    color_band,
                    it.mean_voltage,
                    it.width,
                    it.height,
                ),
            );
        }
        i += 1;
    }
    append_records(dest, &recs);
}

/// Appends one record for each line that is drawn, and gathers the cells in
/// which the lines cross the two planes, drawn or not. Unless heights show
/// the line load, one box for each of these cells is appended to
/// `hazard_parts`; in line-load mode `hazard_parts` stays as it is.
pub fn recompute_lines(
    src: &Vec<LineItem>,
    d: &Domain,
    color_band: Binary32,
    dest: &mut Vec<u8>,
    hazard_parts: &mut Vec<u8>,
    v_min_height: Binary32,
    v_max_height: Binary32,
    line_load: bool,
)
    ensures
        records_appended(
            old(dest)@,
            final(dest)@,
            drawn_lines(src@, color_band, src.len() as int),
        ),
        !line_load ==> records_appended(
            old(hazard_parts)@,
            final(hazard_parts)@,
            hazard_records(src@, v_min_height, v_max_height),
        ),
        line_load ==> final(hazard_parts)@ == old(hazard_parts)@,
{
    let mut grid = HazardCheck::new(v_min_height, v_max_height);
    let mut recs: Vec<InstanceRecord> = Vec::new();
    let mut i: usize = 0;
    while i < src.len()
        invariant
            i <= src.len(),
            grid.wf(),
            grid.snap == (Binary32 { bits: SNAP_BITS }),
            grid.v_min_height == v_min_height,
            grid.v_max_height == v_max_height,
            grid@ == crossed_cells(src@, i as int),
            recs@ == drawn_lines(src@, color_band, i as int),
        decreases src.len() - i,
    {
        let it = src[i];
        if plane_crossed(it.lower.rise, it.lower.fac) {
            grid.check(HazardLevel::Lower, it.lower.x, it.lower.z, it.lower.centre);
        }
        if plane_crossed(it.upper.rise, it.upper.fac) {
            grid.check(HazardLevel::Upper, it.upper.x, it.upper.z, it.upper.centre);
        }
        let texture = line_texture(d, color_band, it.mean_voltage);
        if let Some(rec) = state_to_line(&it.geometry, texture) {
            recs.push(rec);
        }
        i += 1;
    }
    append_records(dest, &recs);
    if !line_load {
        grid.create_matrices(hazard_parts);
    }
}

/// Appends one record for each ground line whose direction has a length;
/// the other ground lines are left out.
pub fn recompute_gound_lines(src: &Vec<GroundItem>, dest: &mut Vec<u8>)
    ensures
        records_appended(old(dest)@, final(dest)@, drawn_ground_lines(src@, src.len() as int)),
{
    let mut recs: Vec<InstanceRecord> = Vec::new();
    let mut i: usize = 0;
    while i < src.len()
        invariant
            i <= src.len(),
            recs@ == drawn_ground_lines(src@, i as int),
        decreases src.len() - i,
    {
        let it = src[i];
        if is_directed(it.length) {
            recs.push(ground_line_record(it.center, it.rotation, it.length));
        }
        i += 1;
    }
    append_records(dest, &recs);
}

/// Appends one record for each flow along a line that is drawn.
pub fn recompute_line_flows(src: &Vec<FlowItem>, dest: &mut Vec<u8>)
    ensures
        records_appended(old(dest)@, final(dest)@, drawn_flows(src@, src.len() as int)),
{
    let mut recs: Vec<InstanceRecord> = Vec::new();
    let mut i: usize = 0;
    while i < src.len()
        invariant
            i <= src.len(),
            recs@ == drawn_flows(src@, i as int),
        decreases src.len() - i,
    {
        let it = src[i];
        if let Some(rec) = state_to_line(&it.geometry, flow_texture(it.speed)) {
            recs.push(rec);
        }
        i += 1;
    }
    append_records(dest, &recs);
}

/// Appends two records for each transformer that has no end on the ground:
/// its body and its link to the map.
pub fn recompute_tfs(
    src: &Vec<TfItem>,
    d: &Domain,
    span: Binary32,
    half_span: Binary32,
    color_band: Binary32,
    dest: &mut Vec<u8>,
)
    ensures
        records_appended(
            old(dest)@,
            final(dest)@,
            drawn_transformers(src@, *d, span, half_span, color_band, src.len() as int),
        ),
{
    let mut recs: Vec<InstanceRecord> = Vec::new();
    let mut i: usize = 0;
    while i < src.len()
        invariant
            i <= src.len(),
            recs@ == drawn_transformers(src@, *d, span, half_span, color_band, i as int),
        decreases src.len() - i,
    {
        let it = src[i];
        if let Some((body, link)) = transformer_records(
            d,
            it.height_a,
            it.height_b,
            it.center,
            it.height,
            span,
            half_span,
            color_band,
        ) {
            recs.push(body);
            recs.push(link);
        }
        i += 1;
    }
    append_records(dest, &recs);
}

/// Appends one record for each generator.
pub fn recompute_gens(src: &Vec<GenItem>, dest: &mut Vec<u8>)
    ensures
        records_appended(
            old(dest)@,
            final(dest)@,
            Seq::new(src.len() as nat, |i: int| generator_record_of(src[i])),
        ),
{
    let mut recs: Vec<InstanceRecord> = Vec::new();
    let mut i: usize = 0;
    while i < src.len()
        invariant
            i <= src.len(),
            recs.len() == i,
            forall|j: int| 0 <= j < i ==> #[trigger] recs[j] == generator_record_of(src[j]),
        decreases src.len() - i,
    {
        let it = src[i];
        recs.push(generator_record(it.position, it.width, it.ty));
        i += 1;
    }
    assert(recs@ =~= Seq::new(src.len() as nat, |i: int| generator_record_of(src[i])));
    append_records(dest, &recs);
}

/// What the line buffer holds after a full recomputation: the lines of
/// phase A, of phase B and of phase C, each in its colour band, then the
/// ground lines.
pub open spec fn frame_lines(f: Frame) -> Seq<InstanceRecord> {
    drawn_lines(f.lines_a@, Phase::A.band(), f.lines_a.len() as int) + drawn_lines(
        f.lines_b@,
        Phase::B.band(),
        f.lines_b.len() as int,
    ) + drawn_lines(f.lines_c@, Phase::C.band(), f.lines_c.len() as int) + drawn_ground_lines(
        f.ground_lines@,
        f.ground_lines.len() as int,
    )
}

/// What the hazard buffer holds after a full recomputation: nothing where
/// heights show the line load, else the cells that the lines of phase A
/// cross, then those of phase B, then those of phase C.
pub open spec fn frame_hazards(f: Frame, line_load: bool) -> Seq<InstanceRecord> {
    if line_load {
        Seq::empty()
    } else {
        hazard_records(f.lines_a@, f.v_min_height, f.v_max_height) + hazard_records(
            f.lines_b@,
            f.v_min_height,
            f.v_max_height,
        ) + hazard_records(f.lines_c@, f.v_min_height, f.v_max_height)
    }
}

/// What the transformer buffer holds after a full recomputation: the
/// transformers of phase A, of phase B and of phase C.
pub open spec fn frame_transformers(f: Frame, d: Domain) -> Seq<InstanceRecord> {
    drawn_transformers(f.tfs_a@, d, f.span, f.half_span, Phase::A.band(), f.tfs_a.len() as int)
        + drawn_transformers(
        f.tfs_b@,
        d,
        f.span,
        f.half_span,
        Phase::B.band(),
        f.tfs_b.len() as int,
    ) + drawn_transformers(
        f.tfs_c@,
        d,
        f.span,
        f.half_span,
        Phase::C.band(),
        f.tfs_c.len() as int,
    )
}

/// Rebuilds all six buffers from nothing. Whatever the buffers held before
/// is gone: each holds exactly the records of the frame, in the order of
/// the passes.
pub fn recompute_all(gs: &mut GridState, f: &Frame)
    ensures
        final(gs).same_but_buffers(old(gs)),
        holds_records(
            final(gs).bus@,
            drawn_buses(f.buses@, Phase::A.band(), f.buses.len() as int),
        ),
        holds_records(final(gs).line@, frame_lines(*f)),
        holds_records(final(gs).hazard@, frame_hazards(*f, old(gs).show_line_load)),
        holds_records(final(gs).line_flow@, drawn_flows(f.flows@, f.flows.len() as int)),
        holds_records(final(gs).transformer@, frame_transformers(*f, old(gs).domain)),
        holds_records(
            final(gs).generator@,
            Seq::new(f.gens.len() as nat, |i: int| generator_record_of(f.gens[i])),
        ),
{
    gs.clear_buffers();
    let line_load = gs.show_line_load;
    let d = gs.domain;
    let ghost empty = Seq::<u8>::empty();
    proof {
        assert(gs.bus@ =~= empty);
        assert(gs.line@ =~= empty);
        assert(gs.hazard@ =~= empty);
        assert(gs.line_flow@ =~= empty);
        assert(gs.transformer@ =~= empty);
        assert(gs.generator@ =~= empty);
    }

    recompute_buses(&f.buses, &d, Phase::A.color_band(), &mut gs.bus);
    proof {
        lemma_appended_to_empty(
            gs.bus@,
            drawn_buses(f.buses@, Phase::A.band(), f.buses.len() as int),
        );
    }

    let ghost la = drawn_lines(f.lines_a@, Phase::A.band(), f.lines_a.len() as int);
    let ghost lb = drawn_lines(f.lines_b@, Phase::B.band(), f.lines_b.len() as int);
    let ghost lc = drawn_lines(f.lines_c@, Phase::C.band(), f.lines_c.len() as int);
    let ghost lg = drawn_ground_lines(f.ground_lines@, f.ground_lines.len() as int);
    let ghost ha = hazard_records(f.lines_a@, f.v_min_height, f.v_max_height);
    let ghost hb = hazard_records(f.lines_b@, f.v_min_height, f.v_max_height);
    let ghost hc = hazard_records(f.lines_c@, f.v_min_height, f.v_max_height);

    recompute_lines(
        &f.lines_a,
        &d,
        Phase::A.color_band(),
        &mut gs.line,
        &mut gs.hazard,
        f.v_min_height,
        f.v_max_height,
        line_load,
    );
    let ghost line1 = gs.line@;
    let ghost haz1 = gs.hazard@;
    recompute_lines(
        &f.lines_b,
        &d,
        Phase::B.color_band(),
        &mut gs.line,
        &mut gs.hazard,
        f.v_min_height,
        f.v_max_height,
        line_load,
    );
    let ghost line2 = gs.line@;
    let ghost haz2 = gs.hazard@;
    recompute_lines(
        &f.lines_c,
        &d,
        Phase::C.color_band(),
        &mut gs.line,
        &mut gs.hazard,
        f.v_min_height,
        f.v_max_height,
        line_load,
    );
    let ghost line3 = gs.line@;
    recompute_gound_lines(&f.ground_lines, &mut gs.line);
    proof {
        lemma_appended_twice(empty, line1, line2, la, lb);
        lemma_appended_twice(empty, line2, line3, la + lb, lc);
        lemma_appended_twice(empty, line3, gs.line@, la + lb + lc, lg);
        lemma_appended_to_empty(gs.line@, la + lb + lc + lg);
        if line_load {
            lemma_appended_nothing(empty);
            lemma_appended_to_empty(gs.hazard@, Seq::<InstanceRecord>::empty());
        } else {
            lemma_appended_twice(empty, haz1, haz2, ha, hb);
            lemma_appended_twice(empty, haz2, gs.hazard@, ha + hb, hc);
            lemma_appended_to_empty(gs.hazard@, ha + hb + hc);
        }
    }

    recompute_line_flows(&f.flows, &mut gs.line_flow);
    proof {
        lemma_appended_to_empty(gs.line_flow@, drawn_flows(f.flows@, f.flows.len() as int));
    }

    let ghost ta = drawn_transformers(
        f.tfs_a@,
        d,
        f.span,
        f.half_span,
        Phase::A.band(),
        f.tfs_a.len() as int,
    );
    let ghost tb = drawn_transformers(
        f.tfs_b@,
        d,
        f.span,
        f.half_span,
        Phase::B.band(),
        f.tfs_b.len() as int,
    );
    let ghost tc = drawn_transformers(
        f.tfs_c@,
        d,
        f.span,
        f.half_span,
        Phase::C.band(),
        f.tfs_c.len() as int,
    );
    recompute_tfs(&f.tfs_a, &d, f.span, f.half_span, Phase::A.color_band(), &mut gs.transformer);
    let ghost tf1 = gs.transformer@;
    recompute_tfs(&f.tfs_b, &d, f.span, f.half_span, Phase::B.color_band(), &mut gs.transformer);
    let ghost tf2 = gs.transformer@;
    recompute_tfs(&f.tfs_c, &d, f.span, f.half_span, Phase::C.color_band(), &mut gs.transformer);
    proof {
        lemma_appended_twice(empty, tf1, tf2, ta, tb);
        lemma_appended_twice(empty, tf2, gs.transformer@, ta + tb, tc);
        lemma_appended_to_empty(gs.transformer@, ta + tb + tc);
    }

    recompute_gens(&f.gens, &mut gs.generator);
    proof {
        lemma_appended_to_empty(
            gs.generator@,
            Seq::new(f.gens.len() as nat, |i: int| generator_record_of(f.gens[i])),
        );
    }
}

/// Lines that all have an end point on the ground append nothing: the pass
/// draws no record for them, whatever their colour band.
pub proof fn lemma_grounded_lines_draw_nothing(items: Seq<LineItem>, color_band: Binary32, n: int)
    requires
        n <= items.len(),
        forall|i: int|
            0 <= i < n ==> grounded(
                (#[trigger] items[i]).geometry.p_a.y,
                items[i].geometry.p_b.y,
            ),
    ensures
        drawn_lines(items, color_band, n) == Seq::<InstanceRecord>::empty(),
    decreases n,
{
    if n > 0 {
        lemma_grounded_lines_draw_nothing(items, color_band, n - 1);
        assert(grounded(items[n - 1].geometry.p_a.y, items[n - 1].geometry.p_b.y));
    }
}

/// Every line that is drawn is drawn once: the pass draws as many records
/// as there are lines among the first `n` that have no end point on the
/// ground and a direction with a length.
pub proof fn lemma_drawn_lines_count(items: Seq<LineItem>, color_band: Binary32, n: int)
    requires
        0 <= n <= items.len(),
    ensures
        drawn_lines(items, color_band, n).len() == items.subrange(0, n).filter(
            |it: LineItem| line_drawn(it.geometry),
        ).len(),
    decreases n,
{
    reveal(Seq::filter);
    if n > 0 {
        lemma_drawn_lines_count(items, color_band, n - 1);
        assert(items.subrange(0, n).drop_last() =~= items.subrange(0, n - 1));
        assert(items.subrange(0, n).last() == items[n - 1]);
    } else {
        assert(items.subrange(0, 0) =~= Seq::<LineItem>::empty());
    }
}

/// Ground lines are drawn one record each, but for those whose direction
/// has no length: the pass draws as many records as there are ground lines
/// with a length above zero among the first `n`, so a ground line whose end
/// points fall together adds nothing.
pub proof fn lemma_drawn_ground_lines_count(items: Seq<GroundItem>, n: int)
    requires
        0 <= n <= items.len(),
    ensures
        drawn_ground_lines(items, n).len() == items.subrange(0, n).filter(
            |it: GroundItem| ground_drawn(it),
        ).len(),
        n == 1 && !ground_drawn(items[0]) ==> drawn_ground_lines(items, n)
            == Seq::<InstanceRecord>::empty(),
    decreases n,
{
    reveal(Seq::filter);
    if n > 0 {
        lemma_drawn_ground_lines_count(items, n - 1);
        assert(items.subrange(0, n).drop_last() =~= items.subrange(0, n - 1));
        assert(items.subrange(0, n).last() == items[n - 1]);
        if n == 1 {
            assert(drawn_ground_lines(items, 0) =~= Seq::<InstanceRecord>::empty());
        }
    } else {
        assert(items.subrange(0, 0) =~= Seq::<GroundItem>::empty());
    }
}

/// Two lines that cross the same plane in the same cell give one hazard;
/// two that cross it in different cells give two.
pub proof fn lemma_two_lines_hazards(a: LineItem, b: LineItem)
    requires
        !crosses(a.lower.rise, a.lower.fac),
        !crosses(b.lower.rise, b.lower.fac),
        crosses(a.upper.rise, a.upper.fac),
        crosses(b.upper.rise, b.upper.fac),
    ensures
        crossed_cells(seq![a, b], 2).len() == if a.upper.x == b.upper.x && a.upper.z
            == b.upper.z {
            1nat
        } else {
            2nat
        },
{
    let items = seq![a, b];
    let ca = a.upper;
    let cb = b.upper;
    let ea = HazardEntry {
        cell: HazardCell { x: ca.x, z: ca.z, level: HazardLevel::Upper },
        centre: ca.centre,
    };
    let eb = HazardEntry {
        cell: HazardCell { x: cb.x, z: cb.z, level: HazardLevel::Upper },
        centre: cb.centre,
    };
    assert(crossed_cells(items, 0) =~= Seq::<HazardEntry>::empty());
    assert(items[0] == a);
    assert(items[1] == b);
    let one = crossed_cells(items, 1);
    assert(one == with_entry(Seq::<HazardEntry>::empty(), ea));
    assert(one =~= seq![ea]);
    let two = crossed_cells(items, 2);
    assert(two == with_entry(one, eb));
    if ea.cell == eb.cell {
        assert(one[0].cell == eb.cell);
    } else {
        assert forall|i: int| 0 <= i < one.len() implies (#[trigger] one[i]).cell != eb.cell by {}
    }
}

} // verus!
