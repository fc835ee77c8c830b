//! The hazard grid: the cells in which a conductor crosses one of the two
//! planes that bound the safe voltages, each cell held once.

use vstd::prelude::*;
use crate::buffer::append_records;
use crate::buffer::records_appended;
use crate::domain::Domain;
use crate::domain::Lerp;
use crate::domain::SAFE_VOLTAGE_HIGH_BITS;
use crate::domain::SAFE_VOLTAGE_LOW_BITS;
use crate::ieee::Binary32;
use crate::ieee::ONE_BITS;
use crate::instance::InstanceRecord;
use crate::vector::Quat;
use crate::vector::Vec2;
use crate::vector::Vec3;
use crate::vector::Vec4;

verus! {

/// Encoding of `0.1`, the side of a grid cell: a square of 2 in 20 cells.
pub const SNAP_BITS: u32 = 0x3dcc_cccd;

/// Encoding of the machine epsilon of binary32: a conductor that rises less
/// than this between its ends is taken to run along the plane.
pub const EPSILON_BITS: u32 = 0x3400_0000;

/// Which of the two planes a conductor crosses.
#[derive(Clone, Copy, Debug, PartialEq, Eq, Structural)]
pub enum HazardLevel {
    /// The plane at the height of the lowest safe voltage.
    Lower,
    /// The plane at the height of the highest safe voltage.
    Upper,
}

/// A cell of the grid on one of the two planes.
#[derive(Clone, Copy, Debug, PartialEq, Eq, Structural)]
pub struct HazardCell {
    pub x: i32,
    pub z: i32,
    pub level: HazardLevel,
}

/// A cell that a conductor crosses, and where the centre of the cell stands
/// on the ground: its two indices, each times the side of a cell.
#[derive(Clone, Copy, Debug, PartialEq, Eq, Structural)]
pub struct HazardEntry {
    pub cell: HazardCell,
    pub centre: Vec2,
}

/// The cells in which conductors cross the two planes.
pub struct HazardCheck {
    pub snap: Binary32,
    pub v_min_height: Binary32,
    pub v_max_height: Binary32,
    /// The cells, each once, in the order in which they were first crossed.
    pub entries: Vec<HazardEntry>,
}

/// The heights of the two planes, as the domain maps the two bounds of the
/// safe band: the pending interpolations of 0.95 and of 1.05.
pub fn hazard_plane_heights(d: &Domain) -> (r: (Lerp, Lerp))
    ensures
        r.0 == d.voltage_lerp(Binary32 { bits: SAFE_VOLTAGE_LOW_BITS }),
        r.1 == d.voltage_lerp(Binary32 { bits: SAFE_VOLTAGE_HIGH_BITS }),
{
    (
        d.voltage_to_height(Binary32::from_bits(SAFE_VOLTAGE_LOW_BITS)),
        d.voltage_to_height(Binary32::from_bits(SAFE_VOLTAGE_HIGH_BITS)),
    )
}

/// Whether a conductor crosses a plane between its start, included, and its
/// end, excluded. `rise` is the height that the conductor gains from start
/// to end, `fac` the share of the conductor that lies before the plane. A
/// conductor that rises by less than the machine epsilon does not cross.
pub open spec fn crosses(rise: Binary32, fac: Binary32) -> bool {
    &&& !rise.absolute().less(Binary32 { bits: EPSILON_BITS })
    &&& (Binary32 { bits: 0 }).at_most(fac)
    &&& fac.less(Binary32 { bits: ONE_BITS })
}

/// Decides whether a conductor crosses a plane, from its rise and from the
/// share of it that lies before the plane.
pub fn plane_crossed(rise: Binary32, fac: Binary32) -> (r: bool)
    ensures
        r == crosses(rise, fac),
{
    if rise.abs().lt(Binary32::from_bits(EPSILON_BITS)) {
        return false;
    }
    Binary32::zero().le(fac) && fac.lt(Binary32::one())
}

/// The point in which a conductor crosses a plane, if it does. The caller
/// has computed the rise of the conductor, the share `fac` and the point at
/// that share.
pub fn line_plane_intersection(rise: Binary32, fac: Binary32, point: Vec3) -> (r: Option<Vec3>)
    ensures
        r == if crosses(rise, fac) {
            Some(point)
        } else {
            None
        },
{
    if plane_crossed(rise, fac) {
        Some(point)
    } else {
        None
    }
}

/// The cell `c` is among the entries.
pub open spec fn holds_cell(entries: Seq<HazardEntry>, c: HazardCell) -> bool {
    exists|i: int| 0 <= i < entries.len() && (#[trigger] entries[i]).cell == c
}

/// No cell is among the entries twice.
pub open spec fn cells_apart(entries: Seq<HazardEntry>) -> bool {
    forall|i: int, j: int|
        0 <= i < j < entries.len() ==> (#[trigger] entries[i]).cell != (#[trigger] entries[j]).cell
}

/// The entries with the cell of `e` among them: `e` is added at the end
/// unless its cell is there already.
pub open spec fn with_entry(entries: Seq<HazardEntry>, e: HazardEntry) -> Seq<HazardEntry> {
    if holds_cell(entries, e.cell) {
        entries
    } else {
        entries.push(e)
    }
}

/// The height of the plane of a level, between planes at the two heights.
pub open spec fn level_height(
    v_min_height: Binary32,
    v_max_height: Binary32,
    level: HazardLevel,
) -> Binary32 {
    match level {
        HazardLevel::Lower => v_min_height,
        HazardLevel::Upper => v_max_height,
    }
}

/// The record of an entry: a box as wide and deep as a cell, over the
/// centre of the cell, at the height of the plane of its level.
pub open spec fn entry_record(
    snap: Binary32,
    v_min_height: Binary32,
    v_max_height: Binary32,
    e: HazardEntry,
) -> InstanceRecord {
    InstanceRecord {
        position: Vec3 {
            x: e.centre.x,
            y: level_height(v_min_height, v_max_height, e.cell.level),
            z: e.centre.y,
        },
        texture: Vec4 {
            x: Binary32 { bits: 0 },
            y: Binary32 { bits: 0 },
            z: Binary32 { bits: ONE_BITS },
            w: Binary32 { bits: ONE_BITS },
        },
        rotation: Quat::identity_spec(),
        scale: Vec3 { x: snap, y: Binary32 { bits: ONE_BITS }, z: snap },
    }
}

/// The records of some entries, in their order.
pub open spec fn entry_records(
    snap: Binary32,
    v_min_height: Binary32,
    v_max_height: Binary32,
    entries: Seq<HazardEntry>,
) -> Seq<InstanceRecord> {
    Seq::new(entries.len(), |i: int| entry_record(snap, v_min_height, v_max_height, entries[i]))
}

impl View for HazardCheck {
    type V = Seq<HazardEntry>;

    open spec fn view(&self) -> Seq<HazardEntry> {
        self.entries@
    }
}

impl HazardCheck {
    /// No cell is held twice.
    pub open spec fn wf(&self) -> bool {
        cells_apart(self@)
    }

    /// The records of all cells that are held, in their order.
    pub open spec fn records(&self) -> Seq<InstanceRecord> {
        entry_records(self.snap, self.v_min_height, self.v_max_height, self@)
    }

    /// An empty grid with cells of side 0.1 and planes at the two heights.
    pub fn new(v_min_height: Binary32, v_max_height: Binary32) -> (r: HazardCheck)
        ensures
            r@ == Seq::<HazardEntry>::empty(),
            r.wf(),
            r.snap == (Binary32 { bits: SNAP_BITS }),
            r.v_min_height == v_min_height,
            r.v_max_height == v_max_height,
    {
        HazardCheck {
            snap: Binary32::from_bits(SNAP_BITS),
            v_min_height,
            v_max_height,
            entries: Vec::new(),
        }
    }

    /// Whether the cell is held.
    pub fn contains(&self, c: HazardCell) -> (r: bool)
        ensures
            r == holds_cell(self@, c),
    {
        let mut i: usize = 0;
        while i < self.entries.len()
            invariant
                i <= self.entries.len(),
                forall|j: int| 0 <= j < i ==> (#[trigger] self.entries[j]).cell != c,
            decreases self.entries.len() - i,
        {
            let e = self.entries[i];
            if e.cell == c {
                return true;
            }
            i += 1;
        }
        false
    }

    /// Records that a conductor crosses the plane of `level` in the cell
    /// `(x, z)`, whose centre stands at `centre`. A cell that is held
    /// already is not held again. Tells whether the cell is new.
    pub fn check(&mut self, level: HazardLevel, x: i32, z: i32, centre: Vec2) -> (fresh: bool)
        requires
            old(self).wf(),
        ensures
            final(self)@ == with_entry(
                old(self)@,
                HazardEntry { cell: HazardCell { x, z, level }, centre },
            ),
            final(self).wf(),
            holds_cell(final(self)@, HazardCell { x, z, level }),
            fresh == !holds_cell(old(self)@, HazardCell { x, z, level }),
            final(self).snap == old(self).snap,
            final(self).v_min_height == old(self).v_min_height,
            final(self).v_max_height == old(self).v_max_height,
    {
        let c = HazardCell { x, z, level };
        if self.contains(c) {
            false
        } else {
            self.entries.push(HazardEntry { cell: c, centre });
            assert(self.entries@[self.entries@.len() - 1].cell == c);
            true
        }
    }

    /// How many cells are held.
    pub fn len(&self) -> (r: usize)
        ensures
            r == self@.len(),
    {
        self.entries.len()
    }

    /// The height of the plane of a level.
    pub fn plane_height(&self, level: HazardLevel) -> (r: Binary32)
        ensures
            r == level_height(self.v_min_height, self.v_max_height, level),
    {
        match level {
            HazardLevel::Lower => self.v_min_height,
            HazardLevel::Upper => self.v_max_height,
        }
    }

    /// Appends one box for each cell to `dest`, in the order of the cells.
    pub fn create_matrices(&self, dest: &mut Vec<u8>)
        ensures
            records_appended(old(dest)@, final(dest)@, self.records()),
    {
        let mut recs: Vec<InstanceRecord> = Vec::new();
        let mut i: usize = 0;
        while i < self.entries.len()
            invariant
                i <= self.entries.len(),
                recs.len() == i,
                forall|j: int|
                    0 <= j < i ==> #[trigger] recs[j] == entry_record(
                        self.snap,
                        self.v_min_height,
                        self.v_max_height,
                        self.entries[j],
                    ),
            decreases self.entries.len() - i,
        {
            let e = self.entries[i];
            recs.push(
                InstanceRecord {
                    position: Vec3 {
                        x: e.centre.x,
                        y: self.plane_height(e.cell.level),
                        z: e.centre.y,
                    },
                    texture: Vec4 {
                        x: Binary32::zero(),
                        y: Binary32::zero(),
                        z: Binary32::one(),
                        w: Binary32::one(),
                    },
                    rotation: Quat::identity(),
                    scale: Vec3 { x: self.snap, y: Binary32::one(), z: self.snap },
                },
            );
            i += 1;
        }
        assert(recs@ =~= self.records());
        append_records(dest, &recs);
    }
}

/// A cell that is crossed twice is held once: crossing it again changes
/// nothing, wherever the second crossing puts the centre.
pub proof fn lemma_same_cell_once(entries: Seq<HazardEntry>, e: HazardEntry, again: HazardEntry)
    requires
        again.cell == e.cell,
    ensures
        with_entry(with_entry(entries, e), again) == with_entry(entries, e),
        holds_cell(with_entry(entries, e), e.cell),
        with_entry(with_entry(Seq::<HazardEntry>::empty(), e), again).len() == 1,
{
    let once = with_entry(entries, e);
    if !holds_cell(entries, e.cell) {
        assert(once[entries.len() as int].cell == e.cell);
    }
    let first = with_entry(Seq::<HazardEntry>::empty(), e);
    assert(first[0].cell == e.cell);
}

/// Two different cells are held as two: cells differ if their indices or
/// their planes do, so the two hazard bands never merge.
pub proof fn lemma_distinct_cells_twice(entries: Seq<HazardEntry>, c: HazardEntry, e: HazardEntry)
    requires
        c.cell != e.cell,
        !holds_cell(entries, c.cell),
        !holds_cell(entries, e.cell),
    ensures
        with_entry(with_entry(entries, c), e).len() == entries.len() + 2,
        holds_cell(with_entry(with_entry(entries, c), e), c.cell),
        holds_cell(with_entry(with_entry(entries, c), e), e.cell),
{
    let once = with_entry(entries, c);
    assert(once =~= entries.push(c));
    assert forall|i: int| 0 <= i < once.len() implies (#[trigger] once[i]).cell != e.cell by {
        if i < entries.len() {
            assert(entries[i].cell != e.cell);
        }
    }
    let twice = with_entry(once, e);
    assert(twice =~= once.push(e));
    assert(twice[entries.len() as int].cell == c.cell);
    assert(twice[entries.len() as int + 1].cell == e.cell);
}

/// Holding each cell once is kept by every crossing, and the number of cells
/// grows by one exactly when the cell is new.
pub proof fn lemma_with_entry_keeps_cells_apart(entries: Seq<HazardEntry>, e: HazardEntry)
    requires
        cells_apart(entries),
    ensures
        cells_apart(with_entry(entries, e)),
        with_entry(entries, e).len() == if holds_cell(entries, e.cell) {
            entries.len()
        } else {
            entries.len() + 1
        },
        forall|c: HazardCell|
            holds_cell(with_entry(entries, e), c) <==> (holds_cell(entries, c) || c == e.cell),
{
    let out = with_entry(entries, e);
    assert forall|c: HazardCell| holds_cell(out, c) <==> (holds_cell(entries, c) || c
        == e.cell) by {
        if holds_cell(entries, e.cell) {
        } else {
            if holds_cell(out, c) {
                let i = choose|i: int| 0 <= i < out.len() && (#[trigger] out[i]).cell == c;
                if i < entries.len() {
                    assert(entries[i].cell == c);
                }
            }
            if holds_cell(entries, c) {
                let i = choose|i: int| 0 <= i < entries.len() && (#[trigger] entries[i]).cell == c;
                assert(out[i].cell == c);
            }
            if c == e.cell {
                assert(out[entries.len() as int].cell == c);
            }
        }
    }
}

} // verus!
