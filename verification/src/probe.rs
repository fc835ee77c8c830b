//! Probes: markers that a viewer drags about, and that attach to the nearest
//! conductor.

use vstd::prelude::*;
use crate::ieee::Binary32;
use crate::ieee::INFINITY_BITS;
use crate::ieee::ONE_BITS;
use crate::ieee::lemma_order_total;
use crate::vector::Vec2;
use crate::vector::Vec3;

verus! {

/// The line index of a probe that is attached to no line.
pub const NO_LINE: usize = usize::MAX;

/// The handle of an object of the scene. The scene owns the object; the
/// library holds the handle and compares it, nothing else.
#[derive(Clone, Copy, Debug, PartialEq, Eq, Structural)]
pub struct EntityId {
    pub slot: u32,
    pub generation: u32,
}

/// A movable probe.
#[derive(Clone, Copy, Debug, PartialEq, Eq, Structural)]
pub struct Probe {
    /// The marker itself.
    pub entity: EntityId,
    /// Where the probe stands.
    pub world_pos: Vec3,
    /// Where the viewer has asked the probe to go, until that is done.
    pub dirty: Option<Vec3>,
    /// The handle by which the chart is dragged.
    pub handle: Option<EntityId>,
    /// The chart of the attached line.
    pub chart: Option<EntityId>,
    /// The button that deletes the probe.
    pub chart_delete: Option<EntityId>,
    /// The line to which the probe is attached, or `NO_LINE`.
    pub line_i: usize,
}

/// What a click on a part of a probe asks for.
#[derive(Clone, Copy, Debug, PartialEq, Eq, Structural)]
pub enum ClickResult {
    Delete,
}

/// A probe position projected onto one line segment, as the caller has
/// computed it.
#[derive(Clone, Copy, Debug, PartialEq, Eq, Structural)]
pub struct Projection {
    /// Where along the segment the foot of the perpendicular lies: 0 at the
    /// start, 1 at the end.
    pub t: Binary32,
    /// The start of the segment.
    pub start: Vec2,
    /// The end of the segment.
    pub end: Vec2,
    /// The foot of the perpendicular on the line through the segment.
    pub foot: Vec2,
    /// The distance from the probe to the start.
    pub to_start: Binary32,
    /// The distance from the probe to the end.
    pub to_end: Binary32,
    /// The distance from the probe to the foot.
    pub to_foot: Binary32,
}

impl Projection {
    /// The distance from the probe to the segment: to the start where the
    /// foot lies before it, to the end where the foot lies behind it, else
    /// to the foot.
    pub open spec fn distance(self) -> Binary32 {
        if self.t.less(Binary32 { bits: 0 }) {
            self.to_start
        } else if (Binary32 { bits: ONE_BITS }).less(self.t) {
            self.to_end
        } else {
            self.to_foot
        }
    }

    /// The point of the segment that is closest to the probe.
    pub open spec fn nearest(self) -> Vec2 {
        if self.t.less(Binary32 { bits: 0 }) {
            self.start
        } else if (Binary32 { bits: ONE_BITS }).less(self.t) {
            self.end
        } else {
            self.foot
        }
    }

    /// The segment can be attached to: its distance is a number below
    /// infinity.
    pub open spec fn reachable(self) -> bool {
        self.distance().less(Binary32 { bits: INFINITY_BITS })
    }

    pub fn closest(&self) -> (r: (Binary32, Vec2))
        ensures
            r.0 == self.distance(),
            r.1 == self.nearest(),
    {
        if self.t.lt(Binary32::zero()) {
            (self.to_start, self.start)
        } else if self.t.gt(Binary32::one()) {
            (self.to_end, self.end)
        } else {
            (self.to_foot, self.foot)
        }
    }
}

/// Segment `i` is the nearest: it is reachable, no reachable segment is
/// nearer, and every reachable segment before it is farther, so that of
/// several at the same distance the first is taken.
pub open spec fn is_closest(cands: Seq<Projection>, i: int) -> bool {
    &&& 0 <= i < cands.len()
    &&& cands[i].reachable()
    &&& forall|j: int|
        0 <= j < cands.len() && (#[trigger] cands[j]).reachable() ==> cands[i].distance().at_most(
            cands[j].distance(),
        )
    &&& forall|j: int|
        0 <= j < i && (#[trigger] cands[j]).reachable() ==> cands[i].distance().less(
            cands[j].distance(),
        )
}

/// Finds the segment that is nearest to the probe, and the point of it that
/// is closest. There is none if there is no segment, or if no distance is a
/// number below infinity.
pub fn get_closest_line(cands: &Vec<Projection>) -> (r: Option<(usize, Vec2)>)
    ensures
        match r {
            Some((i, p)) => is_closest(cands@, i as int) && p == cands[i as int].nearest(),
            None => none_reachable(cands@),
        },
{
    let mut min_distance = Binary32::infinity();
    let mut found: Option<(usize, Vec2)> = None;
    let mut k: usize = 0;
    while k < cands.len()
        invariant
            k <= cands.len(),
            match found {
                Some((i, p)) => {
                    &&& i < k
                    &&& min_distance == cands[i as int].distance()
                    &&& p == cands[i as int].nearest()
                    &&& is_closest(cands@.subrange(0, k as int), i as int)
                },
                None => {
                    &&& min_distance == (Binary32 { bits: INFINITY_BITS })
                    &&& forall|j: int| 0 <= j < k ==> !(#[trigger] cands[j]).reachable()
                },
            },
        decreases cands.len() - k,
    {
        let (this_distance, point) = cands[k].closest();
        let ghost before = cands@.subrange(0, k as int);
        let ghost after = cands@.subrange(0, k + 1);
        proof {
            assert forall|j: int| 0 <= j < k implies before[j] == after[j] && before[j]
                == cands[j] by {}
            assert(after[k as int] == cands[k as int]);
        }
        if this_distance.lt(min_distance) {
            proof {
                assert forall|j: int|
                    0 <= j < after.len() && (#[trigger] after[j]).reachable() implies after[k as int].distance().at_most(
                after[j].distance()) by {
                    if j < k {
                        assert(before[j].reachable());
                    }
                }
                assert forall|j: int| 0 <= j < k && (#[trigger] after[j]).reachable() implies after[k as int].distance().less(
                after[j].distance()) by {
                    assert(before[j].reachable());
                }
            }
            min_distance = this_distance;
            found = Some((k, point));
        } else {
            proof {
                if let Some((i, p)) = found {
                    if after[k as int].reachable() {
                        lemma_order_total(after[i as int].distance(), after[k as int].distance());
                    }
                    assert forall|j: int|
                        0 <= j < after.len() && (#[trigger] after[j]).reachable() implies after[i as int].distance().at_most(
                    after[j].distance()) by {
                        if j < k {
                            assert(before[j].reachable());
                        }
                    }
                    assert forall|j: int|
                        0 <= j < i && (#[trigger] after[j]).reachable() implies after[i as int].distance().less(
                    after[j].distance()) by {
                        assert(before[j].reachable());
                    }
                }
            }
        }
        k += 1;
    }
    proof {
        assert(cands@.subrange(0, k as int) =~= cands@);
    }
    found
}

/// No segment can be attached to.
pub open spec fn none_reachable(cands: Seq<Projection>) -> bool {
    forall|j: int| 0 <= j < cands.len() ==> !(#[trigger] cands[j]).reachable()
}

/// The probe `p` after its pending move was carried out, with `cands` the
/// projections of the new position onto the lines: it stands at the new
/// position, nothing is pending, and it is attached to the nearest line if
/// one can be attached to. A probe with no move pending stays as it is.
pub open spec fn resolved(p: Probe, cands: Seq<Projection>) -> Probe {
    match p.dirty {
        None => p,
        Some(to) => if exists|i: int| is_closest(cands, i) {
            Probe {
                world_pos: to,
                dirty: None,
                line_i: (choose|i: int| is_closest(cands, i)) as usize,
                ..p
            }
        } else {
            Probe { world_pos: to, dirty: None, ..p }
        },
    }
}

/// Where the marker of `p` is put when its pending move is carried out: on
/// the closest point of the nearest line, on the ground, or at the new
/// position where no line can be attached to.
pub open spec fn marker_at(p: Probe, cands: Seq<Projection>) -> Vec3 {
    match p.dirty {
        None => p.world_pos,
        Some(to) => if exists|i: int| is_closest(cands, i) {
            let i = choose|i: int| is_closest(cands, i);
            Vec3 { x: cands[i].nearest().x, y: Binary32 { bits: 0 }, z: cands[i].nearest().y }
        } else {
            to
        },
    }
}

impl Probe {
    /// A probe that stands at the origin, attached to nothing, with no
    /// move pending.
    pub open spec fn new_spec(entity: EntityId) -> Probe {
        Probe {
            entity,
            world_pos: Vec3 {
                x: Binary32 { bits: 0 },
                y: Binary32 { bits: 0 },
                z: Binary32 { bits: 0 },
            },
            dirty: None,
            handle: None,
            chart: None,
            chart_delete: None,
            line_i: NO_LINE,
        }
    }

    pub fn new(entity: EntityId) -> (r: Probe)
        ensures
            r == Self::new_spec(entity),
    {
        Probe {
            entity,
            world_pos: Vec3 { x: Binary32::zero(), y: Binary32::zero(), z: Binary32::zero() },
            dirty: None,
            handle: None,
            chart: None,
            chart_delete: None,
            line_i: NO_LINE,
        }
    }

    /// Carries out the pending move: the probe stands where it was asked to
    /// go, no move is pending any more, and the probe is attached to the
    /// nearest line. `cands` are the projections of the new position onto
    /// the lines, in the order of the lines. Returns where the marker is to
    /// be put: on the closest point of the nearest line, on the ground; or,
    /// where no line can be attached to, at the new position, and the probe
    /// stays attached as it was.
    pub fn update(&mut self, cands: &Vec<Projection>) -> (at: Vec3)
        requires
            old(self).dirty is Some,
        ensures
            *final(self) == resolved(*old(self), cands@),
            at == marker_at(*old(self), cands@),
    {
        let to = match self.dirty {
            Some(p) => p,
            None => self.world_pos,
        };
        self.world_pos = to;
        self.dirty = None;
        let r = get_closest_line(cands);
        let at = match r {
            Some((i, point)) => {
                self.line_i = i;
                Vec3 { x: point.x, y: Binary32::zero(), z: point.y }
            },
            None => to,
        };
        proof {
            match r {
                Some((i, point)) => {
                    assert forall|j: int| is_closest(cands@, j) implies j == i by {
                        lemma_closest_unique(cands@, j, i as int);
                    }
                    assert(is_closest(cands@, i as int));
                    let w = choose|w: int| is_closest(cands@, w);
                    assert(w == i);
                },
                None => {
                    assert forall|j: int| !is_closest(cands@, j) by {
                        if is_closest(cands@, j) {
                            assert(cands[j].reachable());
                        }
                    }
                },
            }
        }
        at
    }

    /// Whether a click on `entity` asks to delete this probe: it does if
    /// `entity` is the delete button of the probe.
    pub fn check_click(&self, entity: &EntityId) -> (r: Option<ClickResult>)
        ensures
            r == if self.chart_delete == Some(*entity) {
                Some(ClickResult::Delete)
            } else {
                None
            },
    {
        match self.chart_delete {
            Some(button) => {
                if button == *entity {
                    Some(ClickResult::Delete)
                } else {
                    None
                }
            },
            None => None,
        }
    }
}

/// A probe that is moved attaches to the nearest segment that can be
/// attached to, and its marker goes to the closest point of that segment, on
/// the ground. Where no segment can be attached to, the probe keeps its
/// line and the marker goes where the probe was put.
pub proof fn lemma_resolved_attaches(p: Probe, cands: Seq<Projection>)
    requires
        p.dirty is Some,
    ensures
        forall|i: int|
            is_closest(cands, i) ==> {
                &&& resolved(p, cands) == (Probe {
                    world_pos: p.dirty->0,
                    dirty: None,
                    line_i: i as usize,
                    ..p
                })
                &&& marker_at(p, cands) == (Vec3 {
                    x: cands[i].nearest().x,
                    y: Binary32 { bits: 0 },
                    z: cands[i].nearest().y,
                })
            },
        none_reachable(cands) ==> {
            &&& resolved(p, cands) == (Probe { world_pos: p.dirty->0, dirty: None, ..p })
            &&& marker_at(p, cands) == p.dirty->0
        },
{
    assert forall|i: int| is_closest(cands, i) implies {
        &&& resolved(p, cands) == (Probe {
            world_pos: p.dirty->0,
            dirty: None,
            line_i: i as usize,
            ..p
        })
        &&& marker_at(p, cands) == (Vec3 {
            x: cands[i].nearest().x,
            y: Binary32 { bits: 0 },
            z: cands[i].nearest().y,
        })
    } by {
        let w = choose|w: int| is_closest(cands, w);
        lemma_closest_unique(cands, w, i);
    }
    if none_reachable(cands) {
        assert forall|i: int| !is_closest(cands, i) by {
            if is_closest(cands, i) {
                assert(cands[i].reachable());
            }
        }
    }
}

/// There is at most one nearest segment.
pub proof fn lemma_closest_unique(cands: Seq<Projection>, i: int, j: int)
    requires
        is_closest(cands, i),
        is_closest(cands, j),
    ensures
        i == j,
{
    if i < j {
        assert(cands[i].reachable());
    } else if j < i {
        assert(cands[j].reachable());
    }
}

} // verus!
