//! The probe update pipeline: the moves are carried out, then the charts
//! are drawn, then the charts are installed. The first and the last stage
//! work on the state and are here; the middle one is the caller's, and
//! needs no state.

use vstd::prelude::*;
use std::collections::VecDeque;
use crate::probe::EntityId;
use crate::probe::NO_LINE;
use crate::probe::Probe;
use crate::probe::Projection;
use crate::probe::marker_at;
use crate::probe::resolved;
use crate::state::GridState;
use crate::state::MAX_PROBES;
use crate::vector::Vec3;

verus! {

/// What the first stage has done to one probe.
#[derive(Clone, Copy, Debug, PartialEq, Eq, Structural)]
pub struct ProbeUpdate {
    /// The marker of the probe.
    pub entity: EntityId,
    /// Where the marker is to be put.
    pub at: Vec3,
    /// The line whose chart is to be drawn for the probe, if it is attached
    /// to one.
    pub chart_line: Option<usize>,
}

/// What the first stage reports of the probe `p`, which had a move pending,
/// with `cands` the projections of the new position.
pub open spec fn update_of(p: Probe, cands: Seq<Projection>) -> ProbeUpdate {
    ProbeUpdate {
        entity: p.entity,
        at: marker_at(p, cands),
        chart_line: if resolved(p, cands).line_i == NO_LINE {
            None
        } else {
            Some(resolved(p, cands).line_i)
        },
    }
}

/// What the first stage reports of the first `n` probes: one update for
/// each probe that had a move pending, in the order of the probes.
pub open spec fn updates_upto(
    probes: Seq<Probe>,
    projections: Seq<Vec<Projection>>,
    n: int,
) -> Seq<ProbeUpdate>
    decreases n,
{
    if n <= 0 {
        Seq::empty()
    } else {
        let before = updates_upto(probes, projections, n - 1);
        if probes[n - 1].dirty is Some {
            before.push(update_of(probes[n - 1], projections[n - 1]@))
        } else {
            before
        }
    }
}

/// The moves that are pending, probe by probe.
pub fn pending_moves(gs: &GridState) -> (r: Vec<Option<Vec3>>)
    ensures
        r.len() == gs.probes@.len(),
        forall|i: int| 0 <= i < r.len() ==> r[i] == (#[trigger] gs.probes@[i]).dirty,
{
    let mut out: Vec<Option<Vec3>> = Vec::new();
    let mut i: usize = 0;
    while i < gs.probes.len()
        invariant
            i <= gs.probes.len(),
            out.len() == i,
            forall|j: int| 0 <= j < i ==> out[j] == (#[trigger] gs.probes@[j]).dirty,
        decreases gs.probes.len() - i,
    {
        let p = gs.probes[i];
        out.push(p.dirty);
        i += 1;
    }
    out
}

/// The first stage: carries out every pending move. Each probe with a move
/// pending stands where it was asked to go, has nothing pending any more,
/// and is attached to the line that is nearest to its new position; the
/// other probes stay as they are. `projections[i]` are the projections of
/// the new position of probe `i` onto the lines; those of a probe without a
/// pending move are not looked at. Reports, for each probe that was moved,
/// where its marker goes and which chart it needs.
pub fn update_probes(gs: &mut GridState, projections: &Vec<Vec<Projection>>) -> (r: Vec<
    ProbeUpdate,
>)
    requires
        old(gs).wf(),
        projections.len() == old(gs).probes@.len(),
    ensures
        final(gs).probes@.len() == old(gs).probes@.len(),
        forall|i: int|
            0 <= i < old(gs).probes@.len() ==> #[trigger] final(gs).probes@[i] == resolved(
                old(gs).probes@[i],
                projections[i]@,
            ),
        forall|i: int| 0 <= i < final(gs).probes@.len() ==> (#[trigger] final(gs).probes@[i]).dirty is None,
        r@ == updates_upto(old(gs).probes@, projections@, old(gs).probes@.len() as int),
        final(gs).wf(),
        final(gs).same_but_probes(old(gs)),
{
    let ghost all = gs.probes@;
    let mut done: VecDeque<Probe> = VecDeque::new();
    let mut updates: Vec<ProbeUpdate> = Vec::new();
    let mut i: usize = 0;
    while i < gs.probes.len()
        invariant
            i <= gs.probes.len(),
            gs.probes@ == all,
            projections.len() == all.len(),
            done@.len() == i,
            forall|j: int| 0 <= j < i ==> #[trigger] done@[j] == resolved(all[j], projections[j]@),
            updates@ == updates_upto(all, projections@, i as int),
        decreases gs.probes.len() - i,
    {
        let mut p = gs.probes[i];
        if p.dirty.is_some() {
            let ghost before = p;
            let at = p.update(&projections[i]);
            let chart_line = if p.line_i == NO_LINE {
                None
            } else {
                Some(p.line_i)
            };
            updates.push(ProbeUpdate { entity: p.entity, at, chart_line });
            proof {
                assert(p.entity == before.entity);
            }
        }
        done.push_back(p);
        i += 1;
    }
    gs.probes = done;
    proof {
        assert forall|k: int| 0 <= k < gs.probes@.len() implies (#[trigger] gs.probes@[k]).dirty is None by {
            assert(gs.probes@[k] == resolved(all[k], projections[k]@));
        }
    }
    updates
}

/// Whether the probe with the marker `entity` still lacks the handle that
/// its chart hangs on. There is no answer if there is no such probe: it has
/// left since its move was carried out, and its chart is dropped.
pub fn needs_handle(gs: &GridState, entity: EntityId) -> (r: Option<bool>)
    ensures
        match r {
            Some(b) => exists|i: int|
                crate::methods::is_first_probe_of(gs.probes@, entity, i) && b == (
                gs.probes@[i].handle is None),
            None => crate::methods::no_probe_of(gs.probes@, entity),
        },
{
    let mut i: usize = 0;
    while i < gs.probes.len()
        invariant
            i <= gs.probes.len(),
            forall|j: int| 0 <= j < i ==> (#[trigger] gs.probes@[j]).entity != entity,
        decreases gs.probes.len() - i,
    {
        let p = gs.probes[i];
        if p.entity == entity {
            assert(crate::methods::is_first_probe_of(gs.probes@, entity, i as int));
            return Some(p.handle.is_none());
        }
        i += 1;
    }
    None
}

/// The probe `p` with a new chart: the chart and its delete button take the
/// place of those that it had, and the handle is kept if it had one.
pub open spec fn with_chart(
    p: Probe,
    handle: Option<EntityId>,
    chart: EntityId,
    chart_delete: EntityId,
) -> Probe {
    Probe {
        handle: if p.handle is None {
            handle
        } else {
            p.handle
        },
        chart: Some(chart),
        chart_delete: Some(chart_delete),
        ..p
    }
}

/// The third stage, for one probe: installs the chart that was drawn for
/// the probe with the marker `entity`, in place of the chart that it had.
/// `handle` is the handle that was made for it where it lacked one. Tells
/// whether there is such a probe; if not, nothing changes.
pub fn install_chart(
    gs: &mut GridState,
    entity: EntityId,
    handle: Option<EntityId>,
    chart: EntityId,
    chart_delete: EntityId,
) -> (installed: bool)
    requires
        old(gs).wf(),
    ensures
        installed == !crate::methods::no_probe_of(old(gs).probes@, entity),
        forall|i: int|
            crate::methods::is_first_probe_of(old(gs).probes@, entity, i) ==> final(gs).probes@
                == old(gs).probes@.update(
                i,
                with_chart(old(gs).probes@[i], handle, chart, chart_delete),
            ),
        !installed ==> final(gs).probes@ == old(gs).probes@,
        final(gs).wf(),
        final(gs).same_but_probes(old(gs)),
{
    let mut i: usize = 0;
    while i < gs.probes.len()
        invariant
            i <= gs.probes.len(),
            gs.probes@ == old(gs).probes@,
            gs.same_but_probes(old(gs)),
            gs.wf(),
            forall|j: int| 0 <= j < i ==> (#[trigger] gs.probes@[j]).entity != entity,
        decreases gs.probes.len() - i,
    {
        let p = gs.probes[i];
        if p.entity == entity {
            let ghost before = gs.probes@;
            proof {
                assert(crate::methods::is_first_probe_of(before, entity, i as int));
                assert forall|k: int|
                    crate::methods::is_first_probe_of(before, entity, k) implies k == i by {
                    crate::methods::lemma_first_probe_unique(before, entity, k, i as int);
                }
            }
            let next = Probe {
                handle: if p.handle.is_none() {
                    handle
                } else {
                    p.handle
                },
                chart: Some(chart),
                chart_delete: Some(chart_delete),
                ..p
            };
            gs.probes.remove(i);
            gs.probes.insert(i, next);
            proof {
                assert(gs.probes@ =~= before.update(i as int, next));
            }
            return true;
        }
        i += 1;
    }
    proof {
        assert forall|k: int| !crate::methods::is_first_probe_of(gs.probes@, entity, k) by {}
    }
    false
}

} // verus!
