//! What the viewers can ask for: setting and stepping the time, playback,
//! creating, moving and deleting probes, and switching the display mode.

use vstd::prelude::*;
use std::collections::VecDeque;
use crate::ieee::Binary32;
use crate::probe::ClickResult;
use crate::probe::EntityId;
use crate::probe::Probe;
use crate::state::GridState;
use crate::state::MAX_PROBES;
use crate::vector::Vec3;

verus! {

/// What is to be done about the playback timer.
#[derive(Clone, Copy, Debug, PartialEq, Eq, Structural)]
pub enum TimerCommand {
    /// Nothing: the timer runs on, or stays stopped.
    Keep,
    /// Start a timer.
    Start,
    /// Stop the running timer.
    Stop,
}

/// What a request to move an object has come to.
#[derive(Clone, Copy, Debug, PartialEq, Eq, Structural)]
pub enum MoveOutcome {
    /// The object is the probe with this index: the move is pending.
    Probe(usize),
    /// The object is no probe: it is to be moved as it is.
    Entity,
}

/// `t` brought into `[0, max)`: the nearest index.
pub open spec fn clamp_index(t: int, max: int) -> int {
    if t < 0 {
        0
    } else if t > max - 1 {
        max - 1
    } else {
        t
    }
}

/// `t`, which is at most one step outside `[0, max)`, wrapped round into it.
pub open spec fn wrap_index(t: int, max: int) -> int {
    if t < 0 {
        t + max
    } else if t >= max {
        t - max
    } else {
        t
    }
}

/// `d` brought into `[-1, 1]`.
pub open spec fn clamp_direction(d: int) -> int {
    if d < -1 {
        -1
    } else if d > 1 {
        1
    } else {
        d
    }
}

/// Shows the time step that `time` names: its whole part, or the last time
/// step if there are not so many. A time that is no number or is negative
/// names the first time step.
pub fn set_time(gs: &mut GridState, time: Binary32)
    requires
        old(gs).wf(),
    ensures
        final(gs).time_step == clamp_index(time.whole_part() as int, old(gs).max_time_step as int),
        final(gs).wf(),
        final(gs).same_but_time(old(gs)),
        final(gs).time_step_direction == old(gs).time_step_direction,
        final(gs).active_timer == old(gs).active_timer,
{
    gs.time_step = time.to_index(gs.max_time_step - 1);
}

/// Goes `delta` time steps on, or back if `delta` is negative, and stops at
/// the first and at the last time step.
pub fn step_time(gs: &mut GridState, delta: i32)
    requires
        old(gs).wf(),
    ensures
        final(gs).time_step == clamp_index(
            old(gs).time_step + delta,
            old(gs).max_time_step as int,
        ),
        final(gs).wf(),
        final(gs).same_but_time(old(gs)),
        final(gs).time_step_direction == old(gs).time_step_direction,
        final(gs).active_timer == old(gs).active_timer,
{
    let last: usize = gs.max_time_step - 1;
    if delta >= 0 {
        let room: usize = last - gs.time_step;
        let forward: u32 = delta as u32;
        if forward as u64 > room as u64 {
            gs.time_step = last;
        } else {
            gs.time_step = gs.time_step + forward as usize;
        }
    } else {
        let back: u64 = (-(delta as i64)) as u64;
        if back > gs.time_step as u64 {
            gs.time_step = 0;
        } else {
            gs.time_step = gs.time_step - back as usize;
        }
    }
}

/// Takes over the playback direction and decides about the timer: a timer
/// is started if one is asked for and none runs, the running one is stopped
/// if none is asked for, and nothing is done otherwise. There is never a
/// second timer.
pub fn check_launch_timer(gs: &mut GridState, timer_direction: i32) -> (r: TimerCommand)
    requires
        old(gs).wf(),
        -1 <= timer_direction <= 1,
    ensures
        final(gs).time_step_direction == timer_direction,
        final(gs).active_timer == (timer_direction != 0),
        r == if old(gs).active_timer && timer_direction == 0 {
            TimerCommand::Stop
        } else if !old(gs).active_timer && timer_direction != 0 {
            TimerCommand::Start
        } else {
            TimerCommand::Keep
        },
        final(gs).wf(),
        final(gs).same_but_time(old(gs)),
        final(gs).time_step == old(gs).time_step,
{
    let start_timer = timer_direction != 0;
    gs.time_step_direction = timer_direction;
    if gs.active_timer {
        if start_timer {
            TimerCommand::Keep
        } else {
            gs.active_timer = false;
            TimerCommand::Stop
        }
    } else if start_timer {
        gs.active_timer = true;
        TimerCommand::Start
    } else {
        TimerCommand::Keep
    }
}

/// Plays the time in the direction of the sign of `time`, or stops it if
/// `time` is 0.
pub fn play_time(gs: &mut GridState, time: i32) -> (r: TimerCommand)
    requires
        old(gs).wf(),
    ensures
        final(gs).time_step_direction == clamp_direction(time as int),
        final(gs).active_timer == (time != 0),
        r == if old(gs).active_timer && time == 0 {
            TimerCommand::Stop
        } else if !old(gs).active_timer && time != 0 {
            TimerCommand::Start
        } else {
            TimerCommand::Keep
        },
        final(gs).wf(),
        final(gs).same_but_time(old(gs)),
        final(gs).time_step == old(gs).time_step,
{
    let direction: i32 = if time < -1 {
        -1
    } else if time > 1 {
        1
    } else {
        time
    };
    check_launch_timer(gs, direction)
}

/// Goes one time step on in the playback direction, from the last time step
/// round to the first and from the first round to the last.
pub fn advance(gs: &mut GridState)
    requires
        old(gs).wf(),
    ensures
        final(gs).time_step == wrap_index(
            old(gs).time_step + old(gs).time_step_direction,
            old(gs).max_time_step as int,
        ),
        final(gs).wf(),
        final(gs).same_but_time(old(gs)),
        final(gs).time_step_direction == old(gs).time_step_direction,
        final(gs).active_timer == old(gs).active_timer,
{
    if gs.time_step_direction > 0 {
        if gs.time_step == gs.max_time_step - 1 {
            gs.time_step = 0;
        } else {
            gs.time_step = gs.time_step + 1;
        }
    } else if gs.time_step_direction < 0 {
        if gs.time_step == 0 {
            gs.time_step = gs.max_time_step - 1;
        } else {
            gs.time_step = gs.time_step - 1;
        }
    }
}

/// Switches between heights by voltage and heights by line load.
pub fn toggle_line_load(gs: &mut GridState)
    ensures
        final(gs).show_line_load == !old(gs).show_line_load,
        final(gs).time_step == old(gs).time_step,
        final(gs).time_step_direction == old(gs).time_step_direction,
        final(gs).max_time_step == old(gs).max_time_step,
        final(gs).domain == old(gs).domain,
        final(gs).probes@ == old(gs).probes@,
        final(gs).active_timer == old(gs).active_timer,
        final(gs).same_buffers(old(gs)),
{
    gs.show_line_load = !gs.show_line_load;
}

/// Whether a request to create a probe is taken up: only one that is not
/// made on an object of the scene.
pub fn probe_requested(context: &Option<EntityId>) -> (r: bool)
    ensures
        r == (*context is None),
{
    context.is_none()
}

/// The probes after a new one for `entity` has joined them: the oldest has
/// left if there were as many as allowed.
pub open spec fn with_probe(probes: Seq<Probe>, p: Probe) -> Seq<Probe> {
    if probes.len() >= MAX_PROBES {
        probes.subrange(1, probes.len() as int).push(p)
    } else {
        probes.push(p)
    }
}

/// Adds a new probe for the marker `entity`. Where there are as many probes
/// as allowed already, the oldest leaves and is handed back.
pub fn make_probe(gs: &mut GridState, entity: EntityId) -> (evicted: Option<Probe>)
    requires
        old(gs).wf(),
    ensures
        final(gs).probes@ == with_probe(old(gs).probes@, Probe::new_spec(entity)),
        evicted == if old(gs).probes@.len() >= MAX_PROBES {
            Some(old(gs).probes@[0])
        } else {
            None
        },
        final(gs).wf(),
        final(gs).same_but_probes(old(gs)),
{
    let mut evicted: Option<Probe> = None;
    if gs.probes.len() >= MAX_PROBES {
        evicted = gs.probes.pop_front();
    }
    gs.probes.push_back(Probe::new(entity));
    evicted
}

/// Probe `i` is the first whose marker is `entity`.
pub open spec fn is_first_probe_of(probes: Seq<Probe>, entity: EntityId, i: int) -> bool {
    &&& 0 <= i < probes.len()
    &&& probes[i].entity == entity
    &&& forall|j: int| 0 <= j < i ==> (#[trigger] probes[j]).entity != entity
}

/// No probe has the marker `entity`.
pub open spec fn no_probe_of(probes: Seq<Probe>, entity: EntityId) -> bool {
    forall|j: int| 0 <= j < probes.len() ==> (#[trigger] probes[j]).entity != entity
}

/// A position brought down to the ground.
pub open spec fn grounded_position(position: Vec3) -> Vec3 {
    Vec3 { x: position.x, y: Binary32 { bits: 0 }, z: position.z }
}

/// The probes after a request to move `entity` to `position`: the first
/// probe with that marker has the move pending, in place of any move that
/// was pending before.
pub open spec fn with_move(probes: Seq<Probe>, entity: EntityId, position: Vec3) -> Seq<Probe> {
    if exists|i: int| is_first_probe_of(probes, entity, i) {
        let i = choose|i: int| is_first_probe_of(probes, entity, i);
        probes.update(i, Probe { dirty: Some(grounded_position(position)), ..probes[i] })
    } else {
        probes
    }
}

fn find_probe(probes: &VecDeque<Probe>, entity: EntityId) -> (r: Option<usize>)
    ensures
        match r {
            Some(i) => is_first_probe_of(probes@, entity, i as int),
            None => no_probe_of(probes@, entity),
        },
{
    let mut i: usize = 0;
    while i < probes.len()
        invariant
            i <= probes.len(),
            forall|j: int| 0 <= j < i ==> (#[trigger] probes@[j]).entity != entity,
        decreases probes.len() - i,
    {
        let p = probes[i];
        if p.entity == entity {
            return Some(i);
        }
        i += 1;
    }
    None
}

/// Takes up a request to move the object `entity` to `position`. If it is
/// the marker of a probe, the move becomes pending on that probe, on the
/// ground, in place of an earlier pending move; else the state stays as it
/// is and the object is to be moved as it is.
pub fn on_move(gs: &mut GridState, entity: EntityId, position: Vec3) -> (r: MoveOutcome)
    requires
        old(gs).wf(),
    ensures
        final(gs).probes@ == with_move(old(gs).probes@, entity, position),
        match r {
            MoveOutcome::Probe(i) => is_first_probe_of(old(gs).probes@, entity, i as int),
            MoveOutcome::Entity => no_probe_of(old(gs).probes@, entity),
        },
        final(gs).wf(),
        final(gs).same_but_probes(old(gs)),
{
    match find_probe(&gs.probes, entity) {
        Some(i) => {
            let ghost before = gs.probes@;
            proof {
                assert forall|k: int| is_first_probe_of(before, entity, k) implies k == i by {
                    lemma_first_probe_unique(before, entity, k, i as int);
                }
            }
            let found = gs.probes.remove(i);
            let p = match found {
                Some(p) => p,
                None => Probe::new(entity),
            };
            let moved = Probe {
                dirty: Some(Vec3 { x: position.x, y: Binary32::zero(), z: position.z }),
                ..p
            };
            gs.probes.insert(i, moved);
            proof {
                assert(gs.probes@ =~= before.update(i as int, moved));
            }
            MoveOutcome::Probe(i)
        },
        None => {
            proof {
                assert forall|k: int| !is_first_probe_of(gs.probes@, entity, k) by {}
            }
            MoveOutcome::Entity
        },
    }
}

/// The probes that stay after a click on `entity`: all but those whose
/// delete button it is.
pub open spec fn after_click(probes: Seq<Probe>, entity: EntityId) -> Seq<Probe> {
    probes.filter(|p: Probe| p.chart_delete != Some(entity))
}

/// The probes that leave after a click on `entity`: those whose delete
/// button it is.
pub open spec fn deleted_by_click(probes: Seq<Probe>, entity: EntityId) -> Seq<Probe> {
    probes.filter(|p: Probe| p.chart_delete == Some(entity))
}

/// Takes up a click on the object `entity`: every probe whose delete button
/// it is leaves, and is handed back. The others stay in their order.
pub fn on_click(gs: &mut GridState, entity: EntityId) -> (removed: Vec<Probe>)
    requires
        old(gs).wf(),
    ensures
        final(gs).probes@ == after_click(old(gs).probes@, entity),
        removed@ == deleted_by_click(old(gs).probes@, entity),
        final(gs).wf(),
        final(gs).same_but_probes(old(gs)),
{
    let mut kept: VecDeque<Probe> = VecDeque::new();
    let mut removed: Vec<Probe> = Vec::new();
    let ghost all = gs.probes@;
    let ghost stays = |p: Probe| p.chart_delete != Some(entity);
    let ghost leaves = |p: Probe| p.chart_delete == Some(entity);
    let mut i: usize = 0;
    proof {
        reveal(Seq::filter);
        assert(all.subrange(0, 0).filter(stays) =~= Seq::<Probe>::empty());
        assert(all.subrange(0, 0).filter(leaves) =~= Seq::<Probe>::empty());
    }
    while i < gs.probes.len()
        invariant
            i <= gs.probes.len(),
            gs.probes@ == all,
            all.len() <= MAX_PROBES,
            stays == |p: Probe| p.chart_delete != Some(entity),
            leaves == |p: Probe| p.chart_delete == Some(entity),
            kept@ == all.subrange(0, i as int).filter(stays),
            removed@ == all.subrange(0, i as int).filter(leaves),
            kept@.len() <= i,
            gs.same_but_probes(old(gs)),
            gs.time_step < gs.max_time_step,
            -1 <= gs.time_step_direction <= 1,
        decreases gs.probes.len() - i,
    {
        let p = gs.probes[i];
        proof {
            reveal(Seq::filter);
            let next = all.subrange(0, i + 1);
            assert(next.drop_last() =~= all.subrange(0, i as int));
            assert(next.last() == p);
        }
        match p.check_click(&entity) {
            Some(ClickResult::Delete) => {
                removed.push(p);
            },
            None => {
                kept.push_back(p);
            },
        }
        i += 1;
    }
    proof {
        assert(all.subrange(0, i as int) =~= all);
    }
    gs.probes = kept;
    removed
}

/// There is at most one first probe of a marker.
pub proof fn lemma_first_probe_unique(probes: Seq<Probe>, entity: EntityId, i: int, j: int)
    requires
        is_first_probe_of(probes, entity, i),
        is_first_probe_of(probes, entity, j),
    ensures
        i == j,
{
    if i < j {
        assert(probes[i].entity == entity);
    } else if j < i {
        assert(probes[j].entity == entity);
    }
}

/// Of two requests to move the same probe before the moves are carried out,
/// only the second counts: the probes are as if the first had never been
/// made, and one move is pending, to the second position.
pub proof fn lemma_moves_coalesce(probes: Seq<Probe>, entity: EntityId, first: Vec3, second: Vec3)
    ensures
        with_move(with_move(probes, entity, first), entity, second) == with_move(
            probes,
            entity,
            second,
        ),
        forall|i: int|
            is_first_probe_of(probes, entity, i) ==> with_move(
                with_move(probes, entity, first),
                entity,
                second,
            )[i].dirty == Some(grounded_position(second)),
{
    let once = with_move(probes, entity, first);
    if exists|i: int| is_first_probe_of(probes, entity, i) {
        let i = choose|i: int| is_first_probe_of(probes, entity, i);
        assert(is_first_probe_of(once, entity, i));
        let k = choose|k: int| is_first_probe_of(once, entity, k);
        lemma_first_probe_unique(once, entity, i, k);
        assert(with_move(once, entity, second) =~= with_move(probes, entity, second));
        assert forall|j: int| is_first_probe_of(probes, entity, j) implies j == i by {
            lemma_first_probe_unique(probes, entity, i, j);
        }
    } else {
        assert forall|k: int| !is_first_probe_of(once, entity, k) by {}
    }
}

/// Advancing wraps round: the new time step is the old one plus the
/// direction, modulo the number of time steps, and never leaves the range.
pub proof fn lemma_wrap_is_modulo(t: int, d: int, max: int)
    requires
        0 <= t < max,
        -1 <= d <= 1,
    ensures
        wrap_index(t + d, max) == (t + d) % max,
        0 <= wrap_index(t + d, max) < max,
{
    if t + d < 0 {
        vstd::arithmetic::div_mod::lemma_mod_add_multiples_vanish(t + d, max);
        vstd::arithmetic::div_mod::lemma_small_mod((t + d + max) as nat, max as nat);
    } else if t + d >= max {
        vstd::arithmetic::div_mod::lemma_mod_sub_multiples_vanish(t + d, max);
        vstd::arithmetic::div_mod::lemma_small_mod((t + d - max) as nat, max as nat);
    } else {
        vstd::arithmetic::div_mod::lemma_small_mod((t + d) as nat, max as nat);
    }
}

} // verus!
