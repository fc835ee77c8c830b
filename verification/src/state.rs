//! The root state of the visualisation: the time step and the playback
//! direction, the display mode, the probes and the instance buffers.

use vstd::prelude::*;
use std::collections::VecDeque;
use crate::domain::Domain;
use crate::dots::PowerSystem;
use crate::probe::Probe;

verus! {

/// The greatest number of probes that are kept. One more evicts the oldest.
pub const MAX_PROBES: usize = 5;

/// The state that every method of the visualisation works on.
pub struct GridState {
    /// The time step that is shown: below `max_time_step`.
    pub time_step: usize,
    /// The playback direction: -1 backwards, 0 stopped, 1 forwards.
    pub time_step_direction: i32,
    /// The number of time steps of the dataset.
    pub max_time_step: usize,
    pub domain: Domain,
    /// Heights show the line load in place of the voltage.
    pub show_line_load: bool,
    /// The probes, the oldest first.
    pub probes: VecDeque<Probe>,
    /// A playback timer is running.
    pub active_timer: bool,
    pub hazard: Vec<u8>,
    pub bus: Vec<u8>,
    pub line: Vec<u8>,
    pub line_flow: Vec<u8>,
    pub transformer: Vec<u8>,
    pub generator: Vec<u8>,
}

impl GridState {
    /// The time step is one of the dataset, the direction is one of the
    /// three, a timer runs exactly while the time is played, and there are
    /// no more probes than allowed.
    pub open spec fn wf(&self) -> bool {
        &&& self.time_step < self.max_time_step
        &&& -1 <= self.time_step_direction <= 1
        &&& self.active_timer == (self.time_step_direction != 0)
        &&& self.probes@.len() <= MAX_PROBES
    }

    /// Tests whether the state is well formed.
    pub fn is_well_formed(&self) -> (r: bool)
        ensures
            r == self.wf(),
    {
        self.time_step < self.max_time_step && -1 <= self.time_step_direction
            && self.time_step_direction <= 1 && self.active_timer == (self.time_step_direction
            != 0) && self.probes.len() <= MAX_PROBES
    }

    /// Everything but the buffers is the same in both states.
    pub open spec fn same_but_buffers(&self, other: &GridState) -> bool {
        &&& self.time_step == other.time_step
        &&& self.time_step_direction == other.time_step_direction
        &&& self.max_time_step == other.max_time_step
        &&& self.domain == other.domain
        &&& self.show_line_load == other.show_line_load
        &&& self.probes@ == other.probes@
        &&& self.active_timer == other.active_timer
    }

    /// Everything but the time step and the playback is the same in both
    /// states.
    pub open spec fn same_but_time(&self, other: &GridState) -> bool {
        &&& self.max_time_step == other.max_time_step
        &&& self.domain == other.domain
        &&& self.show_line_load == other.show_line_load
        &&& self.probes@ == other.probes@
        &&& self.same_buffers(other)
    }

    /// The six buffers are the same in both states.
    pub open spec fn same_buffers(&self, other: &GridState) -> bool {
        &&& self.hazard@ == other.hazard@
        &&& self.bus@ == other.bus@
        &&& self.line@ == other.line@
        &&& self.line_flow@ == other.line_flow@
        &&& self.transformer@ == other.transformer@
        &&& self.generator@ == other.generator@
    }

    /// Everything but the probes is the same in both states.
    pub open spec fn same_but_probes(&self, other: &GridState) -> bool {
        &&& self.time_step == other.time_step
        &&& self.time_step_direction == other.time_step_direction
        &&& self.max_time_step == other.max_time_step
        &&& self.domain == other.domain
        &&& self.show_line_load == other.show_line_load
        &&& self.active_timer == other.active_timer
        &&& self.same_buffers(other)
    }

    /// The state at start-up: the middle time step shown, playback stopped,
    /// heights by voltage, no probe, no timer, all buffers empty.
    pub fn new(system: &PowerSystem, domain: Domain) -> (r: GridState)
        requires
            system.wf(),
        ensures
            r.wf(),
            r.max_time_step == system.lines.len(),
            r.time_step == system.lines.len() / 2,
            r.time_step_direction == 0,
            r.domain == domain,
            !r.show_line_load,
            !r.active_timer,
            r.probes@.len() == 0,
            r.hazard@.len() == 0,
            r.bus@.len() == 0,
            r.line@.len() == 0,
            r.line_flow@.len() == 0,
            r.transformer@.len() == 0,
            r.generator@.len() == 0,
    {
        let ts_len = system.lines.len();
        GridState {
            time_step: ts_len / 2,
            time_step_direction: 0,
            max_time_step: ts_len,
            domain,
            show_line_load: false,
            probes: VecDeque::new(),
            active_timer: false,
            hazard: Vec::new(),
            bus: Vec::new(),
            line: Vec::new(),
            line_flow: Vec::new(),
            transformer: Vec::new(),
            generator: Vec::new(),
        }
    }

    /// Empties all six buffers: every recomputation starts with this, so
    /// that no buffer ever mixes two time steps.
    pub fn clear_buffers(&mut self)
        ensures
            final(self).same_but_buffers(old(self)),
            final(self).hazard@.len() == 0,
            final(self).bus@.len() == 0,
            final(self).line@.len() == 0,
            final(self).line_flow@.len() == 0,
            final(self).transformer@.len() == 0,
            final(self).generator@.len() == 0,
    {
        self.bus.clear();
        self.line.clear();
        self.line_flow.clear();
        self.hazard.clear();
        self.transformer.clear();
        self.generator.clear();
    }
}

} // verus!
