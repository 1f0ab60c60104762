//! Event-layer decisions of the interrupt handlers.
//!
//! The real device drives the manager from five sources: a 10 ms timer
//! sampling motor current, the cook-button edge, the lid edge, a 100 ms
//! orchestration timer, and a 10 s duty timer. Every decision those handlers
//! make lives here; what stays outside is only the act of sampling, the
//! mutual exclusion, and the deferred timers. Both switch edges are debounced
//! in software: the first edge sets a flag and acts, edges arriving while the
//! flag is set are ignored, and the caller schedules a deferred clear —
//! 300 ms for the button, 100 ms for the lid — signalled by the `bool` the
//! edge methods return.

use vstd::prelude::*;

use crate::current_sensor::CURRENT_LIMIT_UV;
use crate::encoder::DialSample;
use crate::manager::StateManager;
use crate::temp_sensor::ProbeReading;

verus! {

/// The shared state of the interrupt layer: the manager aggregate and the two
/// debounce flags. The real device guards it with priority-ceiling locking;
/// whatever drives these methods must keep at most one in-flight mutation
/// at a time.
pub struct Controller {
    pub manager: StateManager,
    pub cook_btn_debounce: bool,
    pub lid_debounce: bool,
}

impl Controller {
    pub open spec fn wf(self) -> bool {
        self.manager.wf()
    }

    /// What one cook-button edge does: within the debounce window nothing at
    /// all; otherwise the window opens, the button is dispatched once, and a
    /// deferred clear is requested.
    pub open spec fn cook_edge_relation(pre: Controller, post: Controller, scheduled: bool) -> bool {
        if pre.cook_btn_debounce {
            post == pre && !scheduled
        } else {
            &&& scheduled
            &&& post.cook_btn_debounce
            &&& post.lid_debounce == pre.lid_debounce
            &&& StateManager::cook_btn_relation(pre.manager, post.manager)
        }
    }

    /// What one lid edge does: within the debounce window nothing at all;
    /// otherwise the window opens, one orchestration tick runs with the lid
    /// reported open, and a deferred clear is requested.
    pub open spec fn lid_edge_relation(
        pre: Controller,
        post: Controller,
        scheduled: bool,
        probe: Option<ProbeReading>,
        temp_dial: DialSample,
        time_dial: DialSample,
    ) -> bool {
        if pre.lid_debounce {
            post == pre && !scheduled
        } else {
            &&& scheduled
            &&& post.lid_debounce
            &&& post.cook_btn_debounce == pre.cook_btn_debounce
            &&& StateManager::tick_relation(pre.manager, post.manager, false, probe, temp_dial, time_dial)
        }
    }

    /// A controller with both debounce windows closed.
    pub fn new(manager: StateManager) -> (r: Controller)
        requires
            manager.wf(),
        ensures
            r.wf(),
            r.manager == manager,
            !r.cook_btn_debounce,
            !r.lid_debounce,
    {
        Controller { manager, cook_btn_debounce: false, lid_debounce: false }
    }

    /// The 10 ms timer: one motor-current sample enters the reader.
    pub fn on_current_timer(&mut self, volts: i32)
        requires
            old(self).wf(),
            0 <= volts <= CURRENT_LIMIT_UV,
        ensures
            final(self).wf(),
            final(self).cook_btn_debounce == old(self).cook_btn_debounce,
            final(self).lid_debounce == old(self).lid_debounce,
            final(self).manager.current_sensor.window() == crate::current_sensor::blended_window(
                old(self).manager.current_sensor.window(), volts),
            final(self).manager.state == old(self).manager.state,
            final(self).manager.time == old(self).manager.time,
            final(self).manager.temp_requested == old(self).manager.temp_requested,
            final(self).manager.temp_actual == old(self).manager.temp_actual,
    {
        self.manager.adc_poll(volts);
    }

    /// A cook-button edge. The first edge of a burst sets the debounce flag,
    /// dispatches the button to the oven state, and asks the caller (by
    /// returning `true`) to schedule the deferred 300 ms clear; every further
    /// edge within the window changes nothing at all.
    pub fn on_cook_btn_edge(&mut self) -> (schedule_clear: bool)
        requires
            old(self).wf(),
        ensures
            final(self).wf(),
            Controller::cook_edge_relation(*old(self), *final(self), schedule_clear),
    {
        if !self.cook_btn_debounce {
            self.cook_btn_debounce = true;
            self.manager.on_cook_btn();
            true
        } else {
            false
        }
    }

    /// The deferred clear of the cook-button debounce window.
    pub fn on_cook_btn_debounce_elapsed(&mut self)
        requires
            old(self).wf(),
        ensures
            final(self).wf(),
            !final(self).cook_btn_debounce,
            final(self).lid_debounce == old(self).lid_debounce,
            final(self).manager == old(self).manager,
    {
        self.cook_btn_debounce = false;
    }

    /// A lid edge: the lid has just opened. The first edge of a burst sets
    /// the debounce flag, runs the full orchestration tick at once — so the
    /// open lid is reflected without waiting for the next 100 ms poll — with
    /// the lid reported open, and asks the caller to schedule the deferred
    /// 100 ms clear; every further edge within the window changes nothing.
    pub fn on_lid_edge(
        &mut self,
        probe: Option<ProbeReading>,
        temp_dial: DialSample,
        time_dial: DialSample,
    ) -> (schedule_clear: bool)
        requires
            old(self).wf(),
            probe is Some ==> probe->0.wf(),
            temp_dial.wf(),
            time_dial.wf(),
        ensures
            final(self).wf(),
            Controller::lid_edge_relation(
                *old(self), *final(self), schedule_clear, probe, temp_dial, time_dial),
    {
        if !self.lid_debounce {
            self.lid_debounce = true;
            self.manager.enc_poll(false, probe, temp_dial, time_dial);
            true
        } else {
            false
        }
    }

    /// The deferred clear of the lid debounce window.
    pub fn on_lid_debounce_elapsed(&mut self)
        requires
            old(self).wf(),
        ensures
            final(self).wf(),
            !final(self).lid_debounce,
            final(self).cook_btn_debounce == old(self).cook_btn_debounce,
            final(self).manager == old(self).manager,
    {
        self.lid_debounce = false;
    }

    /// The 100 ms timer: one full orchestration tick, fed the instantaneous
    /// lid level (not the debounce flag) and the raw samples.
    pub fn on_state_timer(
        &mut self,
        lid: bool,
        probe: Option<ProbeReading>,
        temp_dial: DialSample,
        time_dial: DialSample,
    )
        requires
            old(self).wf(),
            probe is Some ==> probe->0.wf(),
            temp_dial.wf(),
            time_dial.wf(),
        ensures
            final(self).wf(),
            final(self).cook_btn_debounce == old(self).cook_btn_debounce,
            final(self).lid_debounce == old(self).lid_debounce,
            StateManager::tick_relation(
                old(self).manager, final(self).manager, lid, probe, temp_dial, time_dial),
    {
        self.manager.enc_poll(lid, probe, temp_dial, time_dial);
    }

    /// The 10 s timer: one duty computation from the controller's rounded
    /// output.
    pub fn on_pid_timer(&mut self, control: i32)
        requires
            old(self).wf(),
            control <= u8::MAX,
        ensures
            final(self).wf(),
            final(self).cook_btn_debounce == old(self).cook_btn_debounce,
            final(self).lid_debounce == old(self).lid_debounce,
            StateManager::pid_relation(old(self).manager, final(self).manager, control),
    {
        self.manager.pid_poll(control);
    }
}

/// Every controller after the first edge of the burst carries the same state
/// as the one right after that first edge.
proof fn lemma_burst_tail(cs: Seq<Controller>, scheds: Seq<bool>, i: int)
    requires
        cs.len() >= 2,
        scheds.len() >= cs.len() - 1,
        !cs[0].cook_btn_debounce,
        forall|j: int| 0 <= j < cs.len() - 1
            ==> Controller::cook_edge_relation(#[trigger] cs[j], cs[j + 1], scheds[j]),
        1 <= i < cs.len(),
    ensures
        cs[i] == cs[1],
    decreases i,
{
    assert(Controller::cook_edge_relation(cs[0], cs[1], scheds[0]));
    if i > 1 {
        lemma_burst_tail(cs, scheds, i - 1);
        assert(Controller::cook_edge_relation(cs[i - 1], cs[i], scheds[i - 1]));
    }
}

/// Law: a burst of cook-button edges within the debounce window yields
/// exactly one state transition. `cs` is the run of controller states the
/// burst produces, each edge relating one to the next, starting with the
/// window closed: the first edge dispatches the button once, and every
/// controller after it is identical to the one the first edge left.
pub proof fn lemma_debounce_burst(cs: Seq<Controller>, scheds: Seq<bool>)
    requires
        cs.len() >= 2,
        scheds.len() >= cs.len() - 1,
        !cs[0].cook_btn_debounce,
        forall|j: int| 0 <= j < cs.len() - 1
            ==> Controller::cook_edge_relation(#[trigger] cs[j], cs[j + 1], scheds[j]),
    ensures
        StateManager::cook_btn_relation(cs[0].manager, cs[1].manager),
        forall|i: int| 1 <= i < cs.len() ==> #[trigger] cs[i] == cs[1],
{
    assert(Controller::cook_edge_relation(cs[0], cs[1], scheds[0]));
    assert forall|i: int| 1 <= i < cs.len() implies #[trigger] cs[i] == cs[1] by {
        lemma_burst_tail(cs, scheds, i);
    }
}

/// Law: a burst of lid edges within the debounce window runs the
/// orchestration tick exactly once: the second edge of the burst leaves the
/// controller exactly as the first left it.
pub proof fn lemma_lid_debounce_burst(
    c0: Controller,
    c1: Controller,
    c2: Controller,
    s1: bool,
    s2: bool,
    probe1: Option<ProbeReading>,
    probe2: Option<ProbeReading>,
    td1: DialSample,
    td2: DialSample,
    tl1: DialSample,
    tl2: DialSample,
)
    requires
        !c0.lid_debounce,
        Controller::lid_edge_relation(c0, c1, s1, probe1, td1, tl1),
        Controller::lid_edge_relation(c1, c2, s2, probe2, td2, tl2),
    ensures
        StateManager::tick_relation(c0.manager, c1.manager, false, probe1, td1, tl1),
        c2 == c1,
        !s2,
{
}

} // verus!
