//! The watcher's polling state machine as a mathematical transition system,
//! together with the laws that the arbitration protocol obeys.
//!
//! One watcher owns a clock snapshot and one schedule entry, and shares an
//! advisory flag with its siblings: `true` means the playback device is
//! presumed busy, `false` that it may be used. A tick either probes the
//! device (flag set) or compares the snapshot against the entry (flag
//! clear), firing on an exact match and abandoning once the target time has
//! been overshot.

use vstd::prelude::*;

use crate::schedule::ClassView;
use crate::schedule::valid_entry;

verus! {

/// A watcher's cached reading of the wall clock, refreshed once per tick.
/// `weekday` uses the fixed mapping Monday = 0 .. Sunday = 6.
#[derive(Clone, Copy, PartialEq, Eq, Structural, Debug)]
pub struct TimeSnapshot {
    pub hour: u32,
    pub minute: u32,
    pub weekday: u32,
}

impl TimeSnapshot {
    /// A reading the real clock can produce: hour 0..=23, minute 0..=59,
    /// weekday 0..=6.
    pub open spec fn in_range(self) -> bool {
        self.hour <= 23 && self.minute <= 59 && self.weekday <= 6
    }
}

/// The watcher states: while running, the shared flag decides whether a
/// tick probes the device or checks the time; `Fired` and `Abandoned` are
/// terminal.
#[derive(Clone, Copy, PartialEq, Eq, Structural, Debug)]
pub enum Phase {
    PollingDevice,
    PollingTime,
    Fired,
    Abandoned,
}

impl Phase {
    pub open spec fn is_terminal(self) -> bool {
        self == Phase::Fired || self == Phase::Abandoned
    }
}

/// What a watcher asks of its driver after one tick: sleep and tick again,
/// play the notification sound now, or stop because a terminal state was
/// reached without playing.
#[derive(Clone, Copy, PartialEq, Eq, Structural, Debug)]
pub enum TickCommand {
    Continue,
    Play,
    Stop,
}

/// One scripted tick event: the clock reading for the tick and the result
/// a device probe would have, should the tick need one.
#[derive(Clone, Copy, Debug)]
pub struct ScriptTick {
    pub now: TimeSnapshot,
    pub probe_ok: bool,
}

/// The snapshot equals the entry's target exactly.
pub open spec fn snapshot_matches(now: TimeSnapshot, entry: ClassView) -> bool {
    now.hour == entry.hour && now.minute == entry.minute && now.weekday == entry.weekday
}

/// The same-tick overshoot test: the hour or the minute has gone past the
/// target. This is the watcher's give-up rule, not a full datetime
/// comparison.
pub open spec fn snapshot_overshoots(now: TimeSnapshot, entry: ClassView) -> bool {
    now.hour > entry.hour || now.minute > entry.minute
}

/// Ghost state of one watcher together with the shared arbiter flag:
/// its phase, the flag as the watcher left it, how many playback attempts
/// it has completed, and its last clock reading.
pub struct SimState {
    pub phase: Phase,
    pub flag: bool,
    pub plays: nat,
    pub snap: TimeSnapshot,
}

impl SimState {
    /// A watcher plays exactly when it fires, and never more than once.
    pub open spec fn wf(self) -> bool {
        self.plays <= 1 && ((self.phase == Phase::Fired) <==> (self.plays == 1))
    }
}

/// One tick of the state machine. A terminal watcher does nothing. A set
/// flag means the device is probed: on success the flag is cleared, on
/// failure it is left set. A clear flag means the time is checked: an exact
/// match plays and fires, an overshoot abandons, otherwise the watcher
/// keeps waiting. The flag is never turned back on.
pub open spec fn sim_tick(entry: ClassView, st: SimState, t: ScriptTick) -> SimState {
    if st.phase.is_terminal() {
        st
    } else if st.flag {
        SimState { phase: Phase::PollingDevice, flag: !t.probe_ok, plays: st.plays, snap: t.now }
    } else if snapshot_matches(t.now, entry) {
        SimState { phase: Phase::Fired, flag: false, plays: st.plays + 1, snap: t.now }
    } else if snapshot_overshoots(t.now, entry) {
        SimState { phase: Phase::Abandoned, flag: false, plays: st.plays, snap: t.now }
    } else {
        SimState { phase: Phase::PollingTime, flag: false, plays: st.plays, snap: t.now }
    }
}

/// A whole run: the ticks applied in order.
pub open spec fn sim_run(entry: ClassView, st: SimState, ticks: Seq<ScriptTick>) -> SimState
    decreases ticks.len(),
{
    if ticks.len() == 0 {
        st
    } else {
        sim_run(entry, sim_tick(entry, st, ticks[0]), ticks.drop_first())
    }
}

/// Only a well-formed entry can ever be matched by a reading the real
/// clock produces: a watcher for an entry outside the clock's ranges
/// never fires on one — it waits until the overshoot rule retires it.
pub proof fn lemma_only_valid_entries_fire(now: TimeSnapshot, entry: ClassView)
    requires
        now.in_range(),
        snapshot_matches(now, entry),
    ensures
        valid_entry(entry),
{
}

/// Running the ticks and then one more is the same as one tick after the
/// run: the fold can be unrolled from either end.
pub proof fn lemma_run_snoc(entry: ClassView, st: SimState, ticks: Seq<ScriptTick>, t: ScriptTick)
    ensures
        sim_run(entry, st, ticks.push(t)) == sim_tick(entry, sim_run(entry, st, ticks), t),
    decreases ticks.len(),
{
    if ticks.len() == 0 {
        assert(ticks.push(t)[0] == t);
        assert(ticks.push(t).drop_first() =~= Seq::<ScriptTick>::empty());
        assert(sim_run(entry, st, ticks.push(t)) == sim_run(
            entry,
            sim_tick(entry, st, t),
            ticks.push(t).drop_first(),
        ));
        assert(sim_run(entry, sim_tick(entry, st, t), Seq::<ScriptTick>::empty()) == sim_tick(
            entry,
            st,
            t,
        ));
    } else {
        assert(ticks.push(t)[0] == ticks[0]);
        assert(ticks.push(t).drop_first() =~= ticks.drop_first().push(t));
        assert(sim_run(entry, st, ticks.push(t)) == sim_run(
            entry,
            sim_tick(entry, st, ticks[0]),
            ticks.drop_first().push(t),
        ));
        lemma_run_snoc(entry, sim_tick(entry, st, ticks[0]), ticks.drop_first(), t);
    }
}

/// One tick preserves the playback invariant.
pub proof fn lemma_tick_preserves_wf(entry: ClassView, st: SimState, t: ScriptTick)
    requires
        st.wf(),
    ensures
        sim_tick(entry, st, t).wf(),
{
}

/// A terminal watcher is absorbing: no later tick changes anything.
pub proof fn lemma_run_from_terminal(entry: ClassView, st: SimState, ticks: Seq<ScriptTick>)
    requires
        st.phase.is_terminal(),
    ensures
        sim_run(entry, st, ticks) == st,
    decreases ticks.len(),
{
    if ticks.len() > 0 {
        lemma_run_from_terminal(entry, st, ticks.drop_first());
    }
}

/// A whole run preserves the playback invariant.
pub proof fn lemma_run_preserves_wf(entry: ClassView, st: SimState, ticks: Seq<ScriptTick>)
    requires
        st.wf(),
    ensures
        sim_run(entry, st, ticks).wf(),
    decreases ticks.len(),
{
    if ticks.len() > 0 {
        lemma_tick_preserves_wf(entry, st, ticks[0]);
        lemma_run_preserves_wf(entry, sim_tick(entry, st, ticks[0]), ticks.drop_first());
    }
}

/// The arbiter flag is one-way within a tick: it is set after the tick only
/// if it was set before, and — for a watcher that was still running — only
/// because the device probe failed. In particular a tick never turns a
/// cleared flag back on.
pub proof fn lemma_flag_one_way(entry: ClassView, st: SimState, t: ScriptTick)
    ensures
        sim_tick(entry, st, t).flag ==> st.flag,
        sim_tick(entry, st, t).flag && !st.phase.is_terminal() ==> !t.probe_ok,
{
}

/// Once the arbiter flag is cleared, no run of the watcher ever sets it
/// again.
pub proof fn lemma_flag_stays_cleared(entry: ClassView, st: SimState, ticks: Seq<ScriptTick>)
    requires
        !st.flag,
    ensures
        !sim_run(entry, st, ticks).flag,
    decreases ticks.len(),
{
    if ticks.len() > 0 {
        lemma_flag_one_way(entry, st, ticks[0]);
        lemma_flag_stays_cleared(entry, sim_tick(entry, st, ticks[0]), ticks.drop_first());
    }
}

/// A running watcher that reads its exact target time while the flag is
/// clear fires, completes exactly one playback attempt, and leaves the flag
/// cleared — and nothing in the rest of the run changes that.
pub proof fn lemma_match_fires_exactly_once(
    entry: ClassView,
    st: SimState,
    ticks: Seq<ScriptTick>,
)
    requires
        st.wf(),
        !st.phase.is_terminal(),
        !st.flag,
        ticks.len() > 0,
        snapshot_matches(ticks[0].now, entry),
    ensures
        sim_run(entry, st, ticks).phase == Phase::Fired,
        sim_run(entry, st, ticks).plays == 1,
        !sim_run(entry, st, ticks).flag,
{
    let fired = sim_tick(entry, st, ticks[0]);
    lemma_run_from_terminal(entry, fired, ticks.drop_first());
}

/// A watcher that never reads its target time never fires and never plays,
/// whatever the flag and the probes do.
pub proof fn lemma_no_match_never_fires(entry: ClassView, st: SimState, ticks: Seq<ScriptTick>)
    requires
        st.phase != Phase::Fired,
        forall|i: int|
            0 <= i < ticks.len() ==> !snapshot_matches((#[trigger] ticks[i]).now, entry),
    ensures
        sim_run(entry, st, ticks).phase != Phase::Fired,
        sim_run(entry, st, ticks).plays == st.plays,
    decreases ticks.len(),
{
    if ticks.len() > 0 {
        let next = sim_tick(entry, st, ticks[0]);
        assert(forall|i: int|
            0 <= i < ticks.drop_first().len() ==> !snapshot_matches(
                (#[trigger] ticks.drop_first()[i]).now,
                entry,
            ));
        lemma_no_match_never_fires(entry, next, ticks.drop_first());
    }
}

/// A running watcher whose flag is clear, whose readings never match the
/// target, and which at some tick sees the target overshot, abandons the
/// run without ever playing.
pub proof fn lemma_overshoot_abandons(entry: ClassView, st: SimState, ticks: Seq<ScriptTick>)
    requires
        !st.phase.is_terminal(),
        !st.flag,
        forall|i: int|
            0 <= i < ticks.len() ==> !snapshot_matches((#[trigger] ticks[i]).now, entry),
        exists|j: int|
            0 <= j < ticks.len() && snapshot_overshoots((#[trigger] ticks[j]).now, entry),
    ensures
        sim_run(entry, st, ticks).phase == Phase::Abandoned,
        sim_run(entry, st, ticks).plays == st.plays,
    decreases ticks.len(),
{
    let next = sim_tick(entry, st, ticks[0]);
    if snapshot_overshoots(ticks[0].now, entry) {
        lemma_run_from_terminal(entry, next, ticks.drop_first());
    } else {
        let j = choose|j: int|
            0 <= j < ticks.len() && snapshot_overshoots((#[trigger] ticks[j]).now, entry);
        assert(snapshot_overshoots(ticks.drop_first()[j - 1].now, entry));
        assert(forall|i: int|
            0 <= i < ticks.drop_first().len() ==> !snapshot_matches(
                (#[trigger] ticks.drop_first()[i]).now,
                entry,
            ));
        lemma_overshoot_abandons(entry, next, ticks.drop_first());
    }
}

} // verus!
