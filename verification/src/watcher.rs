//! The watcher: one polling loop body per schedule entry. It owns a copy
//! of its entry, a clock snapshot, the path of the notification sound, and
//! shares the advisory arbiter flag with its siblings through `&mut bool`
//! at each call.
//!
//! The caller drives the loop: it sleeps between ticks, probes the audio
//! device when asked to, performs the blocking playback when a tick
//! commands `Play`, and reports its completion with `finish_playback`.
//! Every decision in between is made — and verified — here, as one step of
//! the transition system in `machine`.

use vstd::prelude::*;

use crate::machine::Phase;
use crate::machine::ScriptTick;
use crate::machine::SimState;
use crate::machine::TickCommand;
use crate::machine::TimeSnapshot;
use crate::machine::lemma_run_snoc;
use crate::machine::sim_run;
use crate::machine::sim_tick;
use crate::machine::snapshot_matches;
use crate::machine::snapshot_overshoots;
use crate::platform::read_clock;
use crate::schedule::Class;
use crate::schedule::ClassView;

verus! {

/// One watcher: the per-entry alarm loop state.
pub struct LocalClock {
    local_hour: u32,
    local_minute: u32,
    local_weekday: u32,
    sing_path: String,
    class: Class,
    phase: Phase,
    plays: u32,
}

impl LocalClock {
    /// The last clock reading this watcher cached.
    pub closed spec fn snapshot(&self) -> TimeSnapshot {
        TimeSnapshot { hour: self.local_hour, minute: self.local_minute, weekday: self.local_weekday }
    }

    /// The schedule entry this watcher waits for.
    pub closed spec fn entry(&self) -> ClassView {
        self.class@
    }

    /// The path of the notification sound.
    pub closed spec fn sound_path(&self) -> Seq<char> {
        self.sing_path@
    }

    /// The watcher's current state.
    pub closed spec fn phase(&self) -> Phase {
        self.phase
    }

    /// How many playback attempts this watcher has completed.
    pub closed spec fn plays(&self) -> u32 {
        self.plays
    }

    /// A watcher plays exactly when it has fired, and never more than once.
    pub open spec fn wf(&self) -> bool {
        self.plays() <= 1 && ((self.phase() == Phase::Fired) <==> (self.plays() == 1))
    }

    /// This watcher and the shared flag, as one state of the transition
    /// system.
    pub open spec fn sim(&self, flag: bool) -> SimState {
        SimState {
            phase: self.phase(),
            flag: flag,
            plays: self.plays() as nat,
            snap: self.snapshot(),
        }
    }

    /// A fresh watcher: snapshot taken from the wall clock, an empty entry,
    /// and — since the device must be presumed busy until probed — the
    /// device-polling state.
    pub fn new(sing_path: String) -> (r: Self)
        ensures
            r.wf(),
            r.phase() == Phase::PollingDevice,
            r.plays() == 0,
            r.sound_path() == sing_path@,
            r.entry().name.len() == 0,
            r.entry().teacher.len() == 0,
            r.entry().hour == 0,
            r.entry().minute == 0,
            r.entry().weekday == 0,
            r.snapshot().in_range(),
    {
        let now = read_clock();
        LocalClock {
            local_hour: now.hour,
            local_minute: now.minute,
            local_weekday: now.weekday,
            sing_path,
            class: Class::new(),
            phase: Phase::PollingDevice,
            plays: 0,
        }
    }

    /// Gives the watcher the entry it is to watch.
    pub fn add_local_clock(&mut self, class: Class)
        ensures
            final(self).entry() == class@,
            final(self).snapshot() == old(self).snapshot(),
            final(self).sound_path() == old(self).sound_path(),
            final(self).phase() == old(self).phase(),
            final(self).plays() == old(self).plays(),
    {
        self.class = class;
    }

    /// Refreshes the snapshot from the wall clock; nothing else moves.
    pub fn update(&mut self)
        ensures
            final(self).snapshot().in_range(),
            final(self).entry() == old(self).entry(),
            final(self).sound_path() == old(self).sound_path(),
            final(self).phase() == old(self).phase(),
            final(self).plays() == old(self).plays(),
    {
        let now = read_clock();
        self.local_hour = now.hour;
        self.local_minute = now.minute;
        self.local_weekday = now.weekday;
    }

    pub fn current_phase(&self) -> (p: Phase)
        ensures
            p == self.phase(),
    {
        self.phase
    }

    pub fn play_count(&self) -> (n: u32)
        ensures
            n == self.plays(),
    {
        self.plays
    }

    pub fn current_snapshot(&self) -> (s: TimeSnapshot)
        ensures
            s == self.snapshot(),
    {
        TimeSnapshot { hour: self.local_hour, minute: self.local_minute, weekday: self.local_weekday }
    }

    pub fn get_class(&self) -> (c: &Class)
        ensures
            c@ == self.entry(),
    {
        &self.class
    }

    pub fn get_sing_path(&self) -> (r: &str)
        ensures
            r@ == self.sound_path(),
    {
        &self.sing_path
    }

    /// The watcher has reached `Fired` or `Abandoned`.
    pub fn is_done(&self) -> (b: bool)
        ensures
            b == self.phase().is_terminal(),
    {
        self.phase == Phase::Fired || self.phase == Phase::Abandoned
    }

    /// The cached snapshot equals the entry's target exactly.
    pub fn matches_now(&self) -> (b: bool)
        ensures
            b == snapshot_matches(self.snapshot(), self.entry()),
    {
        self.local_hour == self.class.hour() && self.local_minute == self.class.minute()
            && self.local_weekday == self.class.weekday()
    }

    /// One tick of the state machine, on a given clock reading and a given
    /// probe result. The caller must hold the arbiter lock for the
    /// duration of this call and no longer.
    ///
    /// With the flag set, the probe result decides whether the flag is
    /// cleared; the watcher keeps polling the device. With the flag clear,
    /// an exact match commands `Play` — the caller then plays the sound
    /// and reports back through `finish_playback` —, an overshoot abandons,
    /// and otherwise the watcher waits. A cleared flag is never set again.
    pub fn step(&mut self, flag: &mut bool, now: TimeSnapshot, probe_ok: bool) -> (cmd:
        TickCommand)
        requires
            old(self).wf(),
            !old(self).phase().is_terminal(),
        ensures
            final(self).wf(),
            final(self).entry() == old(self).entry(),
            final(self).sound_path() == old(self).sound_path(),
            final(self).plays() == old(self).plays(),
            final(self).snapshot() == now,
            !*old(flag) ==> !*final(flag),
            (cmd == TickCommand::Play) <==> (!*old(flag) && snapshot_matches(now, old(self).entry())),
            cmd == TickCommand::Play ==> final(self).phase() == Phase::PollingTime && *final(flag)
                == *old(flag),
            cmd != TickCommand::Play ==> final(self).sim(*final(flag)) == sim_tick(
                old(self).entry(),
                old(self).sim(*old(flag)),
                (ScriptTick { now, probe_ok }),
            ),
            (cmd == TickCommand::Stop) <==> (!*old(flag) && !snapshot_matches(
                now,
                old(self).entry(),
            ) && snapshot_overshoots(now, old(self).entry())),
            cmd == TickCommand::Stop ==> final(self).phase() == Phase::Abandoned,
            cmd == TickCommand::Continue ==> !final(self).phase().is_terminal(),
            *old(flag) ==> cmd == TickCommand::Continue && final(self).phase()
                == Phase::PollingDevice && *final(flag) == !probe_ok,
    {
        self.local_hour = now.hour;
        self.local_minute = now.minute;
        self.local_weekday = now.weekday;
        if *flag {
            self.phase = Phase::PollingDevice;
            if probe_ok {
                *flag = false;
            }
            TickCommand::Continue
        } else if self.matches_now() {
            self.phase = Phase::PollingTime;
            TickCommand::Play
        } else if self.local_hour > self.class.hour() || self.local_minute > self.class.minute() {
            self.phase = Phase::Abandoned;
            TickCommand::Stop
        } else {
            self.phase = Phase::PollingTime;
            TickCommand::Continue
        }
    }

    /// One tick against the real clock: refreshes the snapshot and steps
    /// the state machine on it. `probe_ok` is the result of the device
    /// probe the caller made — under the arbiter lock — when it found the
    /// flag set; it is ignored otherwise. Whatever instant the clock
    /// reports, the tick preserves the playback invariant, never turns a
    /// cleared flag back on, and commands `Play` exactly on a reading that
    /// matches the entry while the flag is clear.
    pub fn tick(&mut self, flag: &mut bool, probe_ok: bool) -> (cmd: TickCommand)
        requires
            old(self).wf(),
            !old(self).phase().is_terminal(),
        ensures
            final(self).wf(),
            final(self).entry() == old(self).entry(),
            final(self).sound_path() == old(self).sound_path(),
            final(self).plays() == old(self).plays(),
            final(self).snapshot().in_range(),
            !*old(flag) ==> !*final(flag),
            (cmd == TickCommand::Play) <==> (!*old(flag) && snapshot_matches(
                final(self).snapshot(),
                old(self).entry(),
            )),
            cmd == TickCommand::Play ==> final(self).phase() == Phase::PollingTime && *final(flag)
                == *old(flag),
            cmd == TickCommand::Stop ==> final(self).phase() == Phase::Abandoned && !*final(flag)
                && snapshot_overshoots(final(self).snapshot(), old(self).entry()),
            cmd == TickCommand::Continue ==> !final(self).phase().is_terminal(),
            *old(flag) ==> cmd == TickCommand::Continue && final(self).phase()
                == Phase::PollingDevice && *final(flag) == !probe_ok,
    {
        let now = read_clock();
        self.step(flag, now, probe_ok)
    }

    /// The caller reports that the playback attempt it was commanded to
    /// make has completed (however it went): the watcher fires, counts its
    /// one playback, and clears the arbiter flag.
    pub fn finish_playback(&mut self, flag: &mut bool)
        requires
            old(self).wf(),
            !old(self).phase().is_terminal(),
            snapshot_matches(old(self).snapshot(), old(self).entry()),
        ensures
            final(self).wf(),
            final(self).entry() == old(self).entry(),
            final(self).sound_path() == old(self).sound_path(),
            final(self).snapshot() == old(self).snapshot(),
            final(self).phase() == Phase::Fired,
            final(self).plays() == old(self).plays() + 1,
            !*final(flag),
    {
        self.phase = Phase::Fired;
        self.plays = self.plays + 1;
        *flag = false;
    }

    /// Runs the watcher over a script of tick events, playing instantly
    /// (an already-terminal watcher ignores the script). The result is
    /// exactly the transition system's run over the same events — every
    /// law proved of `sim_run` holds of this loop.
    pub fn run_script(&mut self, flag: &mut bool, ticks: &Vec<ScriptTick>) -> (outcome: Phase)
        requires
            old(self).wf(),
        ensures
            final(self).wf(),
            final(self).entry() == old(self).entry(),
            final(self).sound_path() == old(self).sound_path(),
            final(self).sim(*final(flag)) == sim_run(
                old(self).entry(),
                old(self).sim(*old(flag)),
                ticks@,
            ),
            outcome == final(self).phase(),
    {
        let ghost entry = self.entry();
        let ghost path = self.sound_path();
        let ghost start = self.sim(*flag);
        let mut f: bool = *flag;
        let n = ticks.len();
        let mut i: usize = 0;
        proof {
            assert(ticks@.take(0) =~= Seq::<ScriptTick>::empty());
        }
        while i < n
            invariant
                i <= n,
                n == ticks@.len(),
                self.wf(),
                self.entry() == entry,
                self.sound_path() == path,
                self.sim(f) == sim_run(entry, start, ticks@.take(i as int)),
            decreases n - i,
        {
            let ghost pre = self.sim(f);
            let t = ticks[i];
            if !self.is_done() {
                let cmd = self.step(&mut f, t.now, t.probe_ok);
                if cmd == TickCommand::Play {
                    self.finish_playback(&mut f);
                }
            }
            proof {
                assert(self.sim(f) == sim_tick(entry, pre, ticks@[i as int]));
                lemma_run_snoc(entry, start, ticks@.take(i as int), ticks@[i as int]);
                assert(ticks@.take(i as int + 1) =~= ticks@.take(i as int).push(
                    ticks@[i as int],
                ));
            }
            i += 1;
        }
        proof {
            assert(ticks@.take(n as int) =~= ticks@);
        }
        *flag = f;
        self.current_phase()
    }
}

} // verus!
