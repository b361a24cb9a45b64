//! The dispatcher: builds one watcher per schedule entry, every one wired
//! to the same notification sound and — when run — to the same arbiter
//! flag, and drives them all to rest.

use vstd::prelude::*;

use crate::machine::Phase;
use crate::machine::ScriptTick;
use crate::machine::sim_run;
use crate::machine::snapshot_matches;
use crate::schedule::ClassTable;
use crate::schedule::ClassView;
use crate::watcher::LocalClock;

verus! {

/// The schedule together with the watchers built from it.
pub struct LocalClockTable {
    local_clock_table: Vec<LocalClock>,
    class_table: ClassTable,
}

impl LocalClockTable {
    /// The watchers built so far.
    pub closed spec fn clocks(&self) -> Seq<LocalClock> {
        self.local_clock_table@
    }

    /// The schedule the watchers are built from.
    pub closed spec fn classes(&self) -> Seq<ClassView> {
        self.class_table@
    }

    /// Every watcher keeps the playback invariant.
    pub open spec fn wf(&self) -> bool {
        forall|i: int| 0 <= i < self.clocks().len() ==> (#[trigger] self.clocks()[i]).wf()
    }

    /// Takes the schedule; no watchers yet.
    pub fn new(class_table: ClassTable) -> (r: Self)
        ensures
            r.clocks().len() == 0,
            r.classes() == class_table@,
            r.wf(),
    {
        LocalClockTable { local_clock_table: Vec::new(), class_table }
    }

    /// Builds one watcher per schedule entry — as many alarms as there are
    /// classes — each given a copy of its entry and the same sound path,
    /// and appends them in schedule order.
    pub fn add_local_clocks(&mut self, sing_path: String)
        ensures
            final(self).classes() == old(self).classes(),
            final(self).clocks().len() == old(self).clocks().len() + old(self).classes().len(),
            forall|j: int|
                0 <= j < old(self).clocks().len() ==> final(self).clocks()[j] == old(
                    self,
                ).clocks()[j],
            forall|j: int|
                old(self).clocks().len() <= j < final(self).clocks().len() ==> {
                    let w = #[trigger] final(self).clocks()[j];
                    &&& w.wf()
                    &&& w.phase() == Phase::PollingDevice
                    &&& w.plays() == 0
                    &&& w.entry() == old(self).classes()[j - old(self).clocks().len()]
                    &&& w.sound_path() == sing_path@
                    &&& w.snapshot().in_range()
                },
            old(self).wf() ==> final(self).wf(),
    {
        let ghost orig_clocks = self.clocks();
        let ghost cls = self.classes();
        let n = self.class_table.len();
        let mut i: usize = 0;
        while i < n
            invariant
                i <= n,
                n == cls.len(),
                self.classes() == cls,
                self.clocks().len() == orig_clocks.len() + i,
                forall|j: int| 0 <= j < orig_clocks.len() ==> self.clocks()[j] == orig_clocks[j],
                forall|j: int|
                    orig_clocks.len() <= j < self.clocks().len() ==> {
                        let w = #[trigger] self.clocks()[j];
                        &&& w.wf()
                        &&& w.phase() == Phase::PollingDevice
                        &&& w.plays() == 0
                        &&& w.entry() == cls[j - orig_clocks.len()]
                        &&& w.sound_path() == sing_path@
                        &&& w.snapshot().in_range()
                    },
            decreases n - i,
        {
            let class = self.class_table.get_class_list()[i].clone();
            let mut local_clock = LocalClock::new(sing_path.clone());
            local_clock.add_local_clock(class);
            self.local_clock_table.push(local_clock);
            i += 1;
        }
        proof {
            if old(self).wf() {
                assert forall|j: int| 0 <= j < self.clocks().len() implies (#[trigger] self.clocks()[j]).wf() by {
                    if j < orig_clocks.len() {
                        assert(old(self).clocks()[j].wf());
                    }
                }
            }
        }
    }

    /// Hands the watchers over to whatever runs them.
    pub fn into_clocks(self) -> (v: Vec<LocalClock>)
        ensures
            v@ == self.clocks(),
    {
        self.local_clock_table
    }
}

/// Runs a table's watchers, one scripted run per watcher, in order.
pub struct LocalClockRun {}

impl LocalClockRun {
    /// Drives every watcher over its own script of tick events, sharing
    /// one arbiter flag, and collects one terminal-or-not outcome per
    /// watcher: as many outcomes as entries, none lost and none invented.
    ///
    /// A flag that starts cleared stays cleared, so in that case each
    /// watcher's outcome is exactly the transition system's run of its own
    /// script — independent of its siblings; and a watcher whose script
    /// never shows its target time never fires, whatever the flag did.
    pub fn run_scripts(
        table: LocalClockTable,
        flag: &mut bool,
        scripts: &Vec<Vec<ScriptTick>>,
    ) -> (outcomes: Vec<Phase>)
        requires
            table.wf(),
            scripts@.len() == table.clocks().len(),
        ensures
            outcomes@.len() == table.clocks().len(),
            !*old(flag) ==> !*final(flag),
            !*old(flag) ==> forall|i: int|
                0 <= i < outcomes@.len() ==> outcomes@[i] == sim_run(
                    table.clocks()[i].entry(),
                    (#[trigger] table.clocks()[i]).sim(false),
                    scripts@[i]@,
                ).phase,
            forall|i: int|
                0 <= i < outcomes@.len() ==> ((table.clocks()[i].phase() != Phase::Fired
                    && (forall|k: int|
                    0 <= k < scripts@[i]@.len() ==> !snapshot_matches(
                        (#[trigger] scripts@[i]@[k]).now,
                        table.clocks()[i].entry(),
                    ))) ==> (#[trigger] outcomes@[i]) != Phase::Fired),
    {
        let ghost orig = table.clocks();
        let ghost start_flag = *flag;
        let mut clocks = table.into_clocks();
        let mut outcomes: Vec<Phase> = Vec::new();
        let mut f: bool = *flag;
        let n = clocks.len();
        let mut i: usize = 0;
        proof {
            assert(orig.skip(0) =~= orig);
        }
        while i < n
            invariant
                i <= n,
                n == orig.len(),
                scripts@.len() == orig.len(),
                clocks@ == orig.skip(i as int),
                outcomes@.len() == i,
                forall|j: int| 0 <= j < clocks@.len() ==> (#[trigger] clocks@[j]).wf(),
                !start_flag ==> !f,
                !start_flag ==> forall|j: int|
                    0 <= j < i ==> outcomes@[j] == sim_run(
                        orig[j].entry(),
                        (#[trigger] orig[j]).sim(false),
                        scripts@[j]@,
                    ).phase,
                forall|j: int|
                    0 <= j < i ==> ((orig[j].phase() != Phase::Fired && (forall|k: int|
                        0 <= k < scripts@[j]@.len() ==> !snapshot_matches(
                            (#[trigger] scripts@[j]@[k]).now,
                            orig[j].entry(),
                        ))) ==> (#[trigger] outcomes@[j]) != Phase::Fired),
            decreases n - i,
        {
            proof {
                assert(orig.skip(i as int)[0] == orig[i as int]);
                assert(clocks@[0] == orig[i as int]);
            }
            let mut clock = clocks.remove(0);
            proof {
                assert(orig.skip(i as int).remove(0) =~= orig.skip(i as int + 1));
            }
            let ghost w0 = clock;
            let ghost f0 = f;
            let outcome = clock.run_script(&mut f, &scripts[i]);
            proof {
                if !start_flag {
                    crate::machine::lemma_flag_stays_cleared(
                        w0.entry(),
                        w0.sim(false),
                        scripts@[i as int]@,
                    );
                }
                if w0.phase() != Phase::Fired && (forall|k: int|
                    0 <= k < scripts@[i as int]@.len() ==> !snapshot_matches(
                        (#[trigger] scripts@[i as int]@[k]).now,
                        w0.entry(),
                    )) {
                    crate::machine::lemma_no_match_never_fires(
                        w0.entry(),
                        w0.sim(f0),
                        scripts@[i as int]@,
                    );
                }
            }
            outcomes.push(outcome);
            i += 1;
        }
        *flag = f;
        outcomes
    }
}

} // verus!
