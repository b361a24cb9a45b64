use alarm_clock::Class;
use alarm_clock::LocalClock;
use alarm_clock::Phase;
use alarm_clock::ScriptTick;
use alarm_clock::TickCommand;
use alarm_clock::TimeSnapshot;

fn watcher_for(hour: u32, minute: u32, weekday: u32) -> LocalClock {
    let mut w = LocalClock::new(String::from("ring.mp3"));
    w.add_local_clock(Class::new_from(String::from("math"), String::from("li"), hour, minute, weekday));
    w
}

#[test]
fn fires_on_monday_half_past_eight() {
    // Entry Monday (0) 08:30, clock reads Monday 08:30: the watcher fires,
    // plays once, and the flag ends cleared.
    let mut w = watcher_for(8, 30, 0);
    let mut flag = false;
    let cmd = w.step(&mut flag, TimeSnapshot { hour: 8, minute: 30, weekday: 0 }, false);
    assert_eq!(cmd, TickCommand::Play);
    w.finish_playback(&mut flag);
    assert_eq!(w.current_phase(), Phase::Fired);
    assert_eq!(w.play_count(), 1);
    assert!(!flag);
}

#[test]
fn abandons_on_wednesday_five_past_nine() {
    // Entry Wednesday (2) 09:00, clock reads Wednesday 09:05: minute
    // overshoot, the watcher abandons without playing.
    let mut w = watcher_for(9, 0, 2);
    let mut flag = false;
    let cmd = w.step(&mut flag, TimeSnapshot { hour: 9, minute: 5, weekday: 2 }, false);
    assert_eq!(cmd, TickCommand::Stop);
    assert_eq!(w.current_phase(), Phase::Abandoned);
    assert_eq!(w.play_count(), 0);
    assert!(!flag);
}

#[test]
fn failed_probe_leaves_flag_set() {
    let mut w = watcher_for(8, 30, 0);
    let mut flag = true;
    let cmd = w.step(&mut flag, TimeSnapshot { hour: 8, minute: 30, weekday: 0 }, false);
    assert_eq!(cmd, TickCommand::Continue);
    assert!(flag);
    assert_eq!(w.current_phase(), Phase::PollingDevice);
    assert_eq!(w.play_count(), 0);
}

#[test]
fn successful_probe_clears_flag() {
    let mut w = watcher_for(8, 30, 0);
    let mut flag = true;
    let cmd = w.step(&mut flag, TimeSnapshot { hour: 8, minute: 29, weekday: 0 }, true);
    assert_eq!(cmd, TickCommand::Continue);
    assert!(!flag);
    assert_eq!(w.current_phase(), Phase::PollingDevice);
}

#[test]
fn completed_playback_clears_flag() {
    let mut w = watcher_for(8, 30, 0);
    let mut flag = false;
    let cmd = w.step(&mut flag, TimeSnapshot { hour: 8, minute: 30, weekday: 0 }, false);
    assert_eq!(cmd, TickCommand::Play);
    // However the flag stood when the playback attempt finished, the
    // watcher clears it.
    let mut late_flag = true;
    w.finish_playback(&mut late_flag);
    assert!(!late_flag);
    assert_eq!(w.current_phase(), Phase::Fired);
}

#[test]
fn waits_while_target_is_ahead() {
    let mut w = watcher_for(8, 30, 0);
    let mut flag = false;
    let cmd = w.step(&mut flag, TimeSnapshot { hour: 8, minute: 29, weekday: 0 }, false);
    assert_eq!(cmd, TickCommand::Continue);
    assert_eq!(w.current_phase(), Phase::PollingTime);
    assert_eq!(w.play_count(), 0);
    assert!(!flag);
}

#[test]
fn scripted_run_fires_after_waiting() {
    let mut w = watcher_for(8, 30, 0);
    let mut flag = false;
    let ticks = vec![
        ScriptTick { now: TimeSnapshot { hour: 8, minute: 28, weekday: 0 }, probe_ok: false },
        ScriptTick { now: TimeSnapshot { hour: 8, minute: 29, weekday: 0 }, probe_ok: false },
        ScriptTick { now: TimeSnapshot { hour: 8, minute: 30, weekday: 0 }, probe_ok: false },
    ];
    let outcome = w.run_script(&mut flag, &ticks);
    assert_eq!(outcome, Phase::Fired);
    assert_eq!(w.play_count(), 1);
    assert!(!flag);
}

#[test]
fn scripted_run_probes_device_first() {
    // The flag starts set: the first ticks only probe; once a probe
    // succeeds the watcher checks the time and fires on the match.
    let mut w = watcher_for(10, 0, 4);
    let mut flag = true;
    let ticks = vec![
        ScriptTick { now: TimeSnapshot { hour: 9, minute: 59, weekday: 4 }, probe_ok: false },
        ScriptTick { now: TimeSnapshot { hour: 9, minute: 59, weekday: 4 }, probe_ok: true },
        ScriptTick { now: TimeSnapshot { hour: 10, minute: 0, weekday: 4 }, probe_ok: false },
    ];
    let outcome = w.run_script(&mut flag, &ticks);
    assert_eq!(outcome, Phase::Fired);
    assert_eq!(w.play_count(), 1);
    assert!(!flag);
}

#[test]
fn scripted_run_never_fires_without_a_match() {
    let mut w = watcher_for(23, 59, 6);
    let mut flag = false;
    let ticks = vec![
        ScriptTick { now: TimeSnapshot { hour: 23, minute: 57, weekday: 6 }, probe_ok: false },
        ScriptTick { now: TimeSnapshot { hour: 23, minute: 58, weekday: 6 }, probe_ok: false },
    ];
    let outcome = w.run_script(&mut flag, &ticks);
    assert_eq!(outcome, Phase::PollingTime);
    assert_eq!(w.play_count(), 0);
    assert!(!flag);
}

#[test]
fn fired_watcher_ignores_further_ticks() {
    // Playback happens exactly once: a fired watcher stays fired even if
    // the matching instant is read again.
    let mut w = watcher_for(8, 30, 0);
    let mut flag = false;
    let ticks = vec![
        ScriptTick { now: TimeSnapshot { hour: 8, minute: 30, weekday: 0 }, probe_ok: false },
        ScriptTick { now: TimeSnapshot { hour: 8, minute: 30, weekday: 0 }, probe_ok: false },
    ];
    let outcome = w.run_script(&mut flag, &ticks);
    assert_eq!(outcome, Phase::Fired);
    assert_eq!(w.play_count(), 1);
    let more = vec![
        ScriptTick { now: TimeSnapshot { hour: 8, minute: 30, weekday: 0 }, probe_ok: false },
    ];
    let again = w.run_script(&mut flag, &more);
    assert_eq!(again, Phase::Fired);
    assert_eq!(w.play_count(), 1);
}

#[test]
fn weekday_must_match_too() {
    // Same wall time on the wrong weekday: no match, and no overshoot
    // either while hour and minute still equal the target.
    let mut w = watcher_for(8, 30, 0);
    let mut flag = false;
    let cmd = w.step(&mut flag, TimeSnapshot { hour: 8, minute: 30, weekday: 1 }, false);
    assert_eq!(cmd, TickCommand::Continue);
    assert_eq!(w.current_phase(), Phase::PollingTime);
}

#[test]
fn out_of_range_entry_never_fires() {
    // No clock reading can match an hour of 25; the overshoot rule
    // retires the watcher instead.
    let mut w = watcher_for(25, 0, 0);
    let mut flag = false;
    let cmd = w.step(&mut flag, TimeSnapshot { hour: 10, minute: 30, weekday: 0 }, false);
    assert_eq!(cmd, TickCommand::Stop);
    assert_eq!(w.current_phase(), Phase::Abandoned);
    assert_eq!(w.play_count(), 0);
}

#[test]
fn update_reads_a_clock_in_range() {
    let mut w = watcher_for(8, 30, 0);
    w.update();
    let s = w.current_snapshot();
    assert!(s.hour <= 23);
    assert!(s.minute <= 59);
    assert!(s.weekday <= 6);
}

#[test]
fn real_clock_tick_obeys_the_probe() {
    // With the flag set, a real-clock tick only probes, whatever the time:
    // a successful probe clears the flag, the watcher keeps polling.
    let mut w = watcher_for(8, 30, 0);
    let mut flag = true;
    let cmd = w.tick(&mut flag, true);
    assert_eq!(cmd, TickCommand::Continue);
    assert!(!flag);
    assert_eq!(w.current_phase(), Phase::PollingDevice);
    assert_eq!(w.play_count(), 0);
}
