use majitimer::rest::rest_duration_ms;
use majitimer::settings::{Notification, Other, RunData, Settings, TimerMode};

fn started(now: u64) -> (RunData, Settings) {
    let mut run = RunData::new();
    let settings = Settings::template();
    run.init(&settings, now);
    (run, settings)
}

#[test]
fn template_settings_are_the_documented_defaults() {
    let s = Settings::template();
    assert_eq!(s.timer.majitime_min, 0);
    assert_eq!(s.timer.majitime_sec, 30);
    assert_eq!(s.timer.l_min, 40);
    assert_eq!(s.timer.l_sec, 0);
    assert_eq!(s.timer.k_micro, 1700);
    assert_eq!(s.timer.w0_min, 40);
    assert_eq!(s.timer.w0_sec, 0);
    assert_eq!(s.other.remind, 10);
    assert!(s.is_wf());
}

#[test]
fn is_wf_rejects_durations_that_overflow_milliseconds() {
    let mut s = Settings::template();
    s.timer.majitime_min = u64::MAX;
    assert!(!s.is_wf());
    let mut s = Settings::template();
    s.other.remind = u64::MAX;
    assert!(!s.is_wf());
}

#[test]
fn sound_path_getters_report_missing_paths() {
    let mut other = Other::template();
    assert!(other.get_finish_sound().is_err());
    assert!(other.get_restart_sound().is_err());
    assert!(other.get_remind_sound().is_err());
    other.set_finish_sound("sounds/finish.mp3");
    other.set_restart_sound("sounds/restart.mp3");
    other.set_remind_sound("sounds/remind.mp3");
    assert_eq!(other.get_finish_sound().unwrap(), "sounds/finish.mp3");
    assert_eq!(other.get_restart_sound().unwrap(), "sounds/restart.mp3");
    assert_eq!(other.get_remind_sound().unwrap(), "sounds/remind.mp3");
}

#[test]
fn new_run_starts_paused_in_init() {
    let run = RunData::new();
    assert_eq!(*run.mode(), TimerMode::Init);
    assert!(run.paused());
}

#[test]
fn init_starts_majitime_with_the_focus_limit() {
    let (run, _) = started(0);
    assert_eq!(*run.mode(), TimerMode::MajiTime);
    assert!(!run.paused());
    assert_eq!(run.down.get_time(0), 30000);
}

#[test]
fn majitime_finishes_into_endurance() {
    // The template focus block is 30 s; a tick 30 s later moves to
    // Endurance, the stopwatch reads zero, and the finish sound is asked.
    let (mut run, _) = started(0);
    let note = run.state_process(30_000);
    assert_eq!(*run.mode(), TimerMode::Endurance);
    assert_eq!(note, Some(Notification::Finish));
    assert_eq!(run.up.get_time(30_000), 0);
}

#[test]
fn majitime_keeps_counting_before_the_limit() {
    let (mut run, _) = started(0);
    let note = run.state_process(29_999);
    assert_eq!(*run.mode(), TimerMode::MajiTime);
    assert_eq!(note, None);
    assert_eq!(run.down.get_time(29_999), 1);
}

#[test]
fn full_cycle_follows_the_mode_sequence() {
    let (mut run, _) = started(0);
    assert_eq!(*run.mode(), TimerMode::MajiTime);

    // Focus countdown exhausted: Endurance.
    assert_eq!(run.state_process(30_000), Some(Notification::Finish));
    assert_eq!(*run.mode(), TimerMode::Endurance);

    // Endurance has no limit: nothing happens without a request.
    assert_eq!(run.state_process(500_000), None);
    assert_eq!(*run.mode(), TimerMode::Endurance);

    // A transition request ends endurance: Rest, with the computed limit.
    run.mode_transition_start();
    assert_eq!(run.state_process(630_000), None);
    assert_eq!(*run.mode(), TimerMode::Rest);
    let rest_ms = rest_duration_ms(2_400_000, 1700, 2400, 600);
    assert_eq!(run.down.get_time(630_000), rest_ms);

    // Rest countdown exhausted: UrgedToReMajiTime, restart sound asked.
    let urged_at = 630_000 + rest_ms;
    assert_eq!(run.state_process(urged_at), Some(Notification::Restart));
    assert_eq!(*run.mode(), TimerMode::UrgedToReMajiTime);
    assert_eq!(run.down.get_time(urged_at), 10_000);

    // A transition request returns to MajiTime with the focus limit.
    run.mode_transition_start();
    assert_eq!(run.state_process(urged_at + 5_000), None);
    assert_eq!(*run.mode(), TimerMode::MajiTime);
    assert_eq!(run.down.get_time(urged_at + 5_000), 30_000);
}

#[test]
fn urged_reminds_repeatedly_without_a_request() {
    let (mut run, _) = started(0);
    run.state_process(30_000);
    run.mode_transition_start();
    run.state_process(30_000);
    assert_eq!(*run.mode(), TimerMode::Rest);
    let rest_ms = run.down.get_time(30_000);
    let t0 = 30_000 + rest_ms;
    assert_eq!(run.state_process(t0), Some(Notification::Restart));
    assert_eq!(*run.mode(), TimerMode::UrgedToReMajiTime);
    // The reminder interval is 10 s; each exhaustion reminds again.
    for i in 1..=5u64 {
        let t = t0 + i * 10_000;
        assert_eq!(run.state_process(t), Some(Notification::Remind));
        assert_eq!(*run.mode(), TimerMode::UrgedToReMajiTime);
        assert_eq!(run.down.get_time(t), 10_000);
    }
}

#[test]
fn urged_does_not_remind_before_the_interval() {
    let (mut run, _) = started(0);
    run.state_process(30_000);
    run.mode_transition_start();
    run.state_process(30_000);
    let rest_ms = run.down.get_time(30_000);
    let t0 = 30_000 + rest_ms;
    run.state_process(t0);
    assert_eq!(run.state_process(t0 + 9_999), None);
    assert_eq!(*run.mode(), TimerMode::UrgedToReMajiTime);
}

#[test]
fn transition_request_is_ignored_outside_endurance_and_urged() {
    // The state machine only honors the flag in Endurance and
    // UrgedToReMajiTime; in MajiTime it sits until the next transition
    // clears it.
    let (mut run, _) = started(0);
    run.mode_transition_start();
    assert_eq!(run.state_process(1_000), None);
    assert_eq!(*run.mode(), TimerMode::MajiTime);
    // The focus block finishing clears the stale request...
    assert_eq!(run.state_process(30_000), Some(Notification::Finish));
    assert_eq!(*run.mode(), TimerMode::Endurance);
    // ...so endurance does not end on it.
    assert_eq!(run.state_process(40_000), None);
    assert_eq!(*run.mode(), TimerMode::Endurance);
}

#[test]
fn paused_machine_does_not_tick() {
    let (mut run, _) = started(0);
    run.pause_or_resume(10_000);
    assert!(run.paused());
    // Well past the focus limit, but paused: no transition, no sound.
    assert_eq!(run.state_process(500_000), None);
    assert_eq!(*run.mode(), TimerMode::MajiTime);
    // Resuming continues from the paused remaining time.
    run.pause_or_resume(600_000);
    assert!(!run.paused());
    assert_eq!(run.down.get_time(600_000), 20_000);
}

#[test]
fn endurance_pause_excludes_the_paused_interval() {
    let (mut run, _) = started(0);
    run.state_process(30_000);
    assert_eq!(*run.mode(), TimerMode::Endurance);
    // Work 10 s, pause 20 s, work 5 s: the stopwatch reads 15 s.
    run.pause_or_resume(40_000);
    assert!(run.paused());
    assert_eq!(run.up.get_time(55_000), 10_000);
    run.pause_or_resume(60_000);
    assert!(!run.paused());
    assert_eq!(run.up.get_time(65_000), 15_000);
}

#[test]
fn update_takes_effect_on_the_next_start() {
    let (mut run, _) = started(0);
    let mut s2 = Settings::template();
    s2.timer.majitime_min = 1;
    s2.timer.majitime_sec = 0;
    run.update(&s2);
    // The running countdown is untouched...
    assert_eq!(run.down.get_time(0), 30_000);
    // ...but a restart uses the new limit.
    run.init(&s2, 100_000);
    assert_eq!(run.down.get_time(100_000), 60_000);
}

#[test]
fn endurance_rest_depends_on_elapsed_work() {
    // 40 min of endurance work (exactly w0) earns exactly 20 min of rest.
    let (mut run, _) = started(0);
    run.state_process(30_000);
    assert_eq!(*run.mode(), TimerMode::Endurance);
    run.mode_transition_start();
    let t = 30_000 + 2400 * 1000;
    assert_eq!(run.state_process(t), None);
    assert_eq!(*run.mode(), TimerMode::Rest);
    assert_eq!(run.down.get_time(t), 1_200_000);
}

#[test]
fn render_time_formats_the_active_clock() {
    let (mut run, _) = started(0);
    assert_eq!(run.render_time(15_000), "0:00:00:15");
    run.state_process(30_000);
    assert_eq!(*run.mode(), TimerMode::Endurance);
    assert_eq!(run.render_time(30_000 + 3_661_000), "0:01:01:01");
}

#[test]
fn render_lists_mode_text_and_key_hints() {
    let run = RunData::new();
    let (lines, hints) = run.render(0);
    assert_eq!(lines.len(), 3);
    assert_eq!(lines[0], "本気タイマー v0.1.0");
    assert_eq!(hints.len(), 8);
    assert_eq!(hints[0], " スタート ");
    assert_eq!(hints[1], "<Space> ");

    let (mut run, _) = started(0);
    let (lines, hints) = run.render(20_000);
    assert_eq!(lines.len(), 3);
    assert_eq!(lines[0], "本気モード\n");
    assert_eq!(lines[1], "0:00:00:10");
    assert_eq!(hints.len(), 10);
    assert_eq!(hints[0], " ポーズ/再開 ");
    assert_eq!(hints[9], "<Q> ");

    run.state_process(30_000);
    let (lines, _) = run.render(31_000);
    assert_eq!(lines[0], " 耐久モード\n");
    assert_eq!(lines[1], "0:00:00:01");
    assert_eq!(
        lines[2],
        "もうやりたくないと思うまで作業をする時間です。 <M> で休憩に入ることができますが、長く作業すればその分長く休憩できます。\n"
    );
}
