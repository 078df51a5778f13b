use majitimer::timer::{CountDownTimer, MyToType, Timer};

#[test]
fn timer_new_is_paused_at_zero() {
    let t = Timer::new();
    assert!(t.is_paused());
    assert_eq!(t.get_time(0), 0);
    assert_eq!(t.get_time(12345), 0);
}

#[test]
fn timer_runs_from_init() {
    let mut t = Timer::new();
    t.init(1000);
    assert!(!t.is_paused());
    assert_eq!(t.get_time(1000), 0);
    assert_eq!(t.get_time(4500), 3500);
}

#[test]
fn timer_pause_resume_accumulates() {
    // Run for d1 = 5000, pause, resume, run for d2 = 1500: reads d1 + d2.
    let mut t = Timer::new();
    t.init(0);
    t.pause(5000);
    assert!(t.is_paused());
    t.resume(8000);
    assert!(!t.is_paused());
    t.pause(9500);
    assert_eq!(t.get_time(9500), 6500);
    assert_eq!(t.get_time(1_000_000), 6500);
}

#[test]
fn timer_paused_reading_is_frozen() {
    let mut t = Timer::new();
    t.init(100);
    t.pause(350);
    assert_eq!(t.get_time(350), 250);
    assert_eq!(t.get_time(99999), 250);
}

#[test]
fn timer_init_resets_accumulation() {
    let mut t = Timer::new();
    t.init(0);
    t.pause(7000);
    t.init(10000);
    assert_eq!(t.get_time(10000), 0);
    assert_eq!(t.get_time(10500), 500);
}

#[test]
fn countdown_remaining_is_clamped_difference() {
    let mut c = CountDownTimer::new();
    c.init(30000, 0);
    assert_eq!(c.get_time(0), 30000);
    assert_eq!(c.get_time(12000), 18000);
    assert_eq!(c.get_time(30000), 0);
    // Overrun saturates at zero instead of going negative.
    assert_eq!(c.get_time(99999), 0);
}

#[test]
fn countdown_new_is_exhausted() {
    let c = CountDownTimer::new();
    assert!(c.is_paused());
    assert_eq!(c.get_time(0), 0);
}

#[test]
fn countdown_pause_freezes_remaining() {
    let mut c = CountDownTimer::new();
    c.init(10000, 0);
    c.pause(4000);
    assert!(c.is_paused());
    assert_eq!(c.get_time(4000), 6000);
    assert_eq!(c.get_time(50000), 6000);
    c.resume(20000);
    assert!(!c.is_paused());
    assert_eq!(c.get_time(21000), 5000);
}

#[test]
fn time_string_pads_fields() {
    assert_eq!(0u64.to_time_string(), "0:00:00:00");
    assert_eq!(30u64.to_time_string(), "0:00:00:30");
    assert_eq!(3661u64.to_time_string(), "0:01:01:01");
    assert_eq!(59u64.to_time_string(), "0:00:00:59");
    assert_eq!(600u64.to_time_string(), "0:00:10:00");
}

#[test]
fn time_string_hours_do_not_reset_at_day_boundary() {
    // The hours field is total seconds / 3600, so it keeps counting past 24.
    assert_eq!(86400u64.to_time_string(), "1:24:00:00");
    assert_eq!(90061u64.to_time_string(), "1:25:01:01");
    assert_eq!(180000u64.to_time_string(), "2:50:00:00");
}
