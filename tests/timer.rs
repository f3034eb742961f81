use pomodoro_timer::{format_seconds, PomodoroTimer, BREAK_TIME, WORK_TIME};

fn state(t: &PomodoroTimer) -> (u32, bool, bool) {
    (t.time_remaining(), t.is_running(), t.is_work_period())
}

#[test]
fn new_timer_is_a_paused_work_period() {
    let t = PomodoroTimer::new();
    assert_eq!(state(&t), (1500, false, true));
    assert_eq!(t.format_time(), "25:00");
}

#[test]
fn period_lengths() {
    assert_eq!(WORK_TIME, 1500);
    assert_eq!(BREAK_TIME, 300);
}

#[test]
fn reset_from_a_running_break_restores_the_initial_state() {
    let mut t = PomodoroTimer::new();
    t.toggle();
    for _ in 0..1501 {
        t.tick();
    }
    t.toggle();
    t.tick();
    assert_eq!(state(&t), (299, true, false));
    t.reset();
    assert_eq!(state(&t), (1500, false, true));
    assert_eq!(t.format_time(), "25:00");
}

#[test]
fn reset_twice_is_reset_once() {
    let mut t = PomodoroTimer::new();
    t.toggle();
    t.tick();
    t.reset();
    let once = state(&t);
    t.reset();
    assert_eq!(state(&t), once);
}

#[test]
fn work_period_runs_out_then_moves_to_a_paused_break() {
    let mut t = PomodoroTimer::new();
    assert!(t.toggle());
    for _ in 0..1500 {
        assert!(t.tick());
    }
    assert_eq!(state(&t), (0, true, true));
    assert_eq!(t.format_time(), "00:00");
    assert!(!t.tick());
    assert_eq!(state(&t), (300, false, false));
    assert_eq!(t.format_time(), "05:00");
}

#[test]
fn break_period_runs_out_then_moves_to_a_paused_work_period() {
    let mut t = PomodoroTimer::new();
    t.toggle();
    for _ in 0..1501 {
        t.tick();
    }
    assert!(t.toggle());
    for _ in 0..300 {
        assert!(t.tick());
    }
    assert!(!t.tick());
    assert_eq!(state(&t), (1500, false, true));
}

#[test]
fn toggle_twice_returns_true_then_false() {
    let mut t = PomodoroTimer::new();
    t.toggle();
    for _ in 0..10 {
        t.tick();
    }
    t.toggle();
    let before = state(&t);
    assert!(t.toggle());
    assert!(!t.toggle());
    assert_eq!(state(&t), before);
}

#[test]
fn tick_while_paused_keeps_time() {
    let mut t = PomodoroTimer::new();
    assert!(!t.tick());
    assert_eq!(state(&t), (1500, false, true));
    t.toggle();
    t.tick();
    t.tick();
    t.toggle();
    for _ in 0..5 {
        assert!(!t.tick());
        assert_eq!(state(&t), (1498, false, true));
    }
}

#[test]
fn tick_while_paused_at_zero_moves_to_the_next_period() {
    let mut t = PomodoroTimer::new();
    t.toggle();
    for _ in 0..1500 {
        t.tick();
    }
    assert!(!t.toggle());
    assert_eq!(state(&t), (0, false, true));
    assert!(!t.tick());
    assert_eq!(state(&t), (300, false, false));
}

#[test]
fn format_examples() {
    assert_eq!(format_seconds(65), "01:05");
    assert_eq!(format_seconds(0), "00:00");
    assert_eq!(format_seconds(1500), "25:00");
    assert_eq!(format_seconds(59), "00:59");
    assert_eq!(format_seconds(600), "10:00");
}

#[test]
fn format_above_ninety_nine_minutes_widens() {
    assert_eq!(format_seconds(6000), "100:00");
    assert_eq!(format_seconds(u32::MAX), "71582788:15");
}

#[test]
fn format_time_of_a_running_timer() {
    let mut t = PomodoroTimer::new();
    t.toggle();
    for _ in 0..1435 {
        t.tick();
    }
    assert_eq!(t.time_remaining(), 65);
    assert_eq!(t.format_time(), "01:05");
}

#[test]
fn end_to_end_scenario() {
    let mut t = PomodoroTimer::new();
    assert_eq!(t.format_time(), "25:00");
    assert!(t.toggle());
    for _ in 0..3 {
        t.tick();
    }
    assert_eq!(t.format_time(), "24:57");
    assert!(t.is_running());
    assert!(!t.toggle());
    assert_eq!(t.format_time(), "24:57");
}

#[test]
fn time_left_stays_within_bounds_over_mixed_commands() {
    let mut t = PomodoroTimer::new();
    let mut seed: u32 = 12345;
    for _ in 0..20000 {
        seed = seed.wrapping_mul(1103515245).wrapping_add(12345);
        match (seed >> 16) % 100 {
            0..=1 => {
                t.toggle();
            }
            2 => t.reset(),
            3..=4 => {
                if !t.is_running() {
                    t.toggle();
                }
            }
            _ => {
                t.tick();
            }
        }
        assert!(t.time_remaining() <= 1500);
    }
}
