use solanum::timer::{duration_to_mins_and_secs, next_lap_type, LapType, TickOutcome, Timer, NANOS_PER_SEC};

const SEC: u64 = NANOS_PER_SEC;

#[test]
fn mins_and_secs_split() {
    assert_eq!(duration_to_mins_and_secs(0), (0, 0));
    assert_eq!(duration_to_mins_and_secs(25 * 60 * SEC), (25, 0));
    assert_eq!(duration_to_mins_and_secs(90 * SEC + SEC / 2), (1, 30));
    assert_eq!(duration_to_mins_and_secs(SEC - 1), (0, 0));
    assert_eq!(duration_to_mins_and_secs(u64::MAX), (307445734, 33));
}

#[test]
fn lap_types_alternate() {
    assert_eq!(next_lap_type(LapType::Pomodoro), LapType::Break);
    assert_eq!(next_lap_type(LapType::Break), LapType::Pomodoro);
    assert_eq!(next_lap_type(next_lap_type(LapType::Break)), LapType::Break);
    assert_eq!(LapType::default(), LapType::Pomodoro);
}

#[test]
fn new_timer_is_stopped() {
    let t = Timer::new();
    assert!(!t.running());
    assert_eq!(t.lap_type(), LapType::Pomodoro);
    assert_eq!(t.duration(), 0);
}

#[test]
fn set_duration_counts_minutes() {
    let mut t = Timer::new();
    t.set_duration(25, 7);
    assert_eq!(t.duration(), 25 * 60 * SEC);
    assert!(!t.running());
}

#[test]
fn idle_timer_ticks_nothing() {
    let mut t = Timer::new();
    t.set_duration(1, 0);
    assert_eq!(t.tick(5 * SEC), TickOutcome::Idle);
    assert_eq!(t.lap_type(), LapType::Pomodoro);
}

#[test]
fn running_timer_counts_down() {
    let mut t = Timer::new();
    t.set_duration(25, 0);
    t.start(10 * SEC);
    assert!(t.running());
    assert_eq!(t.tick(10 * SEC), TickOutcome::Countdown { minutes: 25, seconds: 0 });
    assert_eq!(t.tick(11 * SEC), TickOutcome::Countdown { minutes: 24, seconds: 59 });
    assert_eq!(t.tick(10 * SEC + 25 * 60 * SEC), TickOutcome::Countdown { minutes: 0, seconds: 0 });
    // a clock reading before the start counts as no time elapsed
    assert_eq!(t.tick(0), TickOutcome::Countdown { minutes: 25, seconds: 0 });
}

#[test]
fn running_out_turns_the_lap() {
    let mut t = Timer::new();
    t.set_duration(1, 0);
    t.start(0);
    assert_eq!(t.tick(60 * SEC + 1), TickOutcome::Lap);
    assert_eq!(t.lap_type(), LapType::Break);
    assert!(t.running());
    assert_eq!(t.tick(61 * SEC), TickOutcome::Lap);
    assert_eq!(t.lap_type(), LapType::Pomodoro);
}

#[test]
fn pause_resumes_where_it_left_off() {
    let mut t = Timer::new();
    t.set_duration(10, 0);
    t.start(0);
    t.stop(4 * 60 * SEC);
    assert!(!t.running());
    assert_eq!(t.duration(), 6 * 60 * SEC);
    // an hour of pause does not count
    t.start(64 * 60 * SEC);
    assert_eq!(t.tick(65 * 60 * SEC), TickOutcome::Countdown { minutes: 5, seconds: 0 });
}

#[test]
fn stop_after_running_out_keeps_duration() {
    let mut t = Timer::new();
    t.set_duration(1, 0);
    t.start(0);
    t.stop(2 * 60 * SEC);
    assert_eq!(t.duration(), 60 * SEC);
}

#[test]
fn set_lap_type_sets() {
    let mut t = Timer::new();
    t.set_lap_type(LapType::Break);
    assert_eq!(t.lap_type(), LapType::Break);
}

#[test]
fn countdown_never_goes_up() {
    let mut t = Timer::new();
    t.set_duration(2, 0);
    t.start(0);
    let mut last = u64::MAX;
    for step in 0..30u64 {
        match t.tick(step * 5 * SEC) {
            TickOutcome::Countdown { minutes, seconds } => {
                let shown = (minutes as u64) * 60 + seconds as u64;
                assert!(shown <= last);
                last = shown;
            }
            TickOutcome::Lap => {
                assert!(step * 5 > 120);
                break;
            }
            TickOutcome::Idle => panic!("a running timer does not idle"),
        }
    }
}

#[test]
fn lap_turns_only_after_the_last_nanosecond() {
    let mut t = Timer::new();
    t.set_duration(1, 0);
    t.start(0);
    assert_eq!(t.tick(60 * SEC), TickOutcome::Countdown { minutes: 0, seconds: 0 });
    assert_eq!(t.lap_type(), LapType::Pomodoro);
    assert_eq!(t.tick(60 * SEC + 1), TickOutcome::Lap);
}
