use solanum::timer::{LapType, TickOutcome, NANOS_PER_SEC};
use solanum::window::{notification_messages, LapLabel, Settings, SolanumWindow, ToggleOutcome};

const SEC: u64 = NANOS_PER_SEC;

fn settings() -> Settings {
    Settings {
        lap_length: 25,
        short_break_length: 5,
        long_break_length: 15,
        sessions_until_long_break: 4,
        fullscreen_break: false,
    }
}

#[test]
fn new_window_starts_on_first_lap() {
    let (win, shown) = SolanumWindow::new(&settings(), 0);
    assert_eq!(win.pomodoro_count(), 1);
    assert_eq!(win.lap_type(), LapType::Pomodoro);
    assert!(!win.timer().running());
    assert_eq!(win.timer().duration(), 25 * 60 * SEC);
    assert_eq!(shown.lap_label, LapLabel::Lap(1));
    assert_eq!(shown.timer_label, "25\u{2236}00");
    assert_eq!(win.lap_label(), LapLabel::Lap(1));
}

#[test]
fn every_fourth_break_is_long() {
    let s = settings();
    let (mut win, _) = SolanumWindow::new(&s, 0);
    let mut labels = Vec::new();
    for round in 0..8u64 {
        let to_break = win.next_lap(false, &s, round);
        labels.push(to_break.update.lap_label);
        let to_work = win.next_lap(false, &s, round);
        assert_eq!(win.lap_type(), LapType::Pomodoro);
        labels.push(to_work.update.lap_label);
    }
    assert_eq!(
        labels,
        vec![
            LapLabel::ShortBreak,
            LapLabel::Lap(2),
            LapLabel::ShortBreak,
            LapLabel::Lap(3),
            LapLabel::ShortBreak,
            LapLabel::Lap(4),
            LapLabel::LongBreak,
            LapLabel::Lap(1),
            LapLabel::ShortBreak,
            LapLabel::Lap(2),
            LapLabel::ShortBreak,
            LapLabel::Lap(3),
            LapLabel::ShortBreak,
            LapLabel::Lap(4),
            LapLabel::LongBreak,
            LapLabel::Lap(1),
        ]
    );
}

#[test]
fn break_lengths_follow_settings() {
    let s = Settings { sessions_until_long_break: 1, ..settings() };
    let (mut win, _) = SolanumWindow::new(&s, 0);
    let up = win.update_lap(LapType::Break, &s, 3);
    assert_eq!(up.lap_label, LapLabel::LongBreak);
    assert_eq!(up.timer_label, "15\u{2236}00");
    assert_eq!(win.timer().duration(), 15 * 60 * SEC);
    assert_eq!(win.pomodoro_count(), 1);

    let s = settings();
    let (mut win, _) = SolanumWindow::new(&s, 0);
    let up = win.update_lap(LapType::Break, &s, 3);
    assert_eq!(up.lap_label, LapLabel::ShortBreak);
    assert_eq!(up.timer_label, "05\u{2236}00");
    assert_eq!(win.pomodoro_count(), 2);
    assert_eq!(win.lap_type(), LapType::Break);
}

#[test]
fn zero_sessions_makes_every_break_long() {
    let s = Settings { sessions_until_long_break: 0, ..settings() };
    let (mut win, _) = SolanumWindow::new(&s, 0);
    assert_eq!(win.update_lap(LapType::Break, &s, 0).lap_label, LapLabel::LongBreak);
}

#[test]
fn toggle_starts_and_stops() {
    let s = settings();
    let (mut win, _) = SolanumWindow::new(&s, 0);
    let out = win.toggle_timer(&s, 10 * SEC);
    assert_eq!(out, ToggleOutcome { started: true, fullscreen: None });
    assert!(win.timer().running());
    let out = win.toggle_timer(&s, 70 * SEC);
    assert_eq!(out, ToggleOutcome { started: false, fullscreen: None });
    assert!(!win.timer().running());
    assert_eq!(win.timer().duration(), 24 * 60 * SEC);
}

#[test]
fn fullscreen_follows_lap_type() {
    let s = Settings { fullscreen_break: true, ..settings() };
    let (mut win, _) = SolanumWindow::new(&s, 0);
    assert_eq!(win.toggle_timer(&s, 0), ToggleOutcome { started: true, fullscreen: Some(false) });
    win.toggle_timer(&s, 1);
    win.skip(&s, 2);
    assert_eq!(win.lap_type(), LapType::Break);
    assert_eq!(win.toggle_timer(&s, 3), ToggleOutcome { started: true, fullscreen: Some(true) });
}

#[test]
fn reset_goes_back_to_first_lap() {
    let s = settings();
    let (mut win, _) = SolanumWindow::new(&s, 0);
    win.next_lap(false, &s, 0);
    win.next_lap(false, &s, 0);
    win.next_lap(false, &s, 0);
    win.toggle_timer(&s, 5);
    let up = win.reset(&s, 100);
    assert_eq!(up.lap_label, LapLabel::Lap(1));
    assert_eq!(up.timer_label, "25\u{2236}00");
    assert_eq!(win.pomodoro_count(), 1);
    assert_eq!(win.lap_type(), LapType::Pomodoro);
    assert!(!win.timer().running());
    assert_eq!(win.timer().duration(), 25 * 60 * SEC);
}

#[test]
fn finished_lap_stops_and_announces() {
    let s = settings();
    let (mut win, _) = SolanumWindow::new(&s, 0);
    win.toggle_timer(&s, 0);
    assert_eq!(win.tick(25 * 60 * SEC + 1), TickOutcome::Lap);
    let (toggled, next) = win.lap_finished(&s, 25 * 60 * SEC + 1);
    assert_eq!(toggled, ToggleOutcome { started: false, fullscreen: None });
    assert_eq!(next.notification, Some(LapType::Break));
    assert_eq!(next.update.lap_label, LapLabel::ShortBreak);
    assert!(!win.timer().running());
    assert_eq!(win.lap_type(), LapType::Break);
    assert_eq!(win.timer().duration(), 5 * 60 * SEC);
}

#[test]
fn skip_keeps_the_timer_running() {
    let s = settings();
    let (mut win, _) = SolanumWindow::new(&s, 0);
    win.toggle_timer(&s, 0);
    let up = win.skip(&s, 60 * SEC);
    assert_eq!(up.lap_label, LapLabel::ShortBreak);
    assert!(win.timer().running());
    assert_eq!(win.tick(61 * SEC), TickOutcome::Countdown { minutes: 4, seconds: 59 });
}

#[test]
fn next_lap_without_notify_announces_nothing() {
    let s = settings();
    let (mut win, _) = SolanumWindow::new(&s, 0);
    assert_eq!(win.next_lap(false, &s, 0).notification, None);
    assert_eq!(win.next_lap(true, &s, 0).notification, Some(LapType::Pomodoro));
}

#[test]
fn notification_texts() {
    assert_eq!(
        notification_messages(LapType::Pomodoro),
        ("Back to Work", "Ready to keep working?", "Start Working")
    );
    assert_eq!(
        notification_messages(LapType::Break),
        ("Break Time", "Stretch your legs, and drink some water.", "Start Break")
    );
}
