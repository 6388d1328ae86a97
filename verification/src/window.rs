//! The session that the main window runs: which lap it is on, how many work
//! laps have passed since the last long break, and what each button, action
//! and timer event does to it.
//!
//! Each call returns what the window has to show or do; drawing it, playing
//! the sounds and sending the notifications is left to the caller.
use vstd::prelude::*;

use crate::format::{clock_text, format_clock};
pub use crate::timer::LapType;
use crate::timer::{following_lap, minutes_fit, next_lap_type, TickOutcome, Timer, TimerView};

verus! {

/// The user's settings that the session reads.
#[derive(Copy, Clone, Debug, PartialEq, Eq, Structural)]
pub struct Settings {
    /// Minutes in a work lap.
    pub lap_length: u32,
    /// Minutes in a short break.
    pub short_break_length: u32,
    /// Minutes in a long break.
    pub long_break_length: u32,
    /// Work laps until a break is a long one.
    pub sessions_until_long_break: u32,
    /// Whether the window fills the screen during breaks.
    pub fullscreen_break: bool,
}

/// What the lap label shows.
#[derive(Copy, Clone, Debug, PartialEq, Eq, Structural)]
pub enum LapLabel {
    /// "Lap n": the n-th work lap since the last long break.
    Lap(u32),
    ShortBreak,
    LongBreak,
}

/// What the window shows after moving to a lap.
pub struct LapUpdate {
    pub lap_label: LapLabel,
    pub timer_label: String,
}

/// What the window does after the timer was started or stopped.
#[derive(Copy, Clone, Debug, PartialEq, Eq, Structural)]
pub struct ToggleOutcome {
    /// True if the timer was started, false if it was stopped.
    pub started: bool,
    /// Where the timer was started and breaks fill the screen: whether the
    /// window fills the screen (true on a break) or leaves it (false).
    pub fullscreen: Option<bool>,
}

/// What the window shows and does after moving on to the next lap.
pub struct NextLap {
    pub update: LapUpdate,
    /// The lap that a notification announces, where one is due.
    pub notification: Option<LapType>,
}

/// The state of a session.
pub struct WindowView {
    pub pomodoro_count: u32,
    pub lap_type: LapType,
    pub timer: TimerView,
}

/// Minutes of a lap of type `lap_type` that starts when `count` work laps
/// have passed since the last long break.
pub open spec fn lap_minutes(count: u32, lap_type: LapType, s: Settings) -> u32 {
    match lap_type {
        LapType::Pomodoro => s.lap_length,
        LapType::Break => if count >= s.sessions_until_long_break {
            s.long_break_length
        } else {
            s.short_break_length
        },
    }
}

/// The label of a lap of type `lap_type` that starts at `count`.
pub open spec fn lap_label_for(count: u32, lap_type: LapType, s: Settings) -> LapLabel {
    match lap_type {
        LapType::Pomodoro => LapLabel::Lap(count),
        LapType::Break => if count >= s.sessions_until_long_break {
            LapLabel::LongBreak
        } else {
            LapLabel::ShortBreak
        },
    }
}

/// The work-lap count once a lap of type `lap_type` has started at `count`:
/// a long break starts the count again at 1, a short one adds 1.
pub open spec fn count_after(count: u32, lap_type: LapType, s: Settings) -> u32 {
    match lap_type {
        LapType::Pomodoro => count,
        LapType::Break => if count >= s.sessions_until_long_break {
            1
        } else {
            (count + 1) as u32
        },
    }
}

impl WindowView {
    /// The timer of a session always has a reading to count from, and the
    /// lap count starts at 1.
    pub open spec fn wf(self) -> bool {
        &&& self.timer.wf()
        &&& self.timer.instant is Some
        &&& self.pomodoro_count >= 1
    }

    /// Whether the lap of type `lap_type` that would start now has a length
    /// whose seconds fit in a `u32`.
    pub open spec fn can_start(self, lap_type: LapType, s: Settings) -> bool {
        minutes_fit(lap_minutes(self.pomodoro_count, lap_type, s))
    }

    /// The session after moving to a lap of type `lap_type` at `now`.
    pub open spec fn with_lap(self, lap_type: LapType, s: Settings, now: u64) -> WindowView {
        WindowView {
            pomodoro_count: count_after(self.pomodoro_count, lap_type, s),
            lap_type,
            timer: self.timer.with_minutes(lap_minutes(self.pomodoro_count, lap_type, s), now),
        }
    }

    /// The session after the timer button was pressed at `now`.
    pub open spec fn toggled(self, now: u64) -> WindowView {
        WindowView {
            timer: if self.timer.running {
                self.timer.stopped(now)
            } else {
                self.timer.started(now)
            },
            ..self
        }
    }

    /// What the window does when the timer button is pressed.
    pub open spec fn toggle_outcome(self, s: Settings) -> ToggleOutcome {
        ToggleOutcome {
            started: !self.timer.running,
            fullscreen: if !self.timer.running && s.fullscreen_break {
                Some(self.lap_type == LapType::Break)
            } else {
                None
            },
        }
    }

    /// The session after moving on to the next lap at `now`.
    pub open spec fn advanced(self, s: Settings, now: u64) -> WindowView {
        self.with_lap(following_lap(self.lap_type), s, now)
    }

    /// The session after a reset at `now`: stopped, with the count back at 1,
    /// on a work lap.
    pub open spec fn reset_to(self, s: Settings, now: u64) -> WindowView {
        WindowView { pomodoro_count: 1, timer: self.timer.stopped(now), ..self }.with_lap(
            LapType::Pomodoro,
            s,
            now,
        )
    }
}

/// The work-lap count after `k` breaks, starting from `count`.
pub open spec fn count_after_breaks(count: u32, s: Settings, k: nat) -> u32
    decreases k,
{
    if k == 0 {
        count
    } else {
        count_after(count_after_breaks(count, s, (k - 1) as nat), LapType::Break, s)
    }
}

/// The session after `k` rounds of a work lap followed by a break.
pub open spec fn rounds(v: WindowView, s: Settings, now: u64, k: nat) -> WindowView
    decreases k,
{
    if k == 0 {
        v
    } else {
        rounds(v, s, now, (k - 1) as nat).advanced(s, now).advanced(s, now)
    }
}

/// With the number of work laps until a long break fixed at `N` of at least
/// 1, the work-lap count stays between 1 and `N`, whatever lap comes next.
pub proof fn lemma_count_stays_in_range(v: WindowView, lap_type: LapType, s: Settings, now: u64)
    requires
        s.sessions_until_long_break >= 1,
        1 <= v.pomodoro_count <= s.sessions_until_long_break,
    ensures
        1 <= v.with_lap(lap_type, s, now).pomodoro_count <= s.sessions_until_long_break,
        1 <= v.reset_to(s, now).pomodoro_count <= s.sessions_until_long_break,
{
}

/// Starting from a count of 1, after `k` breaks the count is `k % N + 1`.
pub proof fn lemma_count_after_breaks(s: Settings, k: nat)
    requires
        s.sessions_until_long_break >= 1,
    ensures
        count_after_breaks(1, s, k) as int == (k as int) % (s.sessions_until_long_break as int)
            + 1,
    decreases k,
{
    let n = s.sessions_until_long_break as int;
    if k == 0 {
        assert(0int % n == 0) by (nonlinear_arith)
            requires
                n >= 1,
        ;
    } else {
        lemma_count_after_breaks(s, (k - 1) as nat);
        let j = (k - 1) as int;
        let r = j % n;
        assert(j == (j / n) * n + r && 0 <= r < n) by {
            vstd::arithmetic::div_mod::lemma_fundamental_div_mod(j, n);
            vstd::arithmetic::div_mod::lemma_mod_bound(j, n);
            vstd::arithmetic::mul::lemma_mul_is_commutative(n, j / n);
        }
        if r + 1 < n {
            vstd::arithmetic::div_mod::lemma_fundamental_div_mod_converse(j + 1, n, j / n, r + 1);
        } else {
            assert((j / n + 1) * n + 0 == (j / n) * n + n) by (nonlinear_arith);
            vstd::arithmetic::div_mod::lemma_fundamental_div_mod_converse(j + 1, n, j / n + 1, 0);
        }
    }
}

/// Every `N`-th break is a long one: a session that starts on a work lap with
/// a count of 1 (as a new or reset one does) and goes through `k` rounds of a
/// work lap and a break is on a work lap again, with a count of `k % N + 1`,
/// and the break after it is long exactly when `k + 1` is a multiple of `N`.
pub proof fn lemma_every_nth_break_is_long(v: WindowView, s: Settings, now: u64, k: nat)
    requires
        s.sessions_until_long_break >= 1,
        v.pomodoro_count == 1,
        v.lap_type == LapType::Pomodoro,
    ensures
        rounds(v, s, now, k).lap_type == LapType::Pomodoro,
        rounds(v, s, now, k).pomodoro_count == count_after_breaks(1, s, k),
        rounds(v, s, now, k).pomodoro_count as int == (k as int) % (
        s.sessions_until_long_break as int) + 1,
        (lap_label_for(rounds(v, s, now, k).pomodoro_count, LapType::Break, s)
            == LapLabel::LongBreak) == ((k as int + 1) % (s.sessions_until_long_break as int)
            == 0),
    decreases k,
{
    let n = s.sessions_until_long_break as int;
    if k > 0 {
        lemma_every_nth_break_is_long(v, s, now, (k - 1) as nat);
    }
    lemma_count_after_breaks(s, k);
    lemma_count_after_breaks(s, k + 1);
    let c = count_after_breaks(1, s, k);
    assert(count_after_breaks(1, s, k + 1) == count_after(c, LapType::Break, s));
    vstd::arithmetic::div_mod::lemma_mod_bound(k as int, n);
    vstd::arithmetic::div_mod::lemma_mod_bound(k as int + 1, n);
}

/// Pressing the timer button twice leaves the timer as it was, running or
/// stopped, and the lap and its count untouched.
pub proof fn lemma_toggle_twice(v: WindowView, s: Settings, t1: u64, t2: u64)
    requires
        v.wf(),
    ensures
        v.toggled(t1).toggled(t2).timer.running == v.timer.running,
        v.toggled(t1).toggled(t2).lap_type == v.lap_type,
        v.toggled(t1).toggled(t2).pomodoro_count == v.pomodoro_count,
        v.toggle_outcome(s).started != v.toggled(t1).toggle_outcome(s).started,
{
}

/// After a reset the session is stopped, on a work lap with a count of 1, and
/// its timer is set to a full work lap from the time of the reset.
pub proof fn lemma_reset_restarts(v: WindowView, s: Settings, now: u64)
    requires
        v.wf(),
    ensures
        v.reset_to(s, now).pomodoro_count == 1,
        v.reset_to(s, now).lap_type == LapType::Pomodoro,
        !v.reset_to(s, now).timer.running,
        v.reset_to(s, now).timer.instant == Some(now),
        v.reset_to(s, now).timer.duration == (s.lap_length * 60 * crate::timer::NANOS_PER_SEC) as u64,
        v.reset_to(s, now).timer.remaining(now) == Some(v.reset_to(s, now).timer.duration as nat),
{
}

/// Moving on to the next lap alternates work and breaks, and leaves a running
/// timer running and a stopped one stopped, with the new lap's full length
/// counted from the time of the move.
pub proof fn lemma_advance_alternates(v: WindowView, s: Settings, now: u64)
    requires
        v.wf(),
    ensures
        v.advanced(s, now).lap_type != v.lap_type,
        v.advanced(s, now).advanced(s, now).lap_type == v.lap_type,
        v.advanced(s, now).timer.running == v.timer.running,
        v.advanced(s, now).timer.remaining(now) == Some(v.advanced(s, now).timer.duration as nat),
{
}

/// When the countdown runs out on a running timer, the timer stops and the
/// session moves on to the other kind of lap, set to its full length.
pub proof fn lemma_finished_lap_stops(v: WindowView, s: Settings, now: u64)
    requires
        v.wf(),
        v.timer.running,
    ensures
        !v.toggled(now).advanced(s, now).timer.running,
        v.toggled(now).advanced(s, now).lap_type == following_lap(v.lap_type),
        v.toggled(now).advanced(s, now).timer.duration == (lap_minutes(
            v.pomodoro_count,
            following_lap(v.lap_type),
            s,
        ) * 60 * crate::timer::NANOS_PER_SEC) as u64,
        !v.toggle_outcome(s).started,
        v.toggle_outcome(s).fullscreen is None,
{
}

/// How long each lap is, stated from the settings alone: a work lap always
/// takes the work-lap length, whatever the count; a break that starts while
/// fewer than `sessions_until_long_break` work laps have passed is a short
/// break with the short-break length, and otherwise a long break with the
/// long-break length. The label and the timer always agree on which break it is.
pub proof fn lemma_lap_lengths(v: WindowView, s: Settings, now: u64)
    ensures
        v.with_lap(LapType::Pomodoro, s, now).timer.duration == (s.lap_length * 60
            * crate::timer::NANOS_PER_SEC) as u64,
        lap_minutes(v.pomodoro_count, LapType::Pomodoro, s) == s.lap_length,
        lap_label_for(v.pomodoro_count, LapType::Pomodoro, s) == LapLabel::Lap(v.pomodoro_count),
        v.pomodoro_count < s.sessions_until_long_break ==> {
            &&& lap_label_for(v.pomodoro_count, LapType::Break, s) == LapLabel::ShortBreak
            &&& lap_minutes(v.pomodoro_count, LapType::Break, s) == s.short_break_length
            &&& v.with_lap(LapType::Break, s, now).timer.duration == (s.short_break_length * 60
                * crate::timer::NANOS_PER_SEC) as u64
            &&& v.with_lap(LapType::Break, s, now).pomodoro_count == v.pomodoro_count + 1
        },
        v.pomodoro_count >= s.sessions_until_long_break ==> {
            &&& lap_label_for(v.pomodoro_count, LapType::Break, s) == LapLabel::LongBreak
            &&& lap_minutes(v.pomodoro_count, LapType::Break, s) == s.long_break_length
            &&& v.with_lap(LapType::Break, s, now).timer.duration == (s.long_break_length * 60
                * crate::timer::NANOS_PER_SEC) as u64
            &&& v.with_lap(LapType::Break, s, now).pomodoro_count == 1
        },
        forall|c: u32|
            #![trigger lap_minutes(c, LapType::Break, s)]
            lap_minutes(c, LapType::Break, s) == (if lap_label_for(c, LapType::Break, s)
                == LapLabel::LongBreak {
                s.long_break_length
            } else {
                s.short_break_length
            }),
        forall|c: u32| #[trigger] lap_minutes(c, LapType::Pomodoro, s) == s.lap_length,
{
}

/// Pressing the timer button touches fullscreen only where the user asked for
/// fullscreen breaks, and only when it starts the timer: then the window
/// fills the screen on a break and leaves it on a work lap.
pub proof fn lemma_fullscreen_only_when_enabled(v: WindowView, s: Settings)
    ensures
        !s.fullscreen_break ==> v.toggle_outcome(s).fullscreen is None,
        v.timer.running ==> v.toggle_outcome(s).fullscreen is None,
        s.fullscreen_break && !v.timer.running ==> v.toggle_outcome(s).fullscreen == Some(
            v.lap_type == LapType::Break,
        ),
        v.toggle_outcome(s).started == !v.timer.running,
{
}

/// The session of the main window.
pub struct SolanumWindow {
    pomodoro_count: u32,
    timer: Timer,
    lap_type: LapType,
}

impl View for SolanumWindow {
    type V = WindowView;

    closed spec fn view(&self) -> WindowView {
        WindowView { pomodoro_count: self.pomodoro_count, lap_type: self.lap_type, timer: self.timer@ }
    }
}

/// The timer label for `secs` seconds.
pub fn set_timer_label_from_secs(secs: u32) -> (res: String)
    ensures
        res@ == clock_text((secs / 60) as nat, (secs % 60) as nat),
{
    let min = secs / 60;
    let secs = secs % 60;
    format_clock(min, secs)
}

/// The timer label for a countdown of `min` minutes and `sec` seconds.
pub fn update_countdown(min: u32, sec: u32) -> (res: String)
    ensures
        res@ == clock_text(min as nat, sec as nat),
{
    format_clock(min, sec)
}

/// The message ids of the notification that announces a lap of type
/// `lap_type`: its title, its body, and the label of its start button.
pub fn notification_messages(lap_type: LapType) -> (res: (&'static str, &'static str, &'static str))
    ensures
        lap_type == LapType::Pomodoro ==> res.0@ == "Back to Work"@ && res.1@
            == "Ready to keep working?"@ && res.2@ == "Start Working"@,
        lap_type == LapType::Break ==> res.0@ == "Break Time"@ && res.1@
            == "Stretch your legs, and drink some water."@ && res.2@ == "Start Break"@,
{
    match lap_type {
        LapType::Pomodoro => ("Back to Work", "Ready to keep working?", "Start Working"),
        LapType::Break => ("Break Time", "Stretch your legs, and drink some water.", "Start Break"),
    }
}

impl SolanumWindow {
    /// A new session at `now`: on the first work lap, with the timer stopped
    /// and set to a work lap; also what the window shows at first.
    pub fn new(settings: &Settings, now: u64) -> (res: (SolanumWindow, LapUpdate))
        requires
            minutes_fit(settings.lap_length),
        ensures
            res.0@ == (WindowView {
                pomodoro_count: 1,
                lap_type: LapType::Pomodoro,
                timer: TimerView::initial().with_minutes(settings.lap_length, now),
            }),
            res.0@.wf(),
            res.1.lap_label == LapLabel::Lap(1),
            res.1.timer_label@ == clock_text(settings.lap_length as nat, 0),
    {
        let mut timer = Timer::new();
        let min = settings.lap_length;
        timer.set_duration(min, now);
        let win = SolanumWindow { pomodoro_count: 1, timer, lap_type: LapType::Pomodoro };
        let label = win.lap_label();
        (win, LapUpdate { lap_label: label, timer_label: format_clock(min, 0) })
    }

    /// The work-lap count.
    pub fn pomodoro_count(&self) -> (res: u32)
        ensures
            res == self@.pomodoro_count,
    {
        self.pomodoro_count
    }

    /// The type of the current lap.
    pub fn lap_type(&self) -> (res: LapType)
        ensures
            res == self@.lap_type,
    {
        self.lap_type
    }

    /// The timer.
    pub fn timer(&self) -> (res: &Timer)
        ensures
            res@ == self@.timer,
    {
        &self.timer
    }

    /// The label of a work lap: its number.
    pub fn lap_label(&self) -> (res: LapLabel)
        ensures
            res == LapLabel::Lap(self@.pomodoro_count),
    {
        LapLabel::Lap(self.pomodoro_count)
    }

    /// The length in minutes of a lap of type `lap_type` that would start now.
    pub fn lap_length_of(&self, lap_type: LapType, settings: &Settings) -> (res: u32)
        ensures
            res == lap_minutes(self@.pomodoro_count, lap_type, *settings),
    {
        match lap_type {
            LapType::Pomodoro => settings.lap_length,
            LapType::Break => if self.pomodoro_count >= settings.sessions_until_long_break {
                settings.long_break_length
            } else {
                settings.short_break_length
            },
        }
    }

    /// Moves to a lap of type `lap_type` at `now`: sets the timer to the
    /// lap's length and, on a break, moves the work-lap count on.
    pub fn update_lap(&mut self, lap_type: LapType, settings: &Settings, now: u64) -> (res: LapUpdate)
        requires
            old(self)@.wf(),
            old(self)@.can_start(lap_type, *settings),
        ensures
            final(self)@ == old(self)@.with_lap(lap_type, *settings, now),
            final(self)@.wf(),
            res.lap_label == lap_label_for(old(self)@.pomodoro_count, lap_type, *settings),
            res.timer_label@ == clock_text(
                lap_minutes(old(self)@.pomodoro_count, lap_type, *settings) as nat,
                0,
            ),
            final(self)@.timer.duration == (match res.lap_label {
                LapLabel::Lap(_) => settings.lap_length,
                LapLabel::ShortBreak => settings.short_break_length,
                LapLabel::LongBreak => settings.long_break_length,
            } * 60 * crate::timer::NANOS_PER_SEC) as u64,
            lap_type == LapType::Pomodoro ==> res.lap_label == LapLabel::Lap(
                old(self)@.pomodoro_count,
            ),
            lap_type == LapType::Break ==> (res.lap_label == LapLabel::LongBreak)
                == (old(self)@.pomodoro_count >= settings.sessions_until_long_break),
            lap_type == LapType::Break ==> !(res.lap_label is Lap),
    {
        self.lap_type = lap_type;
        match lap_type {
            LapType::Pomodoro => {
                let length = settings.lap_length;
                let label = self.lap_label();
                self.timer.set_duration(length, now);
                let timer_label = set_timer_label_from_secs(length * 60);
                LapUpdate { lap_label: label, timer_label }
            },
            LapType::Break => {
                if self.pomodoro_count >= settings.sessions_until_long_break {
                    let length = settings.long_break_length;
                    self.pomodoro_count = 1;
                    self.timer.set_duration(length, now);
                    let timer_label = set_timer_label_from_secs(length * 60);
                    LapUpdate { lap_label: LapLabel::LongBreak, timer_label }
                } else {
                    let length = settings.short_break_length;
                    self.pomodoro_count = self.pomodoro_count + 1;
                    self.timer.set_duration(length, now);
                    let timer_label = set_timer_label_from_secs(length * 60);
                    LapUpdate { lap_label: LapLabel::ShortBreak, timer_label }
                }
            },
        }
    }

    /// The timer button: starts the timer if it is stopped, stops it if it
    /// runs.
    pub fn toggle_timer(&mut self, settings: &Settings, now: u64) -> (res: ToggleOutcome)
        requires
            old(self)@.wf(),
        ensures
            final(self)@ == old(self)@.toggled(now),
            final(self)@.wf(),
            res == old(self)@.toggle_outcome(*settings),
            !settings.fullscreen_break ==> res.fullscreen is None,
            res.started == !old(self)@.timer.running,
            res.started && settings.fullscreen_break ==> res.fullscreen == Some(
                old(self)@.lap_type == LapType::Break,
            ),
    {
        let start_timer = !self.timer.running();
        if start_timer {
            self.timer.start(now);
            let fullscreen = if settings.fullscreen_break {
                Some(self.lap_type == LapType::Break)
            } else {
                None
            };
            ToggleOutcome { started: true, fullscreen }
        } else {
            self.timer.stop(now);
            ToggleOutcome { started: false, fullscreen: None }
        }
    }

    /// Back to the start: the timer stopped, the count at 1, a work lap.
    pub fn reset(&mut self, settings: &Settings, now: u64) -> (res: LapUpdate)
        requires
            old(self)@.wf(),
            minutes_fit(settings.lap_length),
        ensures
            final(self)@ == old(self)@.reset_to(*settings, now),
            final(self)@.wf(),
            res.lap_label == LapLabel::Lap(1),
            res.timer_label@ == clock_text(settings.lap_length as nat, 0),
    {
        self.timer.stop(now);
        self.pomodoro_count = 1;
        self.update_lap(LapType::Pomodoro, settings, now)
    }

    /// Moves on to the lap after the current one at `now`; where `notify`
    /// holds, the new lap is to be announced.
    pub fn next_lap(&mut self, notify: bool, settings: &Settings, now: u64) -> (res: NextLap)
        requires
            old(self)@.wf(),
            old(self)@.can_start(following_lap(old(self)@.lap_type), *settings),
        ensures
            final(self)@ == old(self)@.advanced(*settings, now),
            final(self)@.wf(),
            res.update.lap_label == lap_label_for(
                old(self)@.pomodoro_count,
                following_lap(old(self)@.lap_type),
                *settings,
            ),
            res.update.timer_label@ == clock_text(
                lap_minutes(old(self)@.pomodoro_count, following_lap(old(self)@.lap_type), *settings)
                    as nat,
                0,
            ),
            res.notification == (if notify {
                Some(following_lap(old(self)@.lap_type))
            } else {
                None
            }),
    {
        let next = next_lap_type(self.lap_type);
        let update = self.update_lap(next, settings, now);
        let notification = if notify { Some(next) } else { None };
        NextLap { update, notification }
    }

    /// The skip action: moves on to the next lap without an announcement.
    pub fn skip(&mut self, settings: &Settings, now: u64) -> (res: LapUpdate)
        requires
            old(self)@.wf(),
            old(self)@.can_start(following_lap(old(self)@.lap_type), *settings),
        ensures
            final(self)@ == old(self)@.advanced(*settings, now),
            final(self)@.wf(),
            res.lap_label == lap_label_for(
                old(self)@.pomodoro_count,
                following_lap(old(self)@.lap_type),
                *settings,
            ),
            res.timer_label@ == clock_text(
                lap_minutes(old(self)@.pomodoro_count, following_lap(old(self)@.lap_type), *settings)
                    as nat,
                0,
            ),
    {
        let next = self.next_lap(false, settings, now);
        next.update
    }

    /// What happens when the timer runs out: the timer is stopped, and the
    /// session moves on to the next lap, which is announced.
    pub fn lap_finished(&mut self, settings: &Settings, now: u64) -> (res: (ToggleOutcome, NextLap))
        requires
            old(self)@.wf(),
            old(self)@.can_start(following_lap(old(self)@.lap_type), *settings),
        ensures
            final(self)@ == old(self)@.toggled(now).advanced(*settings, now),
            final(self)@.wf(),
            res.0 == old(self)@.toggle_outcome(*settings),
            res.1.update.lap_label == lap_label_for(
                old(self)@.pomodoro_count,
                following_lap(old(self)@.lap_type),
                *settings,
            ),
            res.1.update.timer_label@ == clock_text(
                lap_minutes(old(self)@.pomodoro_count, following_lap(old(self)@.lap_type), *settings)
                    as nat,
                0,
            ),
            res.1.notification == Some(following_lap(old(self)@.lap_type)),
    {
        let toggled = self.toggle_timer(settings, now);
        let next = self.next_lap(true, settings, now);
        (toggled, next)
    }

    /// One tick of the timer at `now`.
    pub fn tick(&mut self, now: u64) -> (res: TickOutcome)
        requires
            old(self)@.wf(),
        ensures
            res == old(self)@.timer.tick_outcome(now),
            final(self)@ == (WindowView { timer: old(self)@.timer.ticked(now), ..old(self)@ }),
            final(self)@.wf(),
    {
        self.timer.tick(now)
    }
}

} // verus!
