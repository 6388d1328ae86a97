//! The countdown timer: its state, and what each call and each tick does to it.
//!
//! Times are counted in nanoseconds. `now` is a reading of a monotonic clock,
//! taken by the caller, in nanoseconds since a fixed point of its choosing.
use vstd::prelude::*;

verus! {

/// The kind of the lap that is running: work, or a break.
#[derive(Copy, Clone, Debug, PartialEq, Eq, Structural)]
pub enum LapType {
    Pomodoro,
    Break,
}

impl Default for LapType {
    fn default() -> (res: Self)
        ensures
            res == LapType::Pomodoro,
    {
        LapType::Pomodoro
    }
}

/// The lap that follows a lap of type `t`.
pub open spec fn following_lap(t: LapType) -> LapType {
    match t {
        LapType::Pomodoro => LapType::Break,
        LapType::Break => LapType::Pomodoro,
    }
}

/// Returns the lap type that follows `t`.
pub fn next_lap_type(t: LapType) -> (res: LapType)
    ensures
        res == following_lap(t),
{
    match t {
        LapType::Pomodoro => LapType::Break,
        LapType::Break => LapType::Pomodoro,
    }
}

/// Nanoseconds in a second.
pub const NANOS_PER_SEC: u64 = 1_000_000_000;

/// Whole minutes in a span of `nanos` nanoseconds.
pub open spec fn minutes_of(nanos: nat) -> nat {
    nanos / (NANOS_PER_SEC as nat) / 60
}

/// Seconds past the whole minutes in a span of `nanos` nanoseconds.
pub open spec fn seconds_of(nanos: nat) -> nat {
    (nanos / (NANOS_PER_SEC as nat)) % 60
}

/// Splits a span of `nanos` nanoseconds into whole minutes and the seconds
/// past them; the part below a second is dropped.
pub fn duration_to_mins_and_secs(nanos: u64) -> (res: (u32, u32))
    ensures
        res.0 as nat == minutes_of(nanos as nat),
        res.1 as nat == seconds_of(nanos as nat),
        res.1 < 60,
        res.0 * 60 + res.1 == nanos / NANOS_PER_SEC,
{
    let seconds = nanos / NANOS_PER_SEC;
    let minutes = seconds / 60;
    let seconds = seconds % 60;
    assert(minutes <= u32::MAX);
    (minutes as u32, seconds as u32)
}

/// What a tick of the timer reports.
#[derive(Copy, Clone, Debug, PartialEq, Eq, Structural)]
pub enum TickOutcome {
    /// Time is left: this much, in whole minutes and seconds. Ticking goes on.
    Countdown { minutes: u32, seconds: u32 },
    /// The time ran out: the lap type has turned over. Ticking stops.
    Lap,
    /// The timer is not running. Ticking stops.
    Idle,
}

/// The state of a timer.
pub struct TimerView {
    pub running: bool,
    /// The clock reading from which elapsed time is counted, once there is one.
    pub instant: Option<u64>,
    /// The time left on the countdown when `instant` was taken, in nanoseconds.
    pub duration: u64,
    pub lap_type: LapType,
}

impl TimerView {
    /// A running timer always has a reading to count from.
    pub open spec fn wf(self) -> bool {
        self.running ==> self.instant is Some
    }

    /// The time elapsed since `instant` at the clock reading `now`; none if
    /// `now` is earlier.
    pub open spec fn elapsed(self, now: u64) -> nat
        recommends
            self.instant is Some,
    {
        let start = self.instant->0;
        if now >= start { (now - start) as nat } else { 0 }
    }

    /// The time left at `now`, if the countdown has not run out.
    pub open spec fn remaining(self, now: u64) -> Option<nat>
        recommends
            self.instant is Some,
    {
        if self.elapsed(now) <= self.duration { Some((self.duration - self.elapsed(now)) as nat) } else { None }
    }

    /// A new timer: stopped, with no reading, no time, and a work lap.
    pub open spec fn initial() -> TimerView {
        TimerView { running: false, instant: None, duration: 0, lap_type: LapType::Pomodoro }
    }

    /// The state after setting the countdown to `minutes` minutes at `now`.
    pub open spec fn with_minutes(self, minutes: u32, now: u64) -> TimerView {
        TimerView {
            instant: Some(now),
            duration: (minutes * 60 * NANOS_PER_SEC) as u64,
            ..self
        }
    }

    /// The state after starting the timer at `now`.
    pub open spec fn started(self, now: u64) -> TimerView {
        TimerView { running: true, instant: Some(now), ..self }
    }

    /// The state after stopping the timer at `now`: the time left becomes the
    /// countdown, so that a later start resumes where this one left off. Where
    /// the time has run out, the countdown is kept as it was.
    pub open spec fn stopped(self, now: u64) -> TimerView
        recommends
            self.instant is Some,
    {
        TimerView {
            running: false,
            duration: match self.remaining(now) {
                Some(r) => r as u64,
                None => self.duration,
            },
            ..self
        }
    }

    /// What a tick at `now` reports.
    pub open spec fn tick_outcome(self, now: u64) -> TickOutcome
        recommends
            self.wf(),
    {
        if !self.running {
            TickOutcome::Idle
        } else {
            match self.remaining(now) {
                Some(r) => TickOutcome::Countdown {
                    minutes: minutes_of(r) as u32,
                    seconds: seconds_of(r) as u32,
                },
                None => TickOutcome::Lap,
            }
        }
    }

    /// The state after a tick at `now`: when the time has run out, the lap
    /// type turns over; nothing else changes.
    pub open spec fn ticked(self, now: u64) -> TimerView
        recommends
            self.wf(),
    {
        if self.tick_outcome(now) == TickOutcome::Lap {
            TimerView { lap_type: following_lap(self.lap_type), ..self }
        } else {
            self
        }
    }
}

/// A lap is followed by a lap of the other type, and the one after that is of
/// the first type again: work and breaks alternate.
pub proof fn lemma_laps_alternate(t: LapType)
    ensures
        following_lap(t) != t,
        following_lap(following_lap(t)) == t,
{
}

/// A pause does not count: a timer started at `t0`, stopped at `t1`, started
/// again at `t2` and read at `t3` has as much time left as one that ran
/// without a pause for `t1 - t0` plus `t3 - t2`, provided the first run did
/// not use up the time.
pub proof fn lemma_pause_resumes(v: TimerView, t0: u64, t1: u64, t2: u64, t3: u64)
    requires
        t0 <= t1 <= t2 <= t3,
        t1 - t0 <= v.duration,
    ensures
        v.started(t0).stopped(t1).started(t2).remaining(t3) == (if (t1 - t0) + (t3 - t2)
            <= v.duration {
            Some((v.duration - (t1 - t0) - (t3 - t2)) as nat)
        } else {
            None
        }),
        v.started(t0).stopped(t1).started(t2).running,
{
}

/// The countdown never goes back up while the timer runs: a later tick shows
/// no more time left than an earlier one, and once the time has run out it
/// stays run out.
pub proof fn lemma_countdown_monotone(v: TimerView, t1: u64, t2: u64)
    requires
        v.wf(),
        v.running,
        t1 <= t2,
    ensures
        v.remaining(t1) is None ==> v.remaining(t2) is None,
        v.remaining(t2) is Some ==> v.remaining(t2)->0 <= v.remaining(t1)->0,
        v.tick_outcome(t1) == TickOutcome::Lap ==> v.tick_outcome(t2) == TickOutcome::Lap,
{
}

/// What a tick shows is the time left, in whole seconds, split into minutes
/// and seconds below 60.
pub proof fn lemma_countdown_shows_remaining(v: TimerView, now: u64)
    requires
        v.wf(),
        v.running,
        v.remaining(now) is Some,
    ensures
        v.tick_outcome(now) matches TickOutcome::Countdown { minutes, seconds } && seconds < 60
            && minutes * 60 + seconds == v.remaining(now)->0 / (NANOS_PER_SEC as nat),
{
    let r = v.remaining(now)->0;
    assert(r <= u64::MAX);
    assert(minutes_of(r) <= u32::MAX);
}

/// A tick turns the lap over exactly when the time has run out, and a timer
/// that is not running does nothing on a tick.
pub proof fn lemma_tick_turns_lap(v: TimerView, now: u64)
    requires
        v.wf(),
    ensures
        (v.tick_outcome(now) == TickOutcome::Lap) == (v.running && v.remaining(now) is None),
        v.tick_outcome(now) == TickOutcome::Lap ==> v.ticked(now).lap_type == following_lap(
            v.lap_type,
        ),
        v.tick_outcome(now) != TickOutcome::Lap ==> v.ticked(now) == v,
        !v.running ==> v.tick_outcome(now) == TickOutcome::Idle,
{
}

/// Stopping never adds time to the countdown.
pub proof fn lemma_stop_never_adds_time(v: TimerView, now: u64)
    requires
        v.instant is Some,
    ensures
        v.stopped(now).duration <= v.duration,
        !v.stopped(now).running,
{
}

/// Whether `minutes` minutes, counted in seconds, fit in a `u32`.
pub open spec fn minutes_fit(minutes: u32) -> bool {
    minutes * 60 <= u32::MAX
}

/// A countdown timer that turns laps over when its time runs out.
pub struct Timer {
    running: bool,
    instant: Option<u64>,
    duration: u64,
    lap_type: LapType,
}

impl View for Timer {
    type V = TimerView;

    closed spec fn view(&self) -> TimerView {
        TimerView {
            running: self.running,
            instant: self.instant,
            duration: self.duration,
            lap_type: self.lap_type,
        }
    }
}

impl Timer {
    /// A stopped timer with no time set, on a work lap.
    pub fn new() -> (res: Timer)
        ensures
            res@ == TimerView::initial(),
            res@.wf(),
    {
        Timer { running: false, instant: None, duration: 0, lap_type: LapType::Pomodoro }
    }

    /// Sets the countdown to `minutes` minutes, counted from `now`.
    pub fn set_duration(&mut self, minutes: u32, now: u64)
        requires
            old(self)@.wf(),
            minutes_fit(minutes),
        ensures
            final(self)@ == old(self)@.with_minutes(minutes, now),
            final(self)@.wf(),
    {
        let secs: u32 = minutes * 60;
        assert(secs as u64 * NANOS_PER_SEC <= u64::MAX);
        self.instant = Some(now);
        self.duration = secs as u64 * NANOS_PER_SEC;
    }

    /// Starts the countdown at `now`.
    pub fn start(&mut self, now: u64)
        requires
            old(self)@.wf(),
        ensures
            final(self)@ == old(self)@.started(now),
            final(self)@.wf(),
    {
        self.instant = Some(now);
        self.running = true;
    }

    /// One tick of a running countdown at `now`: reports the time left, or,
    /// once it has run out, turns the lap type over and reports the lap.
    pub fn tick(&mut self, now: u64) -> (res: TickOutcome)
        requires
            old(self)@.wf(),
        ensures
            res == old(self)@.tick_outcome(now),
            final(self)@ == old(self)@.ticked(now),
            final(self)@.wf(),
    {
        if self.running {
            let start = match self.instant {
                Some(i) => i,
                None => 0,
            };
            let elapsed = now.saturating_sub(start);
            if elapsed <= self.duration {
                let (minutes, seconds) = duration_to_mins_and_secs(self.duration - elapsed);
                TickOutcome::Countdown { minutes, seconds }
            } else {
                let new_lt = if self.lap_type == LapType::Pomodoro {
                    LapType::Break
                } else {
                    LapType::Pomodoro
                };
                self.set_lap_type(new_lt);
                TickOutcome::Lap
            }
        } else {
            TickOutcome::Idle
        }
    }

    /// Stops the countdown at `now`, keeping the time left for the next start.
    pub fn stop(&mut self, now: u64)
        requires
            old(self)@.wf(),
            old(self)@.instant is Some,
        ensures
            final(self)@ == old(self)@.stopped(now),
            final(self)@.wf(),
    {
        self.running = false;
        let start = match self.instant {
            Some(i) => i,
            None => 0,
        };
        let elapsed = now.saturating_sub(start);
        if elapsed <= self.duration {
            self.duration = self.duration - elapsed;
        }
    }

    /// Sets the lap type.
    pub fn set_lap_type(&mut self, new_type: LapType)
        requires
            old(self)@.wf(),
        ensures
            final(self)@ == (TimerView { lap_type: new_type, ..old(self)@ }),
            final(self)@.wf(),
    {
        self.lap_type = new_type;
    }

    /// The lap type.
    pub fn lap_type(&self) -> (res: LapType)
        ensures
            res == self@.lap_type,
    {
        self.lap_type
    }

    /// Whether the countdown is running.
    pub fn running(&self) -> (res: bool)
        ensures
            res == self@.running,
    {
        self.running
    }

    /// The time left on the countdown when it was last set, started or
    /// stopped, in nanoseconds.
    pub fn duration(&self) -> (res: u64)
        ensures
            res == self@.duration,
    {
        self.duration
    }
}

} // verus!
