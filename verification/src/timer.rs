//! A pausable stopwatch (`Timer`) and a countdown built on it
//! (`CountDownTimer`), together with the `D:HH:MM:SS` time formatting.
//!
//! Neither type reads a clock by itself: every operation that depends on the
//! current time takes a `now` argument, a timestamp in milliseconds from an
//! arbitrary fixed origin of a monotonic clock.

use vstd::prelude::*;

verus! {

/// Clamps a mathematical integer into the `u64` range from above.
pub open spec fn clamp_u64(x: int) -> u64 {
    if x > u64::MAX { u64::MAX } else { x as u64 }
}

/// A stopwatch that accumulates elapsed time across pause/resume cycles.
///
/// While running, `start` records the timestamp of the last `init` or
/// `resume`; `elapsed_time` holds only the time accumulated before that
/// point (folded in on `pause`).
pub struct Timer {
    pub start: Option<u64>,
    pub elapsed_time: u64,
    pub paused: bool,
}

impl Timer {
    /// Well-formed: the timer is paused exactly when no start timestamp is
    /// recorded, so `elapsed_time` never double-counts a running stretch.
    pub open spec fn wf(self) -> bool {
        self.paused <==> self.start is None
    }

    /// The state of a freshly created, paused timer.
    pub open spec fn new_spec() -> Timer {
        Timer { start: None, elapsed_time: 0, paused: true }
    }

    /// The state of a timer (re)started at `now`: no accumulation, running.
    pub open spec fn started_at(now: u64) -> Timer {
        Timer { start: Some(now), elapsed_time: 0, paused: false }
    }

    /// The reading of the stopwatch at time `now`: the accumulated time,
    /// plus the time since `start` while running, saturating at `u64::MAX`.
    pub open spec fn elapsed_spec(self, now: u64) -> u64 {
        match self.start {
            None => self.elapsed_time,
            Some(s) => clamp_u64(self.elapsed_time + (if now >= s { now - s } else { 0 })),
        }
    }

    /// The state after pausing at `now`: the running stretch is folded into
    /// `elapsed_time` and the start mark is cleared.
    pub open spec fn pause_spec(self, now: u64) -> Timer {
        Timer { start: None, elapsed_time: self.elapsed_spec(now), paused: true }
    }

    /// The state after resuming at `now`: the accumulation is kept and a new
    /// running stretch begins.
    pub open spec fn resume_spec(self, now: u64) -> Timer {
        Timer { start: Some(now), elapsed_time: self.elapsed_time, paused: false }
    }

    pub fn new() -> (t: Timer)
        ensures
            t == Timer::new_spec(),
            t.wf(),
    {
        Timer { start: None, elapsed_time: 0, paused: true }
    }

    /// Resets the accumulated time and starts running at `now`.
    pub fn init(&mut self, now: u64)
        ensures
            *final(self) == Timer::started_at(now),
            final(self).wf(),
    {
        self.elapsed_time = 0;
        self.start = Some(now);
        self.paused = false;
    }

    /// Stops the stopwatch at `now`, folding the running stretch into the
    /// accumulated time. May only be called on a running timer.
    pub fn pause(&mut self, now: u64)
        requires
            old(self).wf(),
            !old(self).paused,
        ensures
            *final(self) == old(self).pause_spec(now),
            final(self).wf(),
            final(self).elapsed_time == old(self).elapsed_spec(now),
    {
        let s = self.start.unwrap();
        let since: u64 = if now >= s { now - s } else { 0 };
        self.elapsed_time = if self.elapsed_time <= u64::MAX - since {
            self.elapsed_time + since
        } else {
            u64::MAX
        };
        self.start = None;
        self.paused = true;
    }

    /// Starts a new running stretch at `now`, keeping the accumulated time.
    pub fn resume(&mut self, now: u64)
        ensures
            *final(self) == old(self).resume_spec(now),
            final(self).wf(),
    {
        self.start = Some(now);
        self.paused = false;
    }

    /// The stopwatch reading at time `now`: accumulated time plus, while
    /// running, the time since the current stretch began.
    pub fn get_time(&self, now: u64) -> (r: u64)
        requires
            self.wf(),
        ensures
            r == self.elapsed_spec(now),
    {
        match self.start {
            None => self.elapsed_time,
            Some(s) => {
                let since: u64 = if now >= s { now - s } else { 0 };
                if self.elapsed_time <= u64::MAX - since {
                    self.elapsed_time + since
                } else {
                    u64::MAX
                }
            },
        }
    }

    pub fn is_paused(&self) -> (r: bool)
        ensures
            r == self.paused,
    {
        self.paused
    }
}

/// Law: a timer started at `t0`, run for `d1`, paused, resumed at `t1`, run
/// for `d2` and paused again reads exactly `d1 + d2` — the pause interval is
/// excluded and the two running stretches add up.
pub proof fn lemma_pause_resume_accumulates(t0: u64, d1: u64, t1: u64, d2: u64)
    requires
        t0 + d1 <= u64::MAX,
        t1 + d2 <= u64::MAX,
        d1 + d2 <= u64::MAX,
    ensures
        ({
            let stopped = Timer::started_at(t0).pause_spec((t0 + d1) as u64).resume_spec(
                t1,
            ).pause_spec((t1 + d2) as u64);
            &&& stopped.paused
            &&& stopped.elapsed_time == d1 + d2
            &&& forall|now: u64| stopped.elapsed_spec(now) == d1 + d2
        }),
{
}

/// A countdown: a stopwatch against a fixed limit, in milliseconds. The
/// remaining time saturates at zero, so overrun never yields a negative
/// value and exhaustion is detected by equality with zero.
pub struct CountDownTimer {
    pub core: Timer,
    pub limit: u64,
}

impl CountDownTimer {
    pub open spec fn wf(self) -> bool {
        self.core.wf()
    }

    /// The state of a freshly created countdown: limit zero, timer paused.
    pub open spec fn new_spec() -> CountDownTimer {
        CountDownTimer { core: Timer::new_spec(), limit: 0 }
    }

    /// The state after `init(limit)` at `now`: the inner timer restarts.
    pub open spec fn init_spec(self, limit: u64, now: u64) -> CountDownTimer {
        CountDownTimer { core: Timer::started_at(now), limit }
    }

    /// The remaining time at `now`: `max(limit - elapsed, 0)`.
    pub open spec fn remaining_spec(self, now: u64) -> u64 {
        if self.limit >= self.core.elapsed_spec(now) {
            (self.limit - self.core.elapsed_spec(now)) as u64
        } else {
            0
        }
    }

    pub fn new() -> (t: CountDownTimer)
        ensures
            t == CountDownTimer::new_spec(),
            t.wf(),
    {
        CountDownTimer { core: Timer::new(), limit: 0 }
    }

    /// Sets the limit and restarts the inner timer at `now`.
    pub fn init(&mut self, limit: u64, now: u64)
        ensures
            *final(self) == old(self).init_spec(limit, now),
            final(self).wf(),
    {
        self.limit = limit;
        self.core.init(now);
    }

    /// The state after pausing at `now`.
    pub open spec fn pause_spec(self, now: u64) -> CountDownTimer {
        CountDownTimer { core: self.core.pause_spec(now), limit: self.limit }
    }

    /// The state after resuming at `now`.
    pub open spec fn resume_spec(self, now: u64) -> CountDownTimer {
        CountDownTimer { core: self.core.resume_spec(now), limit: self.limit }
    }

    /// Pauses the inner timer. May only be called while running.
    pub fn pause(&mut self, now: u64)
        requires
            old(self).wf(),
            !old(self).core.paused,
        ensures
            *final(self) == old(self).pause_spec(now),
            final(self).wf(),
    {
        self.core.pause(now);
    }

    /// Resumes the inner timer at `now`.
    pub fn resume(&mut self, now: u64)
        ensures
            *final(self) == old(self).resume_spec(now),
            final(self).wf(),
    {
        self.core.resume(now);
    }

    /// The remaining time at `now`, clamped at zero: overrun never turns the
    /// reading negative.
    pub fn get_time(&self, now: u64) -> (r: u64)
        requires
            self.wf(),
        ensures
            r == self.remaining_spec(now),
            r <= self.limit,
    {
        let elapsed = self.core.get_time(now);
        if self.limit >= elapsed {
            self.limit - elapsed
        } else {
            0
        }
    }

    pub fn is_paused(&self) -> (r: bool)
        ensures
            r == self.core.paused,
    {
        self.core.is_paused()
    }
}

/// The character for one decimal digit.
pub open spec fn digit_char(d: int) -> char {
    if d == 0 {
        '0'
    } else if d == 1 {
        '1'
    } else if d == 2 {
        '2'
    } else if d == 3 {
        '3'
    } else if d == 4 {
        '4'
    } else if d == 5 {
        '5'
    } else if d == 6 {
        '6'
    } else if d == 7 {
        '7'
    } else if d == 8 {
        '8'
    } else {
        '9'
    }
}

/// The decimal digits of `n`, most significant first, without leading zeros
/// (a single `'0'` for zero itself).
pub open spec fn dec_digits(n: nat) -> Seq<char>
    decreases n,
{
    if n < 10 {
        seq![digit_char(n as int)]
    } else {
        dec_digits(n / 10).push(digit_char((n % 10) as int))
    }
}

/// The decimal digits of `n`, left-padded with `'0'` to at least two places.
pub open spec fn pad2(n: nat) -> Seq<char> {
    if n < 10 {
        seq!['0', digit_char(n as int)]
    } else {
        dec_digits(n)
    }
}

/// The `D:HH:MM:SS` rendering of a whole number of seconds. The hours field
/// is the total number of hours, `total / 3600`: it deliberately does not
/// reset at day boundaries once the day count is nonzero.
pub open spec fn time_string_spec(total: nat) -> Seq<char> {
    dec_digits(total / 86400) + seq![':'] + pad2(total / 3600) + seq![':'] + pad2(
        (total % 3600) / 60,
    ) + seq![':'] + pad2(total % 60)
}

/// The one-character string for a decimal digit.
fn digit_str(d: u64) -> (s: &'static str)
    requires
        d < 10,
    ensures
        s@ == seq![digit_char(d as int)],
{
    proof {
        reveal_strlit("0");
        reveal_strlit("1");
        reveal_strlit("2");
        reveal_strlit("3");
        reveal_strlit("4");
        reveal_strlit("5");
        reveal_strlit("6");
        reveal_strlit("7");
        reveal_strlit("8");
        reveal_strlit("9");
    }
    if d == 0 {
        proof {
            assert("0"@ =~= seq![digit_char(0)]);
        }
        "0"
    } else if d == 1 {
        proof {
            assert("1"@ =~= seq![digit_char(1)]);
        }
        "1"
    } else if d == 2 {
        proof {
            assert("2"@ =~= seq![digit_char(2)]);
        }
        "2"
    } else if d == 3 {
        proof {
            assert("3"@ =~= seq![digit_char(3)]);
        }
        "3"
    } else if d == 4 {
        proof {
            assert("4"@ =~= seq![digit_char(4)]);
        }
        "4"
    } else if d == 5 {
        proof {
            assert("5"@ =~= seq![digit_char(5)]);
        }
        "5"
    } else if d == 6 {
        proof {
            assert("6"@ =~= seq![digit_char(6)]);
        }
        "6"
    } else if d == 7 {
        proof {
            assert("7"@ =~= seq![digit_char(7)]);
        }
        "7"
    } else if d == 8 {
        proof {
            assert("8"@ =~= seq![digit_char(8)]);
        }
        "8"
    } else {
        proof {
            assert("9"@ =~= seq![digit_char(9)]);
        }
        "9"
    }
}

/// The decimal rendering of `n`, most significant digit first.
fn u64_to_dec(n: u64) -> (s: String)
    ensures
        s@ == dec_digits(n as nat),
    decreases n,
{
    if n < 10 {
        String::from_str(digit_str(n))
    } else {
        let mut s = u64_to_dec(n / 10);
        s.append(digit_str(n % 10));
        proof {
            assert(s@ =~= dec_digits(n as nat));
        }
        s
    }
}

/// The decimal rendering of `n`, zero-padded to at least two places.
fn pad_two(n: u64) -> (s: String)
    ensures
        s@ == pad2(n as nat),
{
    if n < 10 {
        proof {
            reveal_strlit("0");
        }
        let mut s = String::from_str("0");
        s.append(digit_str(n));
        proof {
            assert(s@ =~= pad2(n as nat));
        }
        s
    } else {
        u64_to_dec(n)
    }
}

/// Rendering a value as a `D:HH:MM:SS` clock string.
pub trait MyToType {
    /// The sequence of characters `to_time_string` renders.
    spec fn time_string_view(&self) -> Seq<char>;

    /// Renders the value as a `D:HH:MM:SS` clock string.
    fn to_time_string(&self) -> (s: String)
        ensures
            s@ == self.time_string_view(),
    ;
}

/// A `u64` is rendered as a whole number of seconds.
impl MyToType for u64 {
    open spec fn time_string_view(&self) -> Seq<char> {
        time_string_spec(*self as nat)
    }

    fn to_time_string(&self) -> (s: String) {
        let all_times: u64 = *self;
        let days: u64 = all_times / 86400;
        let hours: u64 = all_times / 3600;
        let mins: u64 = (all_times % 3600) / 60;
        let secs: u64 = all_times % 60;
        proof {
            reveal_strlit(":");
        }
        let mut s = u64_to_dec(days);
        s.append(":");
        let part = pad_two(hours);
        s.append(part.as_str());
        s.append(":");
        let part = pad_two(mins);
        s.append(part.as_str());
        s.append(":");
        let part = pad_two(secs);
        s.append(part.as_str());
        proof {
            assert(":"@ =~= seq![':']);
            assert(s@ =~= time_string_spec(all_times as nat));
        }
        s
    }
}

} // verus!
