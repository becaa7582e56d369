//! The playback clock: a stopwatch over a monotonic clock that counts
//! nanoseconds. It never asks the audio backend how far it has played.

use vstd::prelude::*;

verus! {

/// Nanoseconds between two readings of the clock; zero where the later one
/// is not later.
pub open spec fn gap(now: nat, since: nat) -> nat {
    if now >= since {
        (now - since) as nat
    } else {
        0
    }
}

/// The sum of two spans, held at the largest span that can be counted.
pub open spec fn capped(total: nat) -> nat {
    if total > u128::MAX {
        u128::MAX as nat
    } else {
        total
    }
}

/// A stopwatch as plain values: the time gathered over finished runs, the
/// reading at which the current run began, and whether a run is under way.
pub struct StopwatchView {
    pub time: nat,
    pub started: nat,
    pub running: bool,
}

impl StopwatchView {
    /// The time gathered is a span that can be counted.
    pub open spec fn wf(self) -> bool {
        self.time <= u128::MAX
    }

    /// Elapsed time at the reading `now`.
    pub open spec fn elapsed(self, now: nat) -> nat {
        if self.running {
            capped(self.time + gap(now, self.started))
        } else {
            self.time
        }
    }

    /// The stopwatch after `start` at `now`: running from `now`, unless it
    /// ran already.
    pub open spec fn start(self, now: nat) -> StopwatchView {
        if self.running {
            self
        } else {
            StopwatchView { time: self.time, started: now, running: true }
        }
    }

    /// The stopwatch after `stop` at `now`: stopped, the run up to `now`
    /// added to the time gathered, unless it stood already.
    pub open spec fn stop(self, now: nat) -> StopwatchView {
        if self.running {
            StopwatchView { time: self.elapsed(now), started: self.started, running: false }
        } else {
            self
        }
    }

    /// The stopwatch after `reset` at `now`: nothing gathered, and running
    /// or stopped as it was; a run that is under way begins anew at `now`.
    pub open spec fn reset(self, now: nat) -> StopwatchView {
        StopwatchView { time: 0, started: now, running: self.running }
    }
}

/// The time gathered over finished runs, the reading at which the current
/// run began, and whether a run is under way.
pub struct Stopwatch {
    time: u128,
    started: u128,
    running: bool,
}

impl View for Stopwatch {
    type V = StopwatchView;

    closed spec fn view(&self) -> StopwatchView {
        StopwatchView {
            time: self.time as nat,
            started: self.started as nat,
            running: self.running,
        }
    }
}

impl Stopwatch {
    /// What a stopwatch has gathered can be counted.
    pub proof fn counts_in_range(&self)
        ensures
            self@.wf(),
    {
    }

    /// A stopped stopwatch that has counted nothing.
    pub fn new(now: u128) -> (s: Stopwatch)
        ensures
            s@ == (StopwatchView { time: 0, started: now as nat, running: false }),
    {
        Stopwatch { time: 0, started: now, running: false }
    }

    /// Whether a run is under way.
    pub fn is_running(&self) -> (b: bool)
        ensures
            b == self@.running,
    {
        self.running
    }

    /// Begins a run at `now`; does nothing while one is under way.
    pub fn start(&mut self, now: u128)
        ensures
            final(self)@ == old(self)@.start(now as nat),
    {
        if self.running {
            return ;
        }
        self.running = true;
        self.started = now;
    }

    /// Ends the run at `now` and adds it to the time gathered; does nothing
    /// while stopped.
    pub fn stop(&mut self, now: u128)
        ensures
            final(self)@ == old(self)@.stop(now as nat),
    {
        if !self.running {
            return ;
        }
        self.running = false;
        self.time = self.time.saturating_add(now.saturating_sub(self.started));
    }

    /// Forgets the time gathered and lets the run, if one is under way,
    /// begin anew at `now`.
    pub fn reset(&mut self, now: u128)
        ensures
            final(self)@ == old(self)@.reset(now as nat),
    {
        self.time = 0;
        self.started = now;
    }

    /// Elapsed time at `now`.
    pub fn time(&self, now: u128) -> (t: u128)
        ensures
            t as nat == self@.elapsed(now as nat),
    {
        if self.running {
            self.time.saturating_add(now.saturating_sub(self.started))
        } else {
            self.time
        }
    }
}

/// Right after a reset the stopwatch shows zero.
pub proof fn elapsed_after_reset_is_zero(s: StopwatchView, now: nat)
    ensures
        s.reset(now).elapsed(now) == 0,
{
}

/// A run that begins on a stopped stopwatch and ends `d` later adds `d` to
/// what the stopwatch showed, up to the largest span it can count.
pub proof fn run_adds_its_length(s: StopwatchView, begin: nat, d: nat, later: nat)
    requires
        s.wf(),
        !s.running,
    ensures
        s.start(begin).stop(begin + d).elapsed(later) == capped(s.time + d),
{
}

/// A run that ends at `end` on a stopwatch that began it at or before `end`
/// stops the stopwatch and adds the length of the run to the time
/// gathered, where the sum is a span that can be counted.
pub proof fn stop_adds_the_run(s: StopwatchView, end: nat)
    requires
        s.running,
        s.started <= end,
        s.time + (end - s.started) <= u128::MAX,
    ensures
        !s.stop(end).running,
        s.stop(end).time == s.time + (end - s.started),
{
}

/// On a stopwatch that has counted nothing, a run from `begin` to `end`
/// shows its length, whatever the clock then reads.
pub proof fn first_run_shows_its_length(started: nat, begin: nat, end: nat, later: nat)
    requires
        begin <= end,
        end - begin <= u128::MAX,
    ensures
        (StopwatchView { time: 0, started, running: false }).start(begin).stop(end).elapsed(later)
            == end - begin,
{
}

/// A stopped stopwatch that is started at `begin` and stopped at `end` is
/// stopped again, with the time between the two added to what it had
/// gathered, where the sum is a span that can be counted.
pub proof fn start_then_stop_adds_the_interval(s: StopwatchView, begin: nat, end: nat)
    requires
        !s.running,
        begin <= end,
        s.time + (end - begin) <= u128::MAX,
    ensures
        !s.start(begin).stop(end).running,
        s.start(begin).stop(end).time == s.time + (end - begin),
{
}

/// A second `start` in a row changes nothing.
pub proof fn start_twice_is_start_once(s: StopwatchView, first: nat, second: nat)
    ensures
        s.start(first).start(second) == s.start(first),
{
}

/// A second `stop` in a row changes nothing.
pub proof fn stop_twice_is_stop_once(s: StopwatchView, first: nat, second: nat)
    ensures
        s.stop(first).stop(second) == s.stop(first),
{
}

/// Once stopped, the stopwatch shows the same time at every later reading.
pub proof fn stopped_time_is_stable(s: StopwatchView, at: nat, now: nat, later: nat)
    ensures
        s.stop(at).elapsed(now) == s.stop(at).elapsed(later),
{
}

/// While running, the time shown never goes back as the clock goes on.
pub proof fn elapsed_never_decreases(s: StopwatchView, now: nat, later: nat)
    requires
        now <= later,
    ensures
        s.elapsed(now) <= s.elapsed(later),
{
}

} // verus!
