//! The source of a session's events: between two ticks of the timer it
//! waits for a key, and it hands on what came first.

use crate::clock::Clock;
use crate::session::Key;
use crate::stopwatch::gap;
use vstd::prelude::*;

verus! {

/// Nanoseconds from one tick of the timer to the next.
pub const TICK_RATE: u128 = 100_000_000;

/// What the source sends after a wait, in this order: the key, if one was
/// pressed; then the tick, if it is due. After `done` it sends no more.
#[derive(Debug, Clone, Copy, PartialEq, Eq)]
pub struct Wake {
    pub input: Option<Key>,
    pub tick: bool,
    pub done: bool,
}

/// The timer as a plain value: the clock reading of the last tick.
pub struct TickerView {
    pub last_tick: nat,
}

impl TickerView {
    /// A tick is due at `now`.
    pub open spec fn due(self, now: nat) -> bool {
        gap(now, self.last_tick) >= TICK_RATE
    }

    /// How long to wait for a key at `now`: until the next tick is due.
    pub open spec fn timeout(self, now: nat) -> nat {
        if self.due(now) {
            0
        } else {
            (TICK_RATE - gap(now, self.last_tick)) as nat
        }
    }

    /// The escape key ends the source, and no tick follows it.
    pub open spec fn done(key: Option<Key>) -> bool {
        key == Some(Key::Esc)
    }

    /// A tick is sent at `now`, after the wait that brought `key`.
    pub open spec fn ticks(self, key: Option<Key>, now: nat) -> bool {
        !Self::done(key) && self.due(now)
    }

    /// The timer after the wait: a tick that was sent counts from `now`.
    pub open spec fn after(self, key: Option<Key>, now: nat) -> TickerView {
        if self.ticks(key, now) {
            TickerView { last_tick: now }
        } else {
            self
        }
    }
}

/// The timer of the source of events.
pub struct Ticker {
    last_tick: u128,
}

impl View for Ticker {
    type V = TickerView;

    closed spec fn view(&self) -> TickerView {
        TickerView { last_tick: self.last_tick as nat }
    }
}

impl Ticker {
    /// A timer whose last tick was at `now`.
    pub fn new(now: u128) -> (t: Ticker)
        ensures
            t@ == (TickerView { last_tick: now as nat }),
    {
        Ticker { last_tick: now }
    }

    /// How long to wait for a key at `now`.
    pub fn timeout(&self, now: u128) -> (wait: u128)
        ensures
            wait == self@.timeout(now as nat),
    {
        TICK_RATE.saturating_sub(now.saturating_sub(self.last_tick))
    }

    /// How long to wait for a key at the time that `clock` shows: no longer
    /// than from one tick to the next.
    pub fn timeout_on(&self, clock: &Clock) -> (wait: u128)
        ensures
            exists|now: nat| wait == #[trigger] self@.timeout(now),
            wait <= TICK_RATE,
    {
        let now = clock.now();
        self.timeout(now)
    }

    /// What to send after a wait that ended at `now` with `key`, or with no
    /// key where the wait ran out.
    pub fn poll(&mut self, key: Option<Key>, now: u128) -> (wake: Wake)
        ensures
            wake.input == key,
            wake.done == TickerView::done(key),
            wake.tick == old(self)@.ticks(key, now as nat),
            final(self)@ == old(self)@.after(key, now as nat),
    {
        let done = match key {
            Some(Key::Esc) => true,
            _ => false,
        };
        let tick = !done && now.saturating_sub(self.last_tick) >= TICK_RATE;
        if tick {
            self.last_tick = now;
        }
        Wake { input: key, tick, done }
    }

    /// What to send after a wait that ended with `key` at the time that
    /// `clock` shows.
    pub fn poll_on(&mut self, key: Option<Key>, clock: &Clock) -> (wake: Wake)
        ensures
            wake.input == key,
            wake.done == TickerView::done(key),
            wake.done ==> !wake.tick,
            exists|now: nat|
                {
                    &&& wake.tick == #[trigger] old(self)@.ticks(key, now)
                    &&& final(self)@ == old(self)@.after(key, now)
                },
    {
        let now = clock.now();
        self.poll(key, now)
    }
}

/// A wait that runs out ends when the next tick is due, and not before.
pub proof fn timeout_ends_at_the_tick(t: TickerView, now: nat, waited: nat)
    requires
        now >= t.last_tick,
    ensures
        t.due(now + t.timeout(now)),
        waited < t.timeout(now) ==> !t.due(now + waited),
{
}

/// After a tick the next one is due a full `TICK_RATE` later, and not
/// before.
pub proof fn ticks_are_a_rate_apart(t: TickerView, key: Option<Key>, now: nat, later: nat)
    requires
        t.ticks(key, now),
        later >= now,
    ensures
        t.after(key, now).due(later) <==> later - now >= TICK_RATE,
{
}

/// A wait that a key ended before the tick was due leaves the timer as it
/// was, so the key does not put the tick off.
pub proof fn key_does_not_delay_tick(t: TickerView, key: Option<Key>, now: nat)
    requires
        !t.due(now),
    ensures
        t.after(key, now) == t,
        !t.ticks(key, now),
{
}

} // verus!
