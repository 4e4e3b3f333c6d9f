//! The fixed-step clock that says when the update callbacks run.

use vstd::prelude::*;

verus! {

/// Nanoseconds in a second.
pub const NANOS_PER_SECOND: u64 = 1_000_000_000;

/// The tick rate of an executor that was given none.
pub const DEFAULT_TICK_RATE: u64 = 60;

/// How often the update callbacks run: the length of a tick in nanoseconds.
#[derive(Clone, Copy, Debug, PartialEq, Eq, Structural)]
pub struct Config {
    pub tick_duration: u64,
}

impl Config {
    /// Sixty ticks a second.
    pub fn default() -> (r: Config)
        ensures
            r.tick_duration == NANOS_PER_SECOND / DEFAULT_TICK_RATE,
    {
        Config { tick_duration: calculate_tick_duration(DEFAULT_TICK_RATE) }
    }
}

/// The length in nanoseconds of a tick, of which there are `tick_rate` a
/// second.
pub fn calculate_tick_duration(tick_rate: u64) -> (r: u64)
    requires
        tick_rate > 0,
    ensures
        r == NANOS_PER_SECOND / tick_rate,
{
    NANOS_PER_SECOND / tick_rate
}

/// The time collected towards the next tick, in nanoseconds.
#[derive(Clone, Copy, Debug, PartialEq, Eq, Structural)]
pub struct Clock {
    pub collected: u64,
}

impl Clock {
    /// A clock that has collected no time.
    pub fn new() -> (r: Clock)
        ensures
            r.collected == 0,
    {
        Clock { collected: 0 }
    }

    /// What the clock holds after `elapsed` nanoseconds more, with ticks of
    /// `duration` nanoseconds: a tick is due once more than `duration` has
    /// been collected, and takes `duration` away; what still exceeds
    /// `duration` then is dropped.
    pub open spec fn ticked(self, elapsed: u64, duration: u64) -> (bool, int) {
        let total = self.collected + elapsed;
        if total > duration {
            (true, if total - duration > duration { 0 } else { total - duration })
        } else {
            (false, total)
        }
    }

    /// Adds the time that has passed since the last call and says whether
    /// a tick is due.
    pub fn tick(&mut self, elapsed: u64, duration: u64) -> (r: bool)
        ensures
            r == old(self).ticked(elapsed, duration).0,
            final(self).collected == old(self).ticked(elapsed, duration).1,
            final(self).collected <= duration,
    {
        let total: u128 = self.collected as u128 + elapsed as u128;
        if total > duration as u128 {
            let rest: u128 = total - duration as u128;
            if rest > duration as u128 {
                self.collected = 0;
            } else {
                self.collected = rest as u64;
            }
            true
        } else {
            self.collected = total as u64;
            false
        }
    }
}

/// What runs the update callbacks at the configured rate.
#[derive(Clone, Copy, Debug)]
pub struct Executor {
    config: Config,
    clock: Clock,
}

impl Executor {
    /// The executor's configuration.
    pub closed spec fn config(self) -> Config {
        self.config
    }

    /// The executor's clock.
    pub closed spec fn clock(self) -> Clock {
        self.clock
    }

    /// An executor whose clock has collected no time.
    pub fn new(config: Config) -> (r: Executor)
        ensures
            r.config() == config,
            r.clock().collected == 0,
    {
        Executor { config, clock: Clock::new() }
    }

    /// The length of a tick in nanoseconds.
    pub fn tick_duration(&self) -> (r: u64)
        ensures
            r == self.config().tick_duration,
    {
        self.config.tick_duration
    }

    /// Takes the nanoseconds that have passed since the last call and says
    /// whether the update callbacks run now.
    pub fn update(&mut self, elapsed: u64) -> (r: bool)
        ensures
            final(self).config() == old(self).config(),
            r == old(self).clock().ticked(elapsed, old(self).config().tick_duration).0,
            final(self).clock().collected == old(self).clock().ticked(
                elapsed,
                old(self).config().tick_duration,
            ).1,
    {
        self.clock.tick(elapsed, self.config.tick_duration)
    }
}

} // verus!
