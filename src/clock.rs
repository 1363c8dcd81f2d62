use vstd::prelude::*;

verus! {

pub const MICROS_PER_SECOND: u64 = 1_000_000;

/// Microseconds per simulation tick at `fps` ticks per second (at least 1).
pub open spec fn period_for(fps: i32) -> u64 {
    if fps < 1 {
        MICROS_PER_SECOND
    } else {
        (MICROS_PER_SECOND / fps as u64) as u64
    }
}

/// Decouples the simulation's rate from the rate at which the host calls in:
/// a call commits a tick only once a full period has passed since the last one.
pub struct FrameClock {
    /// Time of the last committed tick, in microseconds since start.
    pub last_us: u64,
    /// Microseconds that must pass before the next tick.
    pub period_us: u64,
    /// Committed ticks, counted modulo 2^64.
    pub ticks: u64,
}

impl FrameClock {
    pub open spec fn is_due(&self, now_us: u64) -> bool {
        self.last_us + self.period_us <= now_us
    }

    /// A clock at time 0 running at `fps`.
    pub fn new(fps: i32) -> (r: FrameClock)
        ensures
            r.last_us == 0,
            r.period_us == period_for(fps),
            r.ticks == 0,
    {
        FrameClock { last_us: 0, period_us: period_of(fps), ticks: 0 }
    }

    /// Called by the host at `now_us`. Returns whether a tick is committed;
    /// when it is, the clock records `now_us`, counts the tick and takes its
    /// next period from `fps`. Otherwise nothing changes.
    pub fn poll(&mut self, now_us: u64, fps: i32) -> (due: bool)
        ensures
            due == old(self).is_due(now_us),
            due ==> final(self).last_us == now_us && final(self).period_us == period_for(fps)
                && final(self).ticks == (old(self).ticks + 1) % 0x1_0000_0000_0000_0000,
            !due ==> *final(self) == *old(self),
    {
        if now_us >= self.last_us && now_us - self.last_us >= self.period_us {
            self.last_us = now_us;
            self.period_us = period_of(fps);
            self.ticks = self.ticks.wrapping_add(1);
            true
        } else {
            false
        }
    }
}

fn period_of(fps: i32) -> (r: u64)
    ensures
        r == period_for(fps),
{
    if fps < 1 {
        MICROS_PER_SECOND
    } else {
        MICROS_PER_SECOND / fps as u64
    }
}

} // verus!
