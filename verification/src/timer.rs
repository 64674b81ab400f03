use vstd::prelude::*;

verus! {

/// The state of one background countdown. The shell owns the clock and
/// the control channel; it drives this state with `on_signal` when a
/// run/pause signal arrives and `on_tick` when a full second passes while
/// running, and sends each value `on_tick` returns on the progress
/// channel. A signal observed during a wait preempts that tick, so pause
/// takes effect without a one-tick lag; the countdown never ticks while
/// paused. Values emitted for one countdown strictly decrease and end
/// with a single zero, after which the drive loop stops.
#[derive(Clone, Copy, Debug, PartialEq, Eq, Structural)]
pub struct Countdown {
    pub remaining: u64,
    pub running: bool,
}

impl Countdown {
    /// A fresh countdown starts running: the initial run state is given
    /// here, at construction, never awaited from the control channel,
    /// which replays nothing.
    pub fn new(duration: u64) -> (c: Countdown)
        ensures
            c.remaining == duration,
            c.running,
    {
        Countdown { remaining: duration, running: true }
    }

    /// Adopt the most recent run/pause signal. Consumes no time.
    pub fn on_signal(&mut self, running: bool)
        ensures
            final(self).remaining == old(self).remaining,
            final(self).running == running,
    {
        self.running = running;
    }

    /// One full second passed while running and no signal preempted it:
    /// count it down and report the new remaining time.
    pub fn on_tick(&mut self) -> (emit: u64)
        requires
            old(self).running,
            old(self).remaining > 0,
        ensures
            final(self).remaining == old(self).remaining - 1,
            final(self).running == old(self).running,
            emit == final(self).remaining,
    {
        self.remaining = self.remaining - 1;
        self.remaining
    }

    /// The countdown has reached zero and its drive loop must stop.
    pub fn is_done(&self) -> (r: bool)
        ensures
            r == (self.remaining == 0),
    {
        self.remaining == 0
    }
}

} // verus!
