use vstd::prelude::*;

verus! {

/// A monotonic clock counted in milliseconds.
///
/// Time never moves backward: the only operation is `tick`, which advances
/// the count. On a device this stands for the hardware's monotonic time
/// source; here it is virtual, so interval boundaries are exact and
/// deterministic.
#[derive(Clone, Copy, PartialEq, Eq, Structural, Debug)]
pub struct Clock {
    pub now_ms: u64,
}

impl Clock {
    /// A clock at the instant of power-on.
    pub fn new() -> (c: Clock)
        ensures
            c.now_ms == 0,
    {
        Clock { now_ms: 0 }
    }

    /// Samples the clock.
    pub fn now(&self) -> (t: u64)
        ensures
            t == self.now_ms,
    {
        self.now_ms
    }

    /// Advances the clock by `step_ms` milliseconds; time never runs backward.
    pub fn tick(&mut self, step_ms: u64)
        requires
            old(self).now_ms + step_ms <= u64::MAX,
        ensures
            final(self).now_ms == old(self).now_ms + step_ms,
    {
        self.now_ms = self.now_ms + step_ms;
    }
}

/// Busy-wait delay: samples the clock at entry, then polls until at least
/// `ms` milliseconds have elapsed since that sample.
///
/// `tick_ms` is the clock's granularity, the amount one poll advances the
/// virtual clock. The wait never undershoots the requested duration and
/// overshoots it by less than one tick.
pub fn delay(clock: &mut Clock, ms: u64, tick_ms: u64)
    requires
        tick_ms >= 1,
        old(clock).now_ms + ms + tick_ms <= u64::MAX,
    ensures
        final(clock).now_ms >= old(clock).now_ms + ms,
        final(clock).now_ms < old(clock).now_ms + ms + tick_ms,
{
    let start: u64 = clock.now();
    while clock.now_ms - start < ms
        invariant
            start <= clock.now_ms,
            clock.now_ms < start + ms + tick_ms,
            start + ms + tick_ms <= u64::MAX,
            tick_ms >= 1,
        decreases start + ms + tick_ms - clock.now_ms,
    {
        clock.tick(tick_ms);
    }
}

} // verus!
