use vstd::prelude::*;

use vstd::arithmetic::mul::lemma_mul_inequality;

use crate::clock::Clock;
use crate::clock::delay;
use crate::pin::Level;
use crate::pin::OutputLine;

verus! {

/// The literal log lines the firmware emits.
#[derive(Clone, Copy, PartialEq, Eq, Structural, Debug)]
pub enum LogLine {
    /// The start-up greeting.
    Hello,
    /// The line announcing a high transition.
    High,
    /// The line announcing a low transition.
    Low,
}

impl LogLine {
    /// The exact text of the line as it appears on the log output.
    pub fn text(&self) -> (r: &'static str)
        ensures
            self is Hello ==> r@ == "Hello World"@,
            self is High ==> r@ == "LED HIGH"@,
            self is Low ==> r@ == "LED LOW"@,
    {
        match self {
            LogLine::Hello => "Hello World",
            LogLine::High => "LED HIGH",
            LogLine::Low => "LED LOW",
        }
    }
}

/// One observable emission: a log line together with the monotonic time, in
/// milliseconds since power-on, at which it was emitted. The two led lines
/// double as the pin transitions: `High` means the line was just driven high,
/// `Low` that it was just driven low.
#[derive(Clone, Copy, PartialEq, Eq, Structural, Debug)]
pub struct Event {
    pub at_ms: u64,
    pub log: LogLine,
}

/// The one-time hardware configuration: the desired processor clock
/// frequency in Hz (in this firmware, the maximum the part supports).
#[derive(Clone, Copy, PartialEq, Eq, Structural, Debug)]
pub struct Config {
    pub cpu_clock_hz: u64,
}

/// A failed hardware bring-up. There is exactly one kind of fault, with no
/// payload and no sub-classification: the only thing a caller can do with it
/// is stop.
#[derive(Clone, Copy, PartialEq, Eq, Structural, Debug)]
pub struct InitFault;

/// The whole firmware state: the configuration it was brought up with, the
/// one output line, the monotonic clock, whether an unrecoverable fault has
/// halted the device, and the trace of every line logged so far.
pub struct Device {
    pub cfg: Config,
    pub line: OutputLine,
    pub clock: Clock,
    pub halted: bool,
    pub events: Vec<Event>,
}

/// The log line the firmware emits in position `j` of its output: the
/// greeting first, then `High` and `Low` strictly alternating forever.
pub open spec fn expected_log(j: nat) -> LogLine {
    if j == 0 {
        LogLine::Hello
    } else if j % 2 == 1 {
        LogLine::High
    } else {
        LogLine::Low
    }
}

/// The monotonic time, in ms since power-on, at which the line in position
/// `j` is emitted, when each high and each low phase lasts `interval_ms`.
/// The greeting and the first high line come at time 0; every later line
/// comes one interval after its predecessor.
pub open spec fn expected_time(j: nat, interval_ms: u64) -> int {
    if j == 0 {
        0
    } else {
        (j - 1) * interval_ms
    }
}

impl Device {
    /// The first `upto` entries of the trace are exactly the expected ones:
    /// the expected log line at the expected time, nothing else and nothing
    /// out of order.
    pub open spec fn trace_matches(self, upto: int, interval_ms: u64) -> bool {
        &&& self.events@.len() == upto
        &&& forall|j: int|
            0 <= j < upto ==> (#[trigger] self.events@[j]).log == expected_log(j as nat)
        &&& forall|j: int|
            0 <= j < upto ==> (#[trigger] self.events@[j]).at_ms == expected_time(
                j as nat,
                interval_ms,
            )
    }

    /// Platform bring-up: configures the processor clock and takes ownership
    /// of the peripherals. `hw_ok` is the hardware's own verdict on the
    /// bring-up; the call succeeds exactly when the hardware came up, and on
    /// failure there is nothing to recover — the caller's only option is to
    /// stop. A fresh device is not halted, its line drives low, its clock
    /// reads zero and it has logged nothing.
    pub fn init(cfg: Config, hw_ok: bool) -> (r: Result<Device, InitFault>)
        ensures
            hw_ok <==> r is Ok,
            r matches Ok(d) ==> {
                &&& d.cfg == cfg
                &&& d.line.level == Level::Low
                &&& d.clock.now_ms == 0
                &&& !d.halted
                &&& d.events@.len() == 0
            },
    {
        if hw_ok {
            Ok(
                Device {
                    cfg,
                    line: OutputLine::new(),
                    clock: Clock::new(),
                    halted: false,
                    events: Vec::new(),
                },
            )
        } else {
            Err(InitFault)
        }
    }

    /// Emits the start-up greeting. A halted device emits nothing and stays
    /// exactly as it was.
    pub fn start(&mut self)
        ensures
            old(self).halted ==> *final(self) == *old(self),
            !old(self).halted ==> {
                &&& final(self).events@ == old(self).events@.push(
                    (Event { at_ms: old(self).clock.now_ms, log: LogLine::Hello }),
                )
                &&& final(self).cfg == old(self).cfg
                &&& final(self).line == old(self).line
                &&& final(self).clock == old(self).clock
                &&& !final(self).halted
            },
    {
        if self.halted {
            return ;
        }
        let at_ms: u64 = self.clock.now();
        self.events.push(Event { at_ms, log: LogLine::Hello });
    }

    /// One full blink cycle, in the fixed order the loop prescribes: drive
    /// the line high, log it, wait one interval, drive the line low, log it,
    /// wait one interval. A halted device does nothing at all: no transition,
    /// no log line, no passage of modelled time.
    pub fn blink_iteration(&mut self, interval_ms: u64)
        requires
            old(self).clock.now_ms + 2 * interval_ms < u64::MAX,
        ensures
            old(self).halted ==> *final(self) == *old(self),
            !old(self).halted ==> {
                &&& final(self).events@ == old(self).events@.push(
                    (Event { at_ms: old(self).clock.now_ms, log: LogLine::High }),
                ).push(
                    (
                    Event {
                        at_ms: (old(self).clock.now_ms + interval_ms) as u64,
                        log: LogLine::Low,
                    }
                    ),
                )
                &&& final(self).line.level == Level::Low
                &&& final(self).clock.now_ms == old(self).clock.now_ms + 2 * interval_ms
                &&& !final(self).halted
                &&& final(self).cfg == old(self).cfg
            },
    {
        if self.halted {
            return ;
        }
        self.line.set_high();
        let t_high: u64 = self.clock.now();
        self.events.push(Event { at_ms: t_high, log: LogLine::High });
        delay(&mut self.clock, interval_ms, 1);
        self.line.set_low();
        let t_low: u64 = self.clock.now();
        self.events.push(Event { at_ms: t_low, log: LogLine::Low });
        delay(&mut self.clock, interval_ms, 1);
    }

    /// The terminal fault handler. An unrecoverable fault halts the device
    /// for good: the line and the log freeze in their last state, and every
    /// later step is a no-op. There is no reset, no report and no recovery.
    pub fn panic(&mut self)
        ensures
            final(self).halted,
            final(self).line == old(self).line,
            final(self).clock == old(self).clock,
            final(self).events@ == old(self).events@,
            final(self).cfg == old(self).cfg,
    {
        self.halted = true;
    }

    /// The level the line drove at monotonic time `t_ms`, read off the
    /// trace: the level set by the last transition logged at or before
    /// `t_ms`, and low before any transition.
    pub fn level_at(&self, t_ms: u64) -> (r: Level)
        ensures
            r == spec_level_at(self.events@, t_ms as int),
    {
        let mut lvl = Level::Low;
        let mut k: usize = 0;
        while k < self.events.len()
            invariant
                k <= self.events@.len(),
                lvl == spec_level_at(self.events@.take(k as int), t_ms as int),
            decreases self.events@.len() - k,
        {
            let e = self.events[k];
            if e.at_ms <= t_ms {
                match e.log {
                    LogLine::High => {
                        lvl = Level::High;
                    },
                    LogLine::Low => {
                        lvl = Level::Low;
                    },
                    LogLine::Hello => {},
                }
            }
            proof {
                assert(self.events@.take(k as int + 1).drop_last() =~= self.events@.take(
                    k as int,
                ));
                assert(self.events@.take(k as int + 1).last() == self.events@[k as int]);
            }
            k = k + 1;
        }
        proof {
            assert(self.events@.take(self.events@.len() as int) =~= self.events@);
        }
        lvl
    }

    /// Runs the firmware from power-on for a bounded number of blink cycles:
    /// bring the hardware up, greet, then blink. Succeeds exactly when the
    /// hardware came up; the device it returns carries the full expected
    /// trace, its line is back at low, its clock has advanced by two
    /// intervals per cycle, and it has not halted.
    pub fn run(cfg: Config, hw_ok: bool, iterations: u64, interval_ms: u64) -> (r: Result<
        Device,
        InitFault,
    >)
        requires
            2 * iterations * interval_ms < u64::MAX,
        ensures
            hw_ok <==> r is Ok,
            r matches Ok(d) ==> {
                &&& d.trace_matches(1 + 2 * iterations, interval_ms)
                &&& d.line.level == Level::Low
                &&& !d.halted
                &&& d.clock.now_ms == 2 * iterations * interval_ms
                &&& d.cfg == cfg
            },
    {
        match Device::init(cfg, hw_ok) {
            Err(e) => Err(e),
            Ok(mut d) => {
                d.start();
                let mut i: u64 = 0;
                while i < iterations
                    invariant
                        i <= iterations,
                        2 * iterations * interval_ms < u64::MAX,
                        d.trace_matches(1 + 2 * i, interval_ms),
                        d.line.level == Level::Low,
                        !d.halted,
                        d.clock.now_ms == 2 * i * interval_ms,
                        d.cfg == cfg,
                    decreases iterations - i,
                {
                    assert(2 * i * interval_ms + 2 * interval_ms <= 2 * iterations * interval_ms
                        && 2 * (i + 1) * interval_ms == 2 * i * interval_ms + 2 * interval_ms
                        && (2 * i + 1) * interval_ms == 2 * i * interval_ms + interval_ms)
                        by (nonlinear_arith)
                        requires
                            i < iterations,
                    ;
                    d.blink_iteration(interval_ms);
                    i = i + 1;
                }
                Ok(d)
            },
        }
    }
}

/// The level the line drives at monotonic time `t`, as a trace records it:
/// the level set by the last transition at or before `t`, and low before any
/// transition (the line starts low).
pub open spec fn spec_level_at(tr: Seq<Event>, t: int) -> Level
    decreases tr.len(),
{
    if tr.len() == 0 {
        Level::Low
    } else if tr.last().at_ms <= t && tr.last().log is High {
        Level::High
    } else if tr.last().at_ms <= t && tr.last().log is Low {
        Level::Low
    } else {
        spec_level_at(tr.drop_last(), t)
    }
}

/// The square-wave law on a prefix of an expected trace: restricted to its
/// first `m` events, the trace still puts the line at the level of phase `p`
/// for any instant inside phase `p`, as long as the prefix reaches past the
/// transition that opens that phase.
proof fn lemma_square_wave_prefix(d: Device, n: nat, interval_ms: u64, p: nat, t: int, m: nat)
    requires
        d.trace_matches(1 + 2 * n as int, interval_ms),
        interval_ms >= 1,
        p < 2 * n,
        p + 2 <= m <= 1 + 2 * n,
        p * interval_ms <= t,
        t < (p + 1) * interval_ms,
    ensures
        spec_level_at(d.events@.take(m as int), t) == (if p % 2 == 0 {
            Level::High
        } else {
            Level::Low
        }),
    decreases m,
{
    let tr = d.events@;
    let pre = tr.take(m as int);
    assert(pre.last() == tr[m - 1]);
    assert(tr[m - 1].log == expected_log((m - 1) as nat));
    assert(tr[m - 1].at_ms == expected_time((m - 1) as nat, interval_ms));
    if m == p + 2 {
        // The last event in the prefix is the transition that opens phase p,
        // at time p * interval_ms <= t; it decides the level.
        assert(expected_time((p + 1) as nat, interval_ms) == p * interval_ms);
        if p % 2 == 0 {
            assert((p + 1) % 2 == 1);
            assert(expected_log((p + 1) as nat) is High);
        } else {
            assert((p + 1) % 2 == 0);
            assert(expected_log((p + 1) as nat) is Low);
        }
    } else {
        // The last event comes at or after the end of phase p, so it lies
        // strictly after t and the level is decided earlier in the trace.
        lemma_mul_inequality((p + 1) as int, (m - 2) as int, interval_ms as int);
        assert(tr[m - 1].at_ms > t);
        assert(pre.drop_last() =~= tr.take(m as int - 1));
        lemma_square_wave_prefix(d, n, interval_ms, p, t, (m - 1) as nat);
    }
}

/// The line as a square wave. Split time from power-on into phases of
/// `interval_ms` each: phase `p` spans `[p * interval_ms, (p + 1) *
/// interval_ms)`. On any device whose trace follows the expected pattern
/// through `n` full blink cycles, the line drives high throughout every
/// even-numbered phase and low throughout every odd-numbered one. In
/// particular, if the line is high during one phase it is low during the
/// whole of the next, and the other way round.
pub proof fn lemma_square_wave(d: Device, n: nat, interval_ms: u64, p: nat, t: int)
    requires
        d.trace_matches(1 + 2 * n as int, interval_ms),
        interval_ms >= 1,
        p < 2 * n,
        p * interval_ms <= t,
        t < (p + 1) * interval_ms,
    ensures
        p % 2 == 0 ==> spec_level_at(d.events@, t) == Level::High,
        p % 2 == 1 ==> spec_level_at(d.events@, t) == Level::Low,
{
    lemma_square_wave_prefix(d, n, interval_ms, p, t, (1 + 2 * n) as nat);
    assert(d.events@.take(1 + 2 * n as int) =~= d.events@);
}

/// Strict alternation of the led lines: every line after the greeting is a
/// HIGH line or a LOW line, each HIGH line is followed by a LOW line, and
/// each LOW line by a HIGH line — no repeat, no skip, forever.
pub proof fn lemma_strict_alternation(j: nat)
    requires
        1 <= j,
    ensures
        expected_log(j) is High || expected_log(j) is Low,
        expected_log(j) is High ==> expected_log(j + 1) is Low,
        expected_log(j) is Low ==> expected_log(j + 1) is High,
{
}

/// Timing of a blink phase: the led line that follows any led line comes
/// exactly one interval later. In particular, between a HIGH line and the
/// LOW line after it, at least `interval_ms` of monotonic time elapses.
pub proof fn lemma_phase_duration(j: nat, interval_ms: u64)
    requires
        1 <= j,
    ensures
        expected_time(j + 1, interval_ms) - expected_time(j, interval_ms) == interval_ms,
        expected_time(j + 1, interval_ms) >= expected_time(j, interval_ms) + interval_ms,
{
    assert((j as int) * interval_ms - (j - 1) * interval_ms == interval_ms) by (nonlinear_arith)
        requires
            j >= 1,
    ;
}

} // verus!
