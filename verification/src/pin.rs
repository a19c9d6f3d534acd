use vstd::prelude::*;

verus! {

/// The logical level a digital output line drives.
#[derive(Clone, Copy, PartialEq, Eq, Structural, Debug)]
pub enum Level {
    Low,
    High,
}

/// One physical digital pin configured for output.
///
/// A freshly configured line drives low; afterwards it holds whatever level
/// was last set. The line is owned by the blink loop for the life of the
/// program and is never reconfigured.
#[derive(Clone, Copy, PartialEq, Eq, Structural, Debug)]
pub struct OutputLine {
    pub level: Level,
}

impl OutputLine {
    /// Configures the pin for output. The initial level is low.
    pub fn new() -> (line: OutputLine)
        ensures
            line.level == Level::Low,
    {
        OutputLine { level: Level::Low }
    }

    /// Drives the line to logical high.
    pub fn set_high(&mut self)
        ensures
            final(self).level == Level::High,
    {
        self.level = Level::High;
    }

    /// Drives the line to logical low.
    pub fn set_low(&mut self)
        ensures
            final(self).level == Level::Low,
    {
        self.level = Level::Low;
    }

    /// Reports whether the line currently drives high.
    pub fn is_high(&self) -> (r: bool)
        ensures
            r == (self.level is High),
    {
        match self.level {
            Level::High => true,
            Level::Low => false,
        }
    }
}

} // verus!
