use vstd::prelude::*;

verus! {

/// How severe an event or span is, from the least severe (`Trace`) to the
/// most severe (`Error`).
#[derive(Clone, Copy, Debug, PartialEq, Eq, Structural, Hash)]
pub enum Level {
    Trace,
    Debug,
    Info,
    Warn,
    Error,
}

impl Level {
    /// The place of a level in the order `Trace < Debug < Info < Warn < Error`.
    pub open spec fn severity(self) -> nat {
        match self {
            Level::Trace => 0,
            Level::Debug => 1,
            Level::Info => 2,
            Level::Warn => 3,
            Level::Error => 4,
        }
    }

    /// The upper-case name a level is printed with.
    pub open spec fn name(self) -> Seq<char> {
        match self {
            Level::Trace => "TRACE"@,
            Level::Debug => "DEBUG"@,
            Level::Info => "INFO"@,
            Level::Warn => "WARN"@,
            Level::Error => "ERROR"@,
        }
    }

    /// The console style of the level segment of a colored line.
    pub open spec fn style(self) -> Seq<char> {
        match self {
            Level::Trace => "color: dodgerblue; background: #444"@,
            Level::Debug => "color: lawngreen; background: #444"@,
            Level::Info => "color: whitesmoke; background: #444"@,
            Level::Warn => "color: orange; background: #444"@,
            Level::Error => "color: red; background: #444"@,
        }
    }

    /// Whether `self` is at least as severe as `threshold`.
    pub open spec fn passes(self, threshold: Level) -> bool {
        self.severity() >= threshold.severity()
    }

    /// A level that passes a threshold lets every more severe level pass it
    /// too, and the least severe threshold lets every level pass.
    pub proof fn lemma_passes_monotone(self, more_severe: Level, threshold: Level)
        requires
            self.passes(threshold),
            more_severe.severity() > self.severity(),
        ensures
            more_severe.passes(threshold),
            self.passes(Level::Trace),
    {
    }

    /// The number of a level in the order of severity.
    pub fn rank(self) -> (r: u8)
        ensures
            r == self.severity(),
    {
        match self {
            Level::Trace => 0,
            Level::Debug => 1,
            Level::Info => 2,
            Level::Warn => 3,
            Level::Error => 4,
        }
    }

    /// The upper-case name of the level.
    pub fn as_str(self) -> (s: &'static str)
        ensures
            s@ == self.name(),
    {
        match self {
            Level::Trace => "TRACE",
            Level::Debug => "DEBUG",
            Level::Info => "INFO",
            Level::Warn => "WARN",
            Level::Error => "ERROR",
        }
    }

    /// The console style of the level.
    pub fn console_style(self) -> (s: &'static str)
        ensures
            s@ == self.style(),
    {
        match self {
            Level::Trace => "color: dodgerblue; background: #444",
            Level::Debug => "color: lawngreen; background: #444",
            Level::Info => "color: whitesmoke; background: #444",
            Level::Warn => "color: orange; background: #444",
            Level::Error => "color: red; background: #444",
        }
    }

    /// Whether `self` is at least as severe as `threshold`.
    pub fn is_at_least(self, threshold: Level) -> (b: bool)
        ensures
            b == self.passes(threshold),
    {
        self.rank() >= threshold.rank()
    }
}

} // verus!
