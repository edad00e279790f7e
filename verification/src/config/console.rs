use vstd::prelude::*;

verus! {

/// If and how events are shown in the console.
#[derive(Clone, Copy, Debug, PartialEq, Eq, Structural)]
pub enum ConsoleConfig {
    NoReporting,
    ReportWithoutConsoleColor,
    ReportWithConsoleColor,
}

impl ConsoleConfig {
    /// Whether the preset writes console lines at all.
    pub open spec fn reports(self) -> bool {
        self != ConsoleConfig::NoReporting
    }

    /// Whether the preset writes styled console lines.
    pub open spec fn colors(self) -> bool {
        self == ConsoleConfig::ReportWithConsoleColor
    }

    /// No preset asks for color without asking for console lines, and two
    /// different presets never stand for the same pair of flags.
    pub proof fn lemma_presets_exclusive(a: ConsoleConfig, b: ConsoleConfig)
        ensures
            a.colors() ==> a.reports(),
            a != b ==> (a.reports(), a.colors()) != (b.reports(), b.colors()),
    {
    }
}

} // verus!
