use vstd::prelude::*;

use crate::config::console::ConsoleConfig;
use crate::level::Level;

pub mod builder;
pub mod console;

verus! {

/// What a layer reports, where, and from which level on.
#[derive(Debug, PartialEq, Eq, Structural)]
pub struct WASMLayerConfig {
    /// Events are marked and measured so that they appear in performance timings.
    pub report_logs_in_timings: bool,
    /// Events are written to the console.
    pub report_logs_in_console: bool,
    /// Console lines carry style strings; only read where the console is reported to.
    pub use_console_color: bool,
    /// Events and spans less severe than this are not enabled.
    pub max_level: Level,
    /// Fields other than the message are shown.
    pub show_fields: bool,
}

impl Default for WASMLayerConfig {
    fn default() -> (config: WASMLayerConfig)
        ensures
            config == WASMLayerConfig::defaults(),
    {
        WASMLayerConfig {
            report_logs_in_timings: true,
            report_logs_in_console: true,
            use_console_color: true,
            max_level: Level::Trace,
            show_fields: true,
        }
    }
}

impl WASMLayerConfig {
    /// Everything on, from the least severe level.
    pub open spec fn defaults() -> WASMLayerConfig {
        WASMLayerConfig {
            report_logs_in_timings: true,
            report_logs_in_console: true,
            use_console_color: true,
            max_level: Level::Trace,
            show_fields: true,
        }
    }

    /// Color is asked for only together with console lines.
    pub open spec fn wf(self) -> bool {
        self.use_console_color ==> self.report_logs_in_console
    }

    /// Whether events are reported anywhere at all, to the console or to
    /// the timings.
    pub open spec fn reports_events(self) -> bool {
        self.report_logs_in_timings || self.report_logs_in_console
    }

    /// Whether events are reported anywhere at all. Where they are not,
    /// nothing needs to be read of an event.
    pub fn takes_events(&self) -> (taken: bool)
        ensures
            taken == self.reports_events(),
    {
        self.report_logs_in_timings || self.report_logs_in_console
    }

    /// The default configuration.
    pub fn new() -> (config: WASMLayerConfig)
        ensures
            config == WASMLayerConfig::defaults(),
            config.wf(),
    {
        WASMLayerConfig {
            report_logs_in_timings: true,
            report_logs_in_console: true,
            use_console_color: true,
            max_level: Level::Trace,
            show_fields: true,
        }
    }

    /// Set whether events should appear in performance timings.
    pub fn set_report_logs_in_timings(&mut self, report_logs_in_timings: bool) -> (out: &mut Self)
        ensures
            *out == (WASMLayerConfig { report_logs_in_timings, ..*old(self) }),
            *final(self) == *final(out),
    {
        self.report_logs_in_timings = report_logs_in_timings;
        self
    }

    /// Set the least severe level on which events should be displayed.
    pub fn set_max_level(&mut self, max_level: Level) -> (out: &mut Self)
        ensures
            *out == (WASMLayerConfig { max_level, ..*old(self) }),
            *final(self) == *final(out),
    {
        self.max_level = max_level;
        self
    }

    /// Set if and how events should be displayed in the console. Both
    /// console flags follow the preset, whatever they were before.
    pub fn set_console_config(&mut self, console_config: ConsoleConfig) -> (out: &mut Self)
        ensures
            *out == (WASMLayerConfig {
                report_logs_in_console: console_config.reports(),
                use_console_color: console_config.colors(),
                ..*old(self)
            }),
            out.wf(),
            *final(self) == *final(out),
    {
        match console_config {
            ConsoleConfig::NoReporting => {
                self.report_logs_in_console = false;
                self.use_console_color = false;
            },
            ConsoleConfig::ReportWithoutConsoleColor => {
                self.report_logs_in_console = true;
                self.use_console_color = false;
            },
            ConsoleConfig::ReportWithConsoleColor => {
                self.report_logs_in_console = true;
                self.use_console_color = true;
            },
        }
        self
    }

    /// Set if events will show additional fields, usually the file or line.
    pub fn set_show_fields(&mut self, show_fields: bool) -> (out: &mut Self)
        ensures
            *out == (WASMLayerConfig { show_fields, ..*old(self) }),
            *final(self) == *final(out),
    {
        self.show_fields = show_fields;
        self
    }
}

} // verus!
