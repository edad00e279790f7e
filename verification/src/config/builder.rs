use vstd::prelude::*;

use crate::config::console::ConsoleConfig;
use crate::config::WASMLayerConfig;
use crate::level::Level;

verus! {

/// Collects the settings of a [`WASMLayerConfig`] one by one.
pub struct WASMLayerConfigBuilder {
    /// Log events will be marked and measured so they appear in performance timings.
    report_logs_in_timings: bool,
    /// Log events will be logged to the console.
    report_logs_in_console: bool,
    /// Only relevant if report_logs_in_console is true, this will use color style strings in the console.
    use_console_color: bool,
    /// Log events will be reported from this level on; the default is everything.
    max_level: Level,
    /// Log events will show additional fields, usually the file or line.
    show_fields: bool,
}

impl View for WASMLayerConfigBuilder {
    type V = WASMLayerConfig;

    /// The configuration that `build` would hand out.
    closed spec fn view(&self) -> WASMLayerConfig {
        WASMLayerConfig {
            report_logs_in_timings: self.report_logs_in_timings,
            report_logs_in_console: self.report_logs_in_console,
            use_console_color: self.use_console_color,
            max_level: self.max_level,
            show_fields: self.show_fields,
        }
    }
}

impl Default for WASMLayerConfigBuilder {
    fn default() -> (builder: WASMLayerConfigBuilder)
        ensures
            builder@ == WASMLayerConfig::defaults(),
    {
        WASMLayerConfigBuilder {
            report_logs_in_timings: true,
            report_logs_in_console: true,
            use_console_color: true,
            max_level: Level::Trace,
            show_fields: true,
        }
    }
}

impl WASMLayerConfigBuilder {
    /// A builder that holds the default configuration.
    pub fn new() -> (builder: WASMLayerConfigBuilder)
        ensures
            builder@ == WASMLayerConfig::defaults(),
    {
        WASMLayerConfigBuilder {
            report_logs_in_timings: true,
            report_logs_in_console: true,
            use_console_color: true,
            max_level: Level::Trace,
            show_fields: true,
        }
    }

    /// Set whether events should appear in performance timings.
    pub fn set_report_logs_in_timings(&mut self, report_logs_in_timings: bool) -> (out:
        &mut WASMLayerConfigBuilder)
        ensures
            out@ == (WASMLayerConfig { report_logs_in_timings, ..old(self)@ }),
            *final(self) == *final(out),
    {
        self.report_logs_in_timings = report_logs_in_timings;
        self
    }

    /// Set the least severe level on which events should be displayed.
    pub fn set_max_level(&mut self, max_level: Level) -> (out: &mut WASMLayerConfigBuilder)
        ensures
            out@ == (WASMLayerConfig { max_level, ..old(self)@ }),
            *final(self) == *final(out),
    {
        self.max_level = max_level;
        self
    }

    /// Set if and how events should be displayed in the console. Both
    /// console flags follow the preset, whatever they were before.
    pub fn set_console_config(&mut self, console_config: ConsoleConfig) -> (out:
        &mut WASMLayerConfigBuilder)
        ensures
            out@ == (WASMLayerConfig {
                report_logs_in_console: console_config.reports(),
                use_console_color: console_config.colors(),
                ..old(self)@
            }),
            out@.wf(),
            *final(self) == *final(out),
    {
        match console_config {
            ConsoleConfig::NoReporting => {
                self.report_logs_in_console = false;
                self.use_console_color = false;
            },
            ConsoleConfig::ReportWithoutConsoleColor => {
                self.report_logs_in_console = true;
                self.use_console_color = false;
            },
            ConsoleConfig::ReportWithConsoleColor => {
                self.report_logs_in_console = true;
                self.use_console_color = true;
            },
        }
        self
    }

    /// Set if events will show additional fields, usually the file or line.
    pub fn set_show_fields(&mut self, show_fields: bool) -> (out: &mut WASMLayerConfigBuilder)
        ensures
            out@ == (WASMLayerConfig { show_fields, ..old(self)@ }),
            *final(self) == *final(out),
    {
        self.show_fields = show_fields;
        self
    }

    /// Build the configuration collected so far.
    pub fn build(&self) -> (config: WASMLayerConfig)
        ensures
            config == self@,
    {
        WASMLayerConfig {
            report_logs_in_timings: self.report_logs_in_timings,
            report_logs_in_console: self.report_logs_in_console,
            use_console_color: self.use_console_color,
            max_level: self.max_level,
            show_fields: self.show_fields,
        }
    }
}

} // verus!
