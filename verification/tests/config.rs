use tracing_wasm::config::console::ConsoleConfig;
use tracing_wasm::config::WASMLayerConfig;
use tracing_wasm::level::Level;

#[test]
fn mod_test_default_built_config() {
    let config = WASMLayerConfig::new();

    assert_eq!(
        config,
        WASMLayerConfig {
            report_logs_in_timings: true,
            report_logs_in_console: true,
            use_console_color: true,
            max_level: Level::Trace,
            show_fields: true,
        }
    )
}

#[test]
fn mod_test_set_report_logs_in_timings() {
    let mut config = WASMLayerConfig::new();
    config.set_report_logs_in_timings(false);

    assert!(!config.report_logs_in_timings);
}

#[test]
fn mod_test_set_console_config_no_reporting() {
    let mut config = WASMLayerConfig::new();
    config.set_console_config(ConsoleConfig::NoReporting);

    assert!(!config.report_logs_in_console);
    assert!(!config.use_console_color);
}

#[test]
fn mod_test_set_console_config_without_color() {
    let mut config = WASMLayerConfig::new();
    config.set_console_config(ConsoleConfig::ReportWithoutConsoleColor);

    assert!(config.report_logs_in_console);
    assert!(!config.use_console_color);
}

#[test]
fn mod_test_set_console_config_with_color() {
    let mut config = WASMLayerConfig::new();
    config.set_console_config(ConsoleConfig::ReportWithConsoleColor);

    assert!(config.report_logs_in_console);
    assert!(config.use_console_color);
}

#[test]
fn mod_test_set_config_log_level_warn() {
    let mut config = WASMLayerConfig::new();
    config.set_max_level(Level::Warn);

    assert_eq!(config.max_level, Level::Warn);
}

#[test]
fn default_is_the_documented_default() {
    assert_eq!(WASMLayerConfig::default(), WASMLayerConfig::new());
}

#[test]
fn console_preset_overrides_prior_state() {
    let mut config = WASMLayerConfig::new();
    config.set_console_config(ConsoleConfig::ReportWithoutConsoleColor);
    config.set_console_config(ConsoleConfig::NoReporting);
    assert!(!config.report_logs_in_console);
    assert!(!config.use_console_color);
    config.set_console_config(ConsoleConfig::ReportWithConsoleColor);
    assert!(config.report_logs_in_console);
    assert!(config.use_console_color);
    config.set_console_config(ConsoleConfig::ReportWithoutConsoleColor);
    assert!(config.report_logs_in_console);
    assert!(!config.use_console_color);
    assert!(config.report_logs_in_timings);
    assert!(config.show_fields);
    assert_eq!(config.max_level, Level::Trace);
}

#[test]
fn setters_chain_and_leave_the_rest() {
    let mut config = WASMLayerConfig::new();
    config.set_show_fields(false).set_report_logs_in_timings(false).set_max_level(Level::Error);
    assert_eq!(
        config,
        WASMLayerConfig {
            report_logs_in_timings: false,
            report_logs_in_console: true,
            use_console_color: true,
            max_level: Level::Error,
            show_fields: false,
        }
    );
}
