use tracing_wasm::level::Level;
use tracing_wasm::text::{digit_str, same_text, to_decimal, to_hex};

#[test]
fn hex_of_small_and_large_numbers() {
    assert_eq!(to_hex(0), "0");
    assert_eq!(to_hex(9), "9");
    assert_eq!(to_hex(10), "a");
    assert_eq!(to_hex(15), "f");
    assert_eq!(to_hex(16), "10");
    assert_eq!(to_hex(255), "ff");
    assert_eq!(to_hex(4096), "1000");
    assert_eq!(to_hex(0xdead_beef), "deadbeef");
    assert_eq!(to_hex(u64::MAX), "ffffffffffffffff");
}

#[test]
fn hex_agrees_with_the_formatter() {
    let mut n: u64 = 1;
    for _ in 0..200 {
        assert_eq!(to_hex(n), format!("{:x}", n));
        n = n.wrapping_mul(6364136223846793005).wrapping_add(1442695040888963407);
    }
}

#[test]
fn decimal_of_small_and_large_numbers() {
    assert_eq!(to_decimal(0), "0");
    assert_eq!(to_decimal(7), "7");
    assert_eq!(to_decimal(10), "10");
    assert_eq!(to_decimal(999), "999");
    assert_eq!(to_decimal(1_000_000), "1000000");
    assert_eq!(to_decimal(u64::MAX), "18446744073709551615");
}

#[test]
fn decimal_agrees_with_the_formatter() {
    let mut n: u64 = 1;
    for _ in 0..200 {
        assert_eq!(to_decimal(n), format!("{}", n));
        n = n.wrapping_mul(6364136223846793005).wrapping_add(1442695040888963407);
    }
}

#[test]
fn digits_are_lower_case() {
    let all: Vec<&str> = (0..16u8).map(digit_str).collect();
    assert_eq!(all.concat(), "0123456789abcdef");
}

#[test]
fn same_text_compares_characters() {
    assert!(same_text("message", "message"));
    assert!(!same_text("message", "Message"));
    assert!(!same_text("message", "messag"));
    assert!(same_text("", ""));
}

#[test]
fn level_names_and_order() {
    let levels = [Level::Trace, Level::Debug, Level::Info, Level::Warn, Level::Error];
    let names: Vec<&str> = levels.iter().map(|level| level.as_str()).collect();
    assert_eq!(names, vec!["TRACE", "DEBUG", "INFO", "WARN", "ERROR"]);
    let ranks: Vec<u8> = levels.iter().map(|level| level.rank()).collect();
    assert_eq!(ranks, vec![0, 1, 2, 3, 4]);
    for (i, a) in levels.iter().enumerate() {
        for (j, b) in levels.iter().enumerate() {
            assert_eq!(a.is_at_least(*b), i >= j);
        }
    }
}

#[test]
fn level_styles() {
    assert_eq!(Level::Trace.console_style(), "color: dodgerblue; background: #444");
    assert_eq!(Level::Debug.console_style(), "color: lawngreen; background: #444");
    assert_eq!(Level::Info.console_style(), "color: whitesmoke; background: #444");
    assert_eq!(Level::Warn.console_style(), "color: orange; background: #444");
    assert_eq!(Level::Error.console_style(), "color: red; background: #444");
}
