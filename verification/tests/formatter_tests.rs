use soroban_debugger::inspector::budget::BudgetInfo;
use soroban_debugger::text::decimal;
use soroban_debugger::ui::formatter::Formatter;

#[test]
fn test_format_value_is_the_value() {
    assert_eq!(Formatter::format_value("Ok(42)"), "Ok(42)");
    assert_eq!(Formatter::format_value(""), "");
}

#[test]
fn test_format_storage_entry() {
    assert_eq!(Formatter::format_storage_entry("counter", "7"), "counter = 7");
    assert_eq!(Formatter::format_storage_entry("", ""), " = ");
}

#[test]
fn test_format_function_call() {
    assert_eq!(Formatter::format_function_call("transfer", Some("1, 2")), "transfer(1, 2)");
    assert_eq!(Formatter::format_function_call("transfer", Some("")), "transfer()");
    assert_eq!(Formatter::format_function_call("balance", None), "balance()");
}

#[test]
fn test_messages_are_unchanged_without_colors() {
    let mut formatter = Formatter::new();
    formatter.configure_colors(false);
    assert_eq!(formatter.info("loading"), "loading");
    assert_eq!(formatter.success("done"), "done");
    assert_eq!(formatter.warning("careful"), "careful");
    assert_eq!(formatter.error("failed"), "failed");
}

#[test]
fn test_messages_are_styled_with_colors() {
    crossterm::style::Colored::set_ansi_color_disabled(false);
    let formatter = Formatter::new();
    assert_eq!(formatter.info("loading"), "\u{1b}[38;5;12mloading\u{1b}[39m");
    assert_eq!(formatter.success("done"), "\u{1b}[38;5;10mdone\u{1b}[39m");
    assert_eq!(formatter.warning("careful"), "\u{1b}[38;5;11mcareful\u{1b}[39m");
    assert_eq!(formatter.error("failed"), "\u{1b}[38;5;9mfailed\u{1b}[39m");
}

#[test]
fn test_colors_can_be_switched_back_on() {
    crossterm::style::Colored::set_ansi_color_disabled(false);
    let mut formatter = Formatter::new();
    formatter.configure_colors(false);
    assert_eq!(formatter.error("failed"), "failed");
    formatter.configure_colors(true);
    assert_ne!(formatter.error("failed"), "failed");
    assert!(formatter.error("failed").contains("failed"));
}

#[test]
fn test_budget_readings_are_ordered_in_time() {
    let earlier = BudgetInfo {
        cpu_instructions: 100,
        cpu_limit: 1000,
        memory_bytes: 50,
        memory_limit: 500,
    };
    let later = BudgetInfo { cpu_instructions: 150, memory_bytes: 50, ..earlier };
    let impossible = BudgetInfo { cpu_instructions: 150, memory_bytes: 49, ..earlier };
    assert!(later.not_before(&earlier));
    assert!(earlier.not_before(&earlier));
    assert!(!earlier.not_before(&later));
    assert!(!impossible.not_before(&earlier));
}

#[test]
fn test_format_budget_lays_out_the_line() {
    assert_eq!(
        Formatter::format_budget(2500, 100_000, "2.5", 0, 40_000, "0.0"),
        "CPU: 2500/100000 (2.5%) | Memory: 0/40000 bytes (0.0%)"
    );
    assert_eq!(
        Formatter::format_budget(u64::MAX, 0, "inf", 10, 9, "111.1"),
        "CPU: 18446744073709551615/0 (inf%) | Memory: 10/9 bytes (111.1%)"
    );
}

#[test]
fn test_format_budget_agrees_with_float_formatting() {
    let cases = [(3000u64, 100_000u64, 1000u64, 40_000u64), (1, 3, 2, 3), (7, 7, 0, 1)];
    for (cpu, cpu_limit, mem, mem_limit) in cases {
        let cpu_percent = format!("{:.1}", (cpu as f64 / cpu_limit as f64) * 100.0);
        let mem_percent = format!("{:.1}", (mem as f64 / mem_limit as f64) * 100.0);
        let expected = format!(
            "CPU: {}/{} ({:.1}%) | Memory: {}/{} bytes ({:.1}%)",
            cpu,
            cpu_limit,
            (cpu as f64 / cpu_limit as f64) * 100.0,
            mem,
            mem_limit,
            (mem as f64 / mem_limit as f64) * 100.0
        );
        assert_eq!(
            Formatter::format_budget(cpu, cpu_limit, &cpu_percent, mem, mem_limit, &mem_percent),
            expected
        );
    }
}

#[test]
fn test_decimal_text() {
    assert_eq!(decimal(0), "0");
    assert_eq!(decimal(7), "7");
    assert_eq!(decimal(10), "10");
    assert_eq!(decimal(1_000_000), "1000000");
    assert_eq!(decimal(9_876_543_210), "9876543210");
    assert_eq!(decimal(u64::MAX), "18446744073709551615");
}
