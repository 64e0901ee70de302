//! Tests of the expression evaluator.

use proven_tui::calc::SafeCalculator;

#[test]
fn test_safe_addition() {
    let mut calc = SafeCalculator::new();
    let result = calc.evaluate("40 + 2");
    assert!(result.contains("42"));
}

#[test]
fn test_overflow_protection() {
    let mut calc = SafeCalculator::new();
    let result = calc.evaluate("overflow demo");
    assert!(result.contains("SAFE"));
}

#[test]
fn test_division_by_zero_protection() {
    let mut calc = SafeCalculator::new();
    let result = calc.evaluate("divzero demo");
    assert!(result.contains("SAFE"));
}

#[test]
fn addition_is_marked_safe() {
    let mut calc = SafeCalculator::new();
    assert_eq!(calc.evaluate("40 + 2"), "42 (safe)");
}

#[test]
fn single_number_is_echoed_and_remembered() {
    let mut calc = SafeCalculator::new();
    assert_eq!(calc.evaluate("21"), "21");
    assert_eq!(calc.evaluate("ans * 2"), "42 (safe)");
}

#[test]
fn ans_defaults_to_zero() {
    let mut calc = SafeCalculator::new();
    assert_eq!(calc.evaluate("ans + 5"), "5 (safe)");
}

#[test]
fn overflow_is_caught_and_last_result_kept() {
    let mut calc = SafeCalculator::new();
    assert_eq!(calc.evaluate("21"), "21");
    let result = calc.evaluate("9223372036854775807 + 1");
    assert_eq!(result, "Overflow protected: Overflow");
    assert_eq!(calc.evaluate("ans + 0"), "21 (safe)");
}

#[test]
fn subtraction_and_multiplication() {
    let mut calc = SafeCalculator::new();
    assert_eq!(calc.evaluate("10 - 4"), "6 (safe)");
    assert_eq!(calc.evaluate("6 * -7"), "-42 (safe)");
}

#[test]
fn division_and_modulo() {
    let mut calc = SafeCalculator::new();
    assert_eq!(calc.evaluate("84 / 2"), "42 (safe)");
    assert_eq!(calc.evaluate("-7 / 2"), "-3 (safe)");
    assert_eq!(calc.evaluate("-7 % 2"), "-1 (safe)");
}

#[test]
fn division_by_zero_is_caught() {
    let mut calc = SafeCalculator::new();
    assert_eq!(calc.evaluate("42 / 0"), "Division error protected: DivisionByZero");
    assert_eq!(calc.evaluate("42 % 0"), "Modulo error protected: DivisionByZero");
}

#[test]
fn minimum_division_overflow_is_caught() {
    let mut calc = SafeCalculator::new();
    assert_eq!(
        calc.evaluate("-9223372036854775808 / -1"),
        "Division error protected: Overflow"
    );
    assert_eq!(
        calc.evaluate("-9223372036854775808 % -1"),
        "Modulo error protected: Overflow"
    );
}

#[test]
fn subtraction_underflow_is_caught() {
    let mut calc = SafeCalculator::new();
    assert_eq!(
        calc.evaluate("-9223372036854775808 - 1"),
        "Overflow protected: Overflow"
    );
}

#[test]
fn multiplication_overflow_is_caught() {
    let mut calc = SafeCalculator::new();
    assert_eq!(
        calc.evaluate("9223372036854775807 * 2"),
        "Overflow protected: Overflow"
    );
}

#[test]
fn invalid_tokens_are_reported() {
    let mut calc = SafeCalculator::new();
    assert_eq!(calc.evaluate("forty"), "Invalid number");
    assert_eq!(calc.evaluate("x + 2"), "Invalid left operand");
    assert_eq!(calc.evaluate("2 + y"), "Invalid right operand");
    assert_eq!(calc.evaluate("2 ^ 3"), "Unknown operator: ^");
}

#[test]
fn usage_hint_for_other_shapes() {
    let mut calc = SafeCalculator::new();
    assert_eq!(calc.evaluate(""), "Usage: <num> <op> <num> (ops: + - * / %)");
    assert_eq!(
        calc.evaluate("1 2 3 4"),
        "Usage: <num> <op> <num> (ops: + - * / %)"
    );
}

#[test]
fn platform_bounds_commands() {
    let mut calc = SafeCalculator::new();
    assert_eq!(calc.evaluate("max i64"), "9223372036854775807");
    assert_eq!(calc.evaluate("min i64"), "-9223372036854775808");
}

#[test]
fn demo_reports_name_the_catch() {
    let mut calc = SafeCalculator::new();
    assert_eq!(
        calc.evaluate("overflow demo"),
        "SAFE! Adding 1 to 9223372036854775807 would overflow, but Proven caught it"
    );
    assert_eq!(
        calc.evaluate("divzero demo"),
        "SAFE! Division by zero was caught by Proven"
    );
}

#[test]
fn whitespace_between_tokens_is_ignored() {
    let mut calc = SafeCalculator::new();
    assert_eq!(calc.evaluate("  40   +   2  "), "42 (safe)");
}

#[test]
fn unicode_whitespace_separates_tokens() {
    let mut calc = SafeCalculator::new();
    assert_eq!(calc.evaluate("40\u{a0}+\u{2003}2"), "42 (safe)");
    assert_eq!(calc.evaluate("\u{3000}7 * 6\u{000c}"), "42 (safe)");
}
