//! End-to-end evaluation of input lines, with the floating-point step that the
//! library leaves to its caller performed here.

use calculator::eval::NumClass;
use calculator::eval::Op;
use calculator::eval::decide;
use calculator::eval::split_input;

fn classify(token: &str) -> NumClass {
    match token.parse::<f64>() {
        Err(_) => NumClass::NotNumeric,
        Ok(v) => {
            if v == 0.0 {
                NumClass::Zero
            } else {
                NumClass::NonZero
            }
        }
    }
}

fn parse_and_calculate(input: &str) -> Result<f64, String> {
    let expr = split_input(input).map_err(|e| e.message())?;
    let lc = classify(&expr.left);
    let rc = classify(&expr.right);
    let op = decide(&expr, lc, rc).map_err(|e| e.message())?;
    let a: f64 = expr.left.parse().expect("decide admits only numeric operands");
    let b: f64 = expr.right.parse().expect("decide admits only numeric operands");
    Ok(match op {
        Op::Add => a + b,
        Op::Sub => a - b,
        Op::Mul => a * b,
        Op::Div => a / b,
    })
}

#[test]
fn test_addition() {
    assert_eq!(parse_and_calculate("5 + 3").unwrap(), 8.0);
}

#[test]
fn test_subtraction() {
    assert_eq!(parse_and_calculate("10 - 4").unwrap(), 6.0);
}

#[test]
fn test_multiplication() {
    assert_eq!(parse_and_calculate("3 * 7").unwrap(), 21.0);
}

#[test]
fn test_division() {
    assert_eq!(parse_and_calculate("15 / 3").unwrap(), 5.0);
}

#[test]
fn test_division_by_zero() {
    assert!(parse_and_calculate("10 / 0").is_err());
}

#[test]
fn test_invalid_operator() {
    assert!(parse_and_calculate("5 % 3").is_err());
}

#[test]
fn test_invalid_number() {
    assert!(parse_and_calculate("abc + 3").is_err());
}

#[test]
fn test_wrong_format() {
    assert!(parse_and_calculate("5 +").is_err());
    assert!(parse_and_calculate("5 + 3 + 2").is_err());
}

#[test]
fn division_by_zero_message_and_zero_dividend() {
    assert_eq!(
        parse_and_calculate("10 / 0").unwrap_err(),
        "Cannot divide by zero!"
    );
    assert_eq!(parse_and_calculate("0 / 10").unwrap(), 0.0);
}

#[test]
fn division_by_negative_zero_rejected() {
    assert_eq!(
        parse_and_calculate("10 / -0").unwrap_err(),
        "Cannot divide by zero!"
    );
}

#[test]
fn division_by_underflowed_zero_rejected() {
    assert_eq!(
        parse_and_calculate("10 / 1e-999").unwrap_err(),
        "Cannot divide by zero!"
    );
}

#[test]
fn invalid_number_message_names_left_token() {
    assert_eq!(
        parse_and_calculate("abc + 3").unwrap_err(),
        "'abc' is not a valid number"
    );
}

#[test]
fn invalid_number_message_names_right_token() {
    assert_eq!(
        parse_and_calculate("3 + xyz").unwrap_err(),
        "'xyz' is not a valid number"
    );
}

#[test]
fn left_operand_reported_before_right_and_operator() {
    assert_eq!(
        parse_and_calculate("abc % xyz").unwrap_err(),
        "'abc' is not a valid number"
    );
}

#[test]
fn invalid_operator_message_names_token() {
    assert_eq!(
        parse_and_calculate("5 % 3").unwrap_err(),
        "Unsupported operator: %"
    );
}

#[test]
fn wrong_format_message() {
    assert_eq!(
        parse_and_calculate("5 +").unwrap_err(),
        "Format should be: number operator number"
    );
    assert_eq!(
        parse_and_calculate("").unwrap_err(),
        "Format should be: number operator number"
    );
    assert_eq!(
        parse_and_calculate("   ").unwrap_err(),
        "Format should be: number operator number"
    );
}

#[test]
fn extra_whitespace_between_tokens_is_ignored() {
    assert_eq!(parse_and_calculate("  5   +\t\t3  ").unwrap(), 8.0);
}

#[test]
fn unicode_whitespace_separates_tokens() {
    assert_eq!(parse_and_calculate("5\u{00A0}+\u{3000}3").unwrap(), 8.0);
}

#[test]
fn fractional_and_negative_operands() {
    assert_eq!(parse_and_calculate("2.5 * 4").unwrap(), 10.0);
    assert_eq!(parse_and_calculate("-5 + 3").unwrap(), -2.0);
}

#[test]
fn infinite_result_is_passed_through() {
    assert!(parse_and_calculate("1e308 * 10").unwrap().is_infinite());
}
