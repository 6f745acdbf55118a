use keypad_calc::keypad::{CalcState, Key, Mode};
use keypad_calc::text::{oper_repl, show_lens};

fn state(expression: &str, mode: Mode) -> CalcState {
    CalcState {
        expression: expression.to_string(),
        display: show_lens(expression.to_string()),
        mode,
    }
}

fn op(glyph: char, label: &str) -> Key {
    Key::Operator(glyph, label.to_string())
}

fn digit(d: &str) -> Key {
    Key::Digit(d.to_string())
}

#[test]
fn digit_replaces_placeholder() {
    let mut s = CalcState::new();
    assert_eq!(s.expression, "0");
    assert_eq!(s.mode, Mode::Editing);
    assert_eq!(s.press(&digit("7")), None);
    assert_eq!(s.expression, "7");
    assert_eq!(s.display, "7");
    assert_eq!(s.mode, Mode::Editing);
}

#[test]
fn operator_appends_without_operand() {
    let mut s = state("7", Mode::Editing);
    s.press(&op('+', "+"));
    assert_eq!(s.expression, "7+");
    assert_eq!(s.display, "7+");
}

fn evaluated_seven_plus_three() -> CalcState {
    let mut s = state("7+3", Mode::Editing);
    let asked = s.press(&op('=', "="));
    assert_eq!(asked, Some("7+3".to_string()));
    assert_eq!(s.mode, Mode::Result);
    s.finish_evaluate(Ok("10".to_string()));
    s
}

#[test]
fn evaluate_success() {
    let s = evaluated_seven_plus_three();
    assert_eq!(s.expression, "10");
    assert_eq!(s.display, "10");
    assert_eq!(s.mode, Mode::Result);
}

#[test]
fn minus_chains_off_result() {
    let mut s = evaluated_seven_plus_three();
    s.press(&op('−', "−"));
    assert_eq!(s.expression, "10−");
    assert_eq!(s.mode, Mode::Editing);
}

#[test]
fn paren_replaces_result() {
    let mut s = evaluated_seven_plus_three();
    s.press(&op('(', "("));
    assert_eq!(s.expression, "(");
    assert_eq!(s.mode, Mode::Editing);
}

#[test]
fn point_appends_to_placeholder() {
    let mut s = CalcState::new();
    s.press(&op('.', "."));
    assert_eq!(s.expression, "0.");
    assert_eq!(s.display, "0.");
}

#[test]
fn failed_evaluation_then_digit() {
    let mut s = state("5/0", Mode::Editing);
    assert_eq!(s.press(&op('=', "=")), Some("5/0".to_string()));
    s.finish_evaluate(Err("Divide by zero".to_string()));
    assert_eq!(s.expression, "0");
    assert_eq!(s.display, "Divide by zero");
    assert_eq!(s.mode, Mode::Result);
    s.press(&digit("2"));
    assert_eq!(s.expression, "2");
    assert_eq!(s.display, "2");
    assert_eq!(s.mode, Mode::Editing);
}

#[test]
fn evaluate_twice_keeps_value() {
    let mut s = evaluated_seven_plus_three();
    let asked = s.press(&op('=', "="));
    assert_eq!(asked, Some("10".to_string()));
    s.finish_evaluate(Ok("10".to_string()));
    assert_eq!(s.expression, "10");
    assert_eq!(s.display, "10");
    assert_eq!(s.mode, Mode::Result);
}

#[test]
fn evaluate_twice_after_error_skips() {
    let mut s = state("5/0", Mode::Editing);
    s.press(&op('=', "="));
    s.finish_evaluate(Err("Divide by zero".to_string()));
    assert_eq!(s.press(&op('=', "=")), None);
    assert_eq!(s.expression, "0");
    assert_eq!(s.display, "Divide by zero");
    assert_eq!(s.mode, Mode::Result);
}

#[test]
fn evaluate_placeholder_skips() {
    let mut s = CalcState::new();
    assert_eq!(s.press(&op('=', "=")), None);
    assert_eq!(s.expression, "0");
    assert_eq!(s.mode, Mode::Result);
}

#[test]
fn evaluation_input_is_translated() {
    let mut s = state("8÷2×3", Mode::Editing);
    assert_eq!(s.press(&op('=', "=")), Some("8/2*3".to_string()));
    assert_eq!(s.expression, "8÷2×3");
}

#[test]
fn function_token_rules() {
    let mut s = CalcState::new();
    s.press(&Key::Function("sin(".to_string()));
    assert_eq!(s.expression, "sin(");
    s.press(&Key::Function("cos(".to_string()));
    assert_eq!(s.expression, "sin(cos(");
    let mut r = evaluated_seven_plus_three();
    r.press_function("sqrt(");
    assert_eq!(r.expression, "sqrt(");
    assert_eq!(r.mode, Mode::Editing);
}

#[test]
fn digit_appends_and_replaces_result() {
    let mut s = state("12", Mode::Editing);
    s.press_digit("3");
    assert_eq!(s.expression, "123");
    let mut r = evaluated_seven_plus_three();
    r.press_digit("4");
    assert_eq!(r.expression, "4");
    assert_eq!(r.mode, Mode::Editing);
}

#[test]
fn generic_operator_on_placeholder_and_result() {
    let mut s = CalcState::new();
    s.press(&op('+', "+"));
    assert_eq!(s.expression, "0+");
    let mut r = evaluated_seven_plus_three();
    r.press(&op('×', "×"));
    assert_eq!(r.expression, "10×");
    assert_eq!(r.mode, Mode::Editing);
}

#[test]
fn paren_pi_minus_in_editing() {
    let mut s = CalcState::new();
    s.press(&op('π', "P"));
    assert_eq!(s.expression, "P");
    s.press(&op('−', "-"));
    assert_eq!(s.expression, "P-");
    s.press(&op('(', "("));
    assert_eq!(s.expression, "P-(");
}

#[test]
fn minus_replaces_zero_result() {
    let mut s = state("0", Mode::Result);
    s.press(&op('−', "-"));
    assert_eq!(s.expression, "-");
    assert_eq!(s.mode, Mode::Editing);
    let mut p = evaluated_seven_plus_three();
    p.press_operator('π', "P");
    assert_eq!(p.expression, "P");
}

#[test]
fn point_after_result_discarded() {
    let mut s = evaluated_seven_plus_three();
    s.press(&op('.', "."));
    assert_eq!(s.expression, "0");
    assert_eq!(s.display, "0");
    assert_eq!(s.mode, Mode::Editing);
}

#[test]
fn point_not_deduplicated() {
    let mut s = state("1.", Mode::Editing);
    s.press(&op('.', "."));
    assert_eq!(s.expression, "1..");
}

#[test]
fn clear_keeps_mode() {
    let mut s = evaluated_seven_plus_three();
    s.press(&op('C', "C"));
    assert_eq!(s.expression, "0");
    assert_eq!(s.display, "0");
    assert_eq!(s.mode, Mode::Result);
    let mut e = state("12+", Mode::Editing);
    e.press(&op('C', "C"));
    assert_eq!(e.expression, "0");
    assert_eq!(e.mode, Mode::Editing);
}

#[test]
fn backspace_rules() {
    let mut s = state("12", Mode::Editing);
    s.press(&op('←', "←"));
    assert_eq!(s.expression, "1");
    s.press(&op('←', "←"));
    assert_eq!(s.expression, "0");
    s.press(&op('←', "←"));
    assert_eq!(s.expression, "0");
    let mut g = state("÷", Mode::Editing);
    g.press(&op('←', "←"));
    assert_eq!(g.expression, "0");
    let mut r = evaluated_seven_plus_three();
    r.press(&op('←', "←"));
    assert_eq!(r.expression, "1");
    assert_eq!(r.mode, Mode::Result);
    let mut m = state("2×π", Mode::Editing);
    m.press(&op('←', "←"));
    assert_eq!(m.expression, "2×");
}

#[test]
fn long_expression_shows_tail() {
    let mut s = state("1234567890123456789012345", Mode::Editing);
    assert_eq!(s.display, "1234567890123456789012345");
    s.press_digit("6");
    assert_eq!(s.expression, "12345678901234567890123456");
    assert_eq!(s.display, "2345678901234567890123456");
}

#[test]
fn show_lens_truncates_by_characters() {
    assert_eq!(show_lens(String::new()), "");
    assert_eq!(show_lens("abc".to_string()), "abc");
    let long = "÷".repeat(30);
    let shown = show_lens(long.clone());
    assert_eq!(shown.chars().count(), 25);
    assert!(long.ends_with(&shown));
    let mixed = format!("ab{}", "×".repeat(25));
    assert_eq!(show_lens(mixed), "×".repeat(25));
}

#[test]
fn oper_repl_rewrites_operators_only() {
    assert_eq!(oper_repl("1÷2×3".to_string()), "1/2*3");
    assert_eq!(oper_repl("sin(P)-4^2%3".to_string()), "sin(P)-4^2%3");
    assert_eq!(oper_repl(String::new()), "");
    let once = oper_repl("÷×÷π".to_string());
    assert_eq!(once, "/*/π");
    assert_eq!(oper_repl(once.clone()), once);
}
