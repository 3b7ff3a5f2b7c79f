use autoclicker::config::Mode;
use autoclicker::events::{
    append_decimal, click_line, decimal_string, started_line, stopped_line, Click,
};

#[test]
fn decimal_string_of_small_numbers() {
    assert_eq!(decimal_string(0), "0");
    assert_eq!(decimal_string(7), "7");
    assert_eq!(decimal_string(9), "9");
    assert_eq!(decimal_string(10), "10");
    assert_eq!(decimal_string(120), "120");
    assert_eq!(decimal_string(1005), "1005");
}

#[test]
fn decimal_string_of_the_largest_number() {
    assert_eq!(decimal_string(u128::MAX), "340282366920938463463374607431768211455");
    assert_eq!(decimal_string(36893488147419103230u128), "36893488147419103230");
}

#[test]
fn decimal_string_agrees_with_the_standard_notation() {
    let mut n: u128 = 1;
    for _ in 0..38 {
        assert_eq!(decimal_string(n), format!("{}", n));
        assert_eq!(decimal_string(n - 1), format!("{}", n - 1));
        n *= 10;
    }
    for k in 0..2000u128 {
        assert_eq!(decimal_string(k), format!("{}", k));
    }
}

#[test]
fn append_decimal_keeps_what_was_there() {
    let mut text = String::from("delay=");
    append_decimal(&mut text, 250);
    assert_eq!(text, "delay=250");
    append_decimal(&mut text, 0);
    assert_eq!(text, "delay=2500");
}

#[test]
fn click_line_of_the_regular_mode() {
    assert_eq!(click_line(Click::Regular), "Click!");
}

#[test]
fn click_line_of_the_jitter_mode_names_the_delay() {
    assert_eq!(click_line(Click::Jitter { delay_ms: 137 }), "Click with jitter: 137 ms");
    assert_eq!(click_line(Click::Jitter { delay_ms: 0 }), "Click with jitter: 0 ms");
    assert_eq!(
        click_line(Click::Jitter { delay_ms: 36893488147419103230u128 }),
        "Click with jitter: 36893488147419103230 ms"
    );
}

#[test]
fn started_and_stopped_lines() {
    assert_eq!(started_line(Mode::Regular), "Regular mode started.");
    assert_eq!(started_line(Mode::Jitter), "Jitter mode started.");
    assert_eq!(stopped_line(Mode::Regular), "Regular mode stopped.");
    assert_eq!(stopped_line(Mode::Jitter), "Jitter mode stopped.");
}
