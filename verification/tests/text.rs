use relm4_components::examples::text::decimal;
use relm4_components::examples::text::push_decimal;

#[test]
fn decimal_of_small_numbers() {
    assert_eq!(decimal(0), "0");
    assert_eq!(decimal(7), "7");
    assert_eq!(decimal(9), "9");
}

#[test]
fn decimal_at_the_digit_boundaries() {
    assert_eq!(decimal(10), "10");
    assert_eq!(decimal(99), "99");
    assert_eq!(decimal(100), "100");
    assert_eq!(decimal(101), "101");
    assert_eq!(decimal(110), "110");
    assert_eq!(decimal(200), "200");
    assert_eq!(decimal(255), "255");
}

#[test]
fn decimal_agrees_with_the_standard_notation() {
    for n in 0..=u8::MAX {
        assert_eq!(decimal(n), n.to_string());
    }
}

#[test]
fn push_decimal_appends() {
    let mut text = String::from("n = ");
    push_decimal(&mut text, 42);
    assert_eq!(text, "n = 42");
    push_decimal(&mut text, 0);
    assert_eq!(text, "n = 420");
}

#[test]
fn decimal_reads_back() {
    for n in 0..=u8::MAX {
        assert_eq!(decimal(n).parse::<u8>(), Ok(n));
    }
}

#[test]
fn decimal_has_no_leading_zero() {
    for n in 1..=u8::MAX {
        assert!(!decimal(n).starts_with('0'));
    }
    assert_eq!(decimal(0).len(), 1);
    assert_eq!(decimal(9).len(), 1);
    assert_eq!(decimal(10).len(), 2);
    assert_eq!(decimal(99).len(), 2);
    assert_eq!(decimal(100).len(), 3);
    assert_eq!(decimal(255).len(), 3);
}
