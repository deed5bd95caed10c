use slink::port::{parse_port, FIRST_UNPRIVILEGED_PORT};

#[test]
fn parse_port_reads_decimal_numbers() {
    assert_eq!(parse_port("0"), Some(0));
    assert_eq!(parse_port("22"), Some(22));
    assert_eq!(parse_port("8080"), Some(8080));
    assert_eq!(parse_port("65535"), Some(65535));
    assert_eq!(parse_port("0022"), Some(22));
}

#[test]
fn parse_port_takes_one_sign() {
    assert_eq!(parse_port("+80"), Some(80));
    assert_eq!(parse_port("-80"), Some(-80));
    assert_eq!(parse_port("-0"), Some(0));
    assert_eq!(parse_port("+0"), Some(0));
    assert_eq!(parse_port("+"), None);
    assert_eq!(parse_port("-"), None);
    assert_eq!(parse_port("--1"), None);
    assert_eq!(parse_port("+-1"), None);
    assert_eq!(parse_port("1-"), None);
}

#[test]
fn parse_port_refuses_what_is_no_number() {
    assert_eq!(parse_port(""), None);
    assert_eq!(parse_port(" 22"), None);
    assert_eq!(parse_port("22 "), None);
    assert_eq!(parse_port("2 2"), None);
    assert_eq!(parse_port("22a"), None);
    assert_eq!(parse_port("0x16"), None);
    assert_eq!(parse_port("1_000"), None);
    assert_eq!(parse_port("ssh"), None);
    assert_eq!(parse_port("8.0"), None);
    assert_eq!(parse_port("\u{FF12}\u{FF12}"), None);
    assert_eq!(parse_port("\u{0662}"), None);
}

#[test]
fn parse_port_stops_at_the_limits_of_32_bits() {
    assert_eq!(parse_port("2147483647"), Some(i32::MAX));
    assert_eq!(parse_port("2147483648"), None);
    assert_eq!(parse_port("-2147483648"), Some(i32::MIN));
    assert_eq!(parse_port("-2147483649"), None);
    assert_eq!(parse_port("+2147483647"), Some(i32::MAX));
    assert_eq!(parse_port("00000000002147483647"), Some(i32::MAX));
    assert_eq!(parse_port("4294967296"), None);
    assert_eq!(parse_port("99999999999999999999999999"), None);
    assert_eq!(parse_port("-99999999999999999999999999"), None);
    assert_eq!(parse_port("99999999999999999999999999x"), None);
}

#[test]
fn parse_port_agrees_with_std_on_a_range() {
    let mut n: i64 = -70000;
    while n <= 70000 {
        let text = format!("{}", n);
        assert_eq!(parse_port(&text), text.parse::<i32>().ok(), "{}", text);
        n += 7;
    }
}

#[test]
fn parse_port_agrees_with_std_on_odd_texts() {
    let samples = [
        "", "+", "-", "+1", "-1", "01", "-01", "+-1", "1+", " 1", "1 ", "1\n", "2147483647",
        "2147483648", "-2147483648", "-2147483649", "21474836470", "000", "-000", "12ab", "ab12",
        "\u{0661}", "1e3", "\u{0661}\u{0662}",
    ];
    for s in samples {
        assert_eq!(parse_port(s), s.parse::<i32>().ok(), "{:?}", s);
    }
}

#[test]
fn first_unprivileged_port_is_1024() {
    assert_eq!(FIRST_UNPRIVILEGED_PORT, 1024);
}
