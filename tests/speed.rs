use bagua_net::speed::{parse_decimal_i32, get_net_if_speed, DEFAULT_SPEED};

#[test]
fn parses_plain_and_signed_integers() {
    assert_eq!(parse_decimal_i32("25000"), Some(25000));
    assert_eq!(parse_decimal_i32("+7"), Some(7));
    assert_eq!(parse_decimal_i32("-5"), Some(-5));
    assert_eq!(parse_decimal_i32("007"), Some(7));
    assert_eq!(parse_decimal_i32("0"), Some(0));
}

#[test]
fn parses_the_extremes_of_the_range() {
    assert_eq!(parse_decimal_i32("2147483647"), Some(i32::MAX));
    assert_eq!(parse_decimal_i32("-2147483648"), Some(i32::MIN));
    assert_eq!(parse_decimal_i32("2147483648"), None);
    assert_eq!(parse_decimal_i32("-2147483649"), None);
    assert_eq!(parse_decimal_i32("99999999999999999999"), None);
}

#[test]
fn rejects_what_is_not_a_decimal_integer() {
    for t in ["", "+", "-", "12a", " 1", "1 ", "10000\n", "--1", "1.5"] {
        assert_eq!(parse_decimal_i32(t), None, "{:?}", t);
        assert_eq!(t.parse::<i32>().ok(), None);
    }
}

#[test]
fn speed_defaults_to_ten_gigabit() {
    assert_eq!(DEFAULT_SPEED, 10000);
    assert_eq!(get_net_if_speed(None), 10000);
    assert_eq!(get_net_if_speed(Some("unknown")), 10000);
    assert_eq!(get_net_if_speed(Some("100000")), 100000);
    assert_eq!(get_net_if_speed(Some("-1")), -1);
}

#[test]
fn speed_attribute_line_break_is_dropped() {
    assert_eq!(get_net_if_speed(Some("25000\n")), 25000);
    assert_eq!(get_net_if_speed(Some("25000\n\n")), 10000);
    assert_eq!(get_net_if_speed(Some("\n")), 10000);
    assert_eq!(get_net_if_speed(Some("25000 \n")), 10000);
}
