use solar_grabber::numeric::{digit_of, parse_thousandths, parse_u16};

#[test]
fn digits_are_told_from_other_characters() {
    assert_eq!(digit_of('0'), Some(0));
    assert_eq!(digit_of('7'), Some(7));
    assert_eq!(digit_of('9'), Some(9));
    assert_eq!(digit_of('/'), None);
    assert_eq!(digit_of(':'), None);
    assert_eq!(digit_of('a'), None);
    assert_eq!(digit_of('٣'), None);
}

#[test]
fn integers_are_read() {
    assert_eq!(parse_u16("0"), Some(0));
    assert_eq!(parse_u16("7"), Some(7));
    assert_eq!(parse_u16("100"), Some(100));
    assert_eq!(parse_u16("007"), Some(7));
    assert_eq!(parse_u16("+12"), Some(12));
    assert_eq!(parse_u16("65535"), Some(65535));
    assert_eq!(parse_u16("000065535"), Some(65535));
}

#[test]
fn integers_agree_with_the_standard_library() {
    for text in [
        "", "+", "-", "0", "+0", "-0", "1", "12", "+12", "++12", "1+2", "65535", "65536",
        "99999999999999999999999", "1.0", " 1", "1 ", "0x10", "1e3", "١٢", "12a",
    ] {
        assert_eq!(parse_u16(text), text.parse::<u16>().ok(), "for {:?}", text);
    }
}

#[test]
fn what_is_no_integer_is_refused() {
    assert_eq!(parse_u16(""), None);
    assert_eq!(parse_u16("+"), None);
    assert_eq!(parse_u16("-1"), None);
    assert_eq!(parse_u16("1.5"), None);
    assert_eq!(parse_u16("12a"), None);
    assert_eq!(parse_u16("a12"), None);
    assert_eq!(parse_u16(" 12"), None);
    assert_eq!(parse_u16("65536"), None);
    assert_eq!(parse_u16("18446744073709551616"), None);
    assert_eq!(parse_u16("99999999999999999999999999"), None);
}

#[test]
fn decimals_are_read_as_thousandths() {
    assert_eq!(parse_thousandths("0"), Some(0));
    assert_eq!(parse_thousandths("50"), Some(50_000));
    assert_eq!(parse_thousandths("900"), Some(900_000));
    assert_eq!(parse_thousandths("245.3"), Some(245_300));
    assert_eq!(parse_thousandths("245.30"), Some(245_300));
    assert_eq!(parse_thousandths("245.03"), Some(245_030));
    assert_eq!(parse_thousandths("245.003"), Some(245_003));
    assert_eq!(parse_thousandths("0.125"), Some(125));
    assert_eq!(parse_thousandths("+1.5"), Some(1_500));
    assert_eq!(parse_thousandths("5."), Some(5_000));
    assert_eq!(parse_thousandths(".5"), Some(500));
    assert_eq!(parse_thousandths("007.25"), Some(7_250));
}

#[test]
fn decimals_are_cut_off_after_the_third_place() {
    assert_eq!(parse_thousandths("1.2345"), Some(1_234));
    assert_eq!(parse_thousandths("1.9999"), Some(1_999));
    assert_eq!(parse_thousandths("0.0009"), Some(0));
    assert_eq!(parse_thousandths("3.14159265358979323846264338327950288"), Some(3_141));
}

#[test]
fn what_is_no_decimal_is_refused() {
    assert_eq!(parse_thousandths(""), None);
    assert_eq!(parse_thousandths("+"), None);
    assert_eq!(parse_thousandths("."), None);
    assert_eq!(parse_thousandths("+."), None);
    assert_eq!(parse_thousandths("-1"), None);
    assert_eq!(parse_thousandths("1.2.3"), None);
    assert_eq!(parse_thousandths("1..2"), None);
    assert_eq!(parse_thousandths("1,5"), None);
    assert_eq!(parse_thousandths("1.5 "), None);
    assert_eq!(parse_thousandths(" 1.5"), None);
    assert_eq!(parse_thousandths("abc"), None);
    assert_eq!(parse_thousandths("1.5W"), None);
    assert_eq!(parse_thousandths("1.a"), None);
    assert_eq!(parse_thousandths("1e"), None);
    assert_eq!(parse_thousandths("e3"), None);
    assert_eq!(parse_thousandths(".e3"), None);
    assert_eq!(parse_thousandths("1e+"), None);
    assert_eq!(parse_thousandths("1e-"), None);
    assert_eq!(parse_thousandths("1e3.0"), None);
    assert_eq!(parse_thousandths("1e3e3"), None);
    assert_eq!(parse_thousandths("1ee3"), None);
    assert_eq!(parse_thousandths("1e 3"), None);
    assert_eq!(parse_thousandths("1e+-3"), None);
    assert_eq!(parse_thousandths("1x3"), None);
    assert_eq!(parse_thousandths("inf"), None);
    assert_eq!(parse_thousandths("infinity"), None);
    assert_eq!(parse_thousandths("NaN"), None);
    assert_eq!(parse_thousandths("١.٥"), None);
}

#[test]
fn decimals_too_large_are_refused() {
    // u64::MAX is 18446744073709551615.
    assert_eq!(parse_thousandths("18446744073709551.615"), Some(u64::MAX));
    assert_eq!(parse_thousandths("18446744073709551.6159"), Some(u64::MAX));
    assert_eq!(parse_thousandths("18446744073709551.616"), None);
    assert_eq!(parse_thousandths("18446744073709552"), None);
    assert_eq!(parse_thousandths("18446744073709551615"), None);
    assert_eq!(parse_thousandths("18446744073709551616"), None);
    assert_eq!(parse_thousandths("999999999999999999999999999999.5"), None);
    assert_eq!(parse_thousandths("999999999999999999999999999999.x"), None);
}

#[test]
fn decimals_with_an_exponent_are_read() {
    assert_eq!(parse_thousandths("1e3"), Some(1_000_000));
    assert_eq!(parse_thousandths("1E3"), Some(1_000_000));
    assert_eq!(parse_thousandths("1e+3"), Some(1_000_000));
    assert_eq!(parse_thousandths("1e0"), Some(1_000));
    assert_eq!(parse_thousandths("1e-0"), Some(1_000));
    assert_eq!(parse_thousandths("1.5e2"), Some(150_000));
    assert_eq!(parse_thousandths("1.e2"), Some(100_000));
    assert_eq!(parse_thousandths(".5e1"), Some(5_000));
    assert_eq!(parse_thousandths("+2.5E-1"), Some(250));
    assert_eq!(parse_thousandths("1500e-3"), Some(1_500));
    assert_eq!(parse_thousandths("1.2345678E7"), Some(12_345_678_000));
    assert_eq!(parse_thousandths("12345678.9e-5"), Some(123_456));
    assert_eq!(parse_thousandths("9.5E-4"), Some(0));
    assert_eq!(parse_thousandths("1e-3"), Some(1));
    assert_eq!(parse_thousandths("1e-4"), Some(0));
    assert_eq!(parse_thousandths("123456e-9"), Some(0));
    assert_eq!(parse_thousandths("123456e-8"), Some(1));
    assert_eq!(parse_thousandths("0.000001e6"), Some(1_000));
    assert_eq!(parse_thousandths("0.000001234e6"), Some(1_234));
    assert_eq!(parse_thousandths("00012e001"), Some(120_000));
}

#[test]
fn exponents_of_any_size_are_read() {
    let huge = "9".repeat(60);
    assert_eq!(parse_thousandths(&format!("0e{}", huge)), Some(0));
    assert_eq!(parse_thousandths(&format!("0.000e{}", huge)), Some(0));
    assert_eq!(parse_thousandths(&format!("1e{}", huge)), None);
    assert_eq!(parse_thousandths(&format!("0.0000001e{}", huge)), None);
    assert_eq!(parse_thousandths(&format!("1e-{}", huge)), Some(0));
    assert_eq!(parse_thousandths(&format!("{}e-{}", huge, huge)), Some(0));
    assert_eq!(parse_thousandths("0e340282366920938463463374607431768211455"), Some(0));
    assert_eq!(parse_thousandths("7e340282366920938463463374607431768211455"), None);
    assert_eq!(parse_thousandths("7e340282366920938463463374607431768211456"), None);
    assert_eq!(parse_thousandths("7e-340282366920938463463374607431768211456"), Some(0));
    assert_eq!(parse_thousandths("1e16"), Some(10_000_000_000_000_000_000));
    assert_eq!(parse_thousandths("1e17"), None);
    assert_eq!(parse_thousandths("1.8446744073709551615e16"), Some(u64::MAX));
    assert_eq!(parse_thousandths("1.8446744073709551616e16"), None);
    assert_eq!(parse_thousandths("18446744073709551615e-3"), Some(u64::MAX));
    assert_eq!(parse_thousandths("184467440737095516159e-4"), Some(u64::MAX));
    assert_eq!(parse_thousandths("18446744073709551616e-3"), None);
    assert_eq!(parse_thousandths(&format!("1{}e-60", "0".repeat(60))), Some(1_000));
}

#[test]
fn decimals_agree_with_floats_where_these_are_exact() {
    for text in [
        "0", "1", "50", "900", "0.5", "245.25", "1e3", "1.5e2", "2.5E-1", "+7.125", "1500e-3",
        "4096", "0.125e3", "3e0", ".5", "5.", "1E6",
    ] {
        let float = text.parse::<f64>().unwrap();
        assert_eq!(parse_thousandths(text), Some((float * 1000.0) as u64), "for {:?}", text);
    }
    for text in ["", ".", "+", "e", "1e", "abc", "1.2.3", "1,5", "0x10", "1_000", " 1"] {
        assert!(text.parse::<f64>().is_err(), "for {:?}", text);
        assert_eq!(parse_thousandths(text), None, "for {:?}", text);
    }
}
