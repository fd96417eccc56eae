use armbankrate_parser::{parse_rate, parse_rate_or_zero, Error, RateValue, RATE_SCALE};

#[test]
fn scale_is_ten_thousandths() {
    assert_eq!(RATE_SCALE, 10_000);
}

#[test]
fn parses_integer_rate() {
    assert_eq!(parse_rate("380"), Ok(RateValue::new(3_800_000)));
}

#[test]
fn parses_fractional_rate() {
    assert_eq!(parse_rate("380.5"), Ok(RateValue::new(3_805_000)));
    assert_eq!(parse_rate("0.0001"), Ok(RateValue::new(1)));
    assert_eq!(parse_rate("4.1"), Ok(RateValue::new(41_000)));
}

#[test]
fn parses_bare_point_forms() {
    assert_eq!(parse_rate("5."), Ok(RateValue::new(50_000)));
    assert_eq!(parse_rate(".5"), Ok(RateValue::new(5_000)));
}

#[test]
fn truncates_past_four_fraction_digits() {
    assert_eq!(parse_rate("1.23456"), Ok(RateValue::new(12_345)));
}

#[test]
fn rejects_non_numeric_text() {
    assert_eq!(parse_rate("—"), Err(Error::CurrencyParseFail));
    assert_eq!(parse_rate(""), Err(Error::CurrencyParseFail));
    assert_eq!(parse_rate("."), Err(Error::CurrencyParseFail));
    assert_eq!(parse_rate("3a0"), Err(Error::CurrencyParseFail));
    assert_eq!(parse_rate("3.4.5"), Err(Error::CurrencyParseFail));
    assert_eq!(parse_rate("-5"), Err(Error::CurrencyParseFail));
}

#[test]
fn rejects_value_too_large_for_fixed_point() {
    assert_eq!(
        parse_rate("99999999999999999999"),
        Err(Error::CurrencyParseFail)
    );
}

#[test]
fn or_zero_substitutes_zero_for_garbage() {
    assert_eq!(parse_rate_or_zero("395"), RateValue::new(3_950_000));
    assert_eq!(parse_rate_or_zero("n/a"), RateValue::new(0));
}
