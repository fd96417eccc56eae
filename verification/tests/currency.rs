use armbankrate_parser::{Currency, CurrencyBody, CurrencyName, Error, RateValue};

#[test]
fn usd_resolves_case_insensitively() {
    assert_eq!(CurrencyName::from_str("usd"), Ok(CurrencyName::USD));
    assert_eq!(CurrencyName::from_str("USD"), Ok(CurrencyName::USD));
    assert_eq!(CurrencyName::from_str("Usd"), Ok(CurrencyName::USD));
}

#[test]
fn rur_alias_collapses_to_rub() {
    assert_eq!(CurrencyName::from_str("RUR"), Ok(CurrencyName::RUB));
    assert_eq!(CurrencyName::from_str("RUB"), Ok(CurrencyName::RUB));
    assert_eq!(CurrencyName::from_str("rub"), Ok(CurrencyName::RUB));
    assert_eq!(CurrencyName::from_str("rur"), Ok(CurrencyName::RUB));
}

#[test]
fn gbp_and_eur_resolve() {
    assert_eq!(CurrencyName::from_str("gbp"), Ok(CurrencyName::GBP));
    assert_eq!(CurrencyName::from_str("EUR"), Ok(CurrencyName::EUR));
}

#[test]
fn unknown_code_fails_with_currency_not_found() {
    assert_eq!(
        CurrencyName::from_str("XYZ"),
        Err(Error::CurrencyNotFound(String::from("XYZ")))
    );
}

#[test]
fn unknown_code_is_reported_as_given() {
    assert_eq!(
        CurrencyName::from_str("xyz"),
        Err(Error::CurrencyNotFound(String::from("xyz")))
    );
}

#[test]
fn fill_overwrites_same_slot_and_keeps_others() {
    let mut body = CurrencyBody::default();
    let usd = Currency::new(
        CurrencyName::USD,
        Some(RateValue::new(3_800_000)),
        Some(RateValue::new(3_950_000)),
    );
    body.fill_from_currency(usd);
    let first_rub = Currency::new(CurrencyName::RUB, Some(RateValue::new(41_000)), None);
    let second_rub = Currency::new(
        CurrencyName::RUB,
        Some(RateValue::new(45_000)),
        Some(RateValue::new(47_000)),
    );
    body.fill_from_currency(first_rub);
    body.fill_from_currency(second_rub);
    assert_eq!(*body.get_rub_rate(), second_rub);
    assert_eq!(*body.get_usd_rate(), usd);
    assert_eq!(body.get_gbp_rate().buy(), &None);
    assert_eq!(body.get_eur_rate().sell(), &None);
}

#[test]
fn empty_body_has_absent_rates() {
    let body = CurrencyBody::default();
    assert_eq!(body.get_usd_rate().buy(), &None);
    assert_eq!(body.get_usd_rate().sell(), &None);
    assert_eq!(body.get_rub_rate().buy(), &None);
}

#[test]
fn currency_accessors_hand_back_construction_values() {
    let c = Currency::new(CurrencyName::EUR, Some(RateValue::new(4_100_000)), None);
    assert_eq!(c.buy(), &Some(RateValue::new(4_100_000)));
    assert_eq!(c.sell(), &None);
}
