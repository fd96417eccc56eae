use armbankrate_parser::fetch::{apply_outcomes, FetchOutcome};
use armbankrate_parser::sort::{rate_key, sort_banks, OrderType, SortData};
use armbankrate_parser::{bank_from_str, banks_from_names, get_bank_vec, Bank, CurrencyName,
    CurrencyType, Error, RateValue};

fn ardshin_json() -> String {
    String::from(
        "{\"data\":{\"currencies\":{\"cash\":[{\"type\":\"USD\",\"buy\":\"380\",\"sell\":\"390\"}],\"no_cash\":[{\"type\":\"USD\",\"buy\":\"381\",\"sell\":\"391\"}]}}}",
    )
}

fn ineco_json(usd_buy: &str) -> String {
    let mut s = String::from("{\"items\":[{\"code\":\"USD\",\"cash\":{\"buy\":");
    s.push_str(usd_buy);
    s.push_str(",\"sell\":399},\"cashless\":{\"buy\":382,\"sell\":392}}]}");
    s
}

#[test]
fn bank_from_str_is_case_insensitive() {
    assert!(matches!(bank_from_str("Ardshinbank"), Ok(Bank::Ardshinbank(_))));
    assert!(matches!(bank_from_str("UNIBANK"), Ok(Bank::Unibank(_))));
    assert!(matches!(bank_from_str("idbank"), Ok(Bank::Idbank(_))));
    assert!(matches!(bank_from_str("conversebank"), Ok(Bank::Conversebank(_))));
    assert!(matches!(bank_from_str("Evocabank"), Ok(Bank::Evocabank(_))));
    assert!(matches!(bank_from_str("inecobank"), Ok(Bank::Inecobank(_))));
}

#[test]
fn unknown_bank_name_is_reported_as_given() {
    match bank_from_str("NoSuchBank") {
        Err(e) => assert_eq!(e, Error::BankNotFound(String::from("NoSuchBank"))),
        Ok(_) => panic!("resolved an unknown name"),
    }
}

#[test]
fn get_bank_vec_holds_every_known_institution() {
    let banks = get_bank_vec();
    assert_eq!(banks.len(), 6);
    let names: Vec<&String> = banks.iter().map(|b| b.get_name()).collect();
    assert_eq!(
        names,
        [
            &String::from("Unibank"),
            &String::from("Conversebank"),
            &String::from("Idbank"),
            &String::from("Evocabank"),
            &String::from("Inecobank"),
            &String::from("Ardshinbank"),
        ]
    );
}

#[test]
fn banks_from_names_stops_at_first_unknown() {
    let names = vec![String::from("unibank"), String::from("whatbank")];
    match banks_from_names(&names) {
        Err(e) => assert_eq!(e, Error::BankNotFound(String::from("whatbank"))),
        Ok(_) => panic!("resolved an unknown name"),
    }
    let names = vec![String::from("unibank"), String::from("IDBANK")];
    let banks = banks_from_names(&names).unwrap();
    assert_eq!(banks.len(), 2);
    assert!(matches!(banks[1], Bank::Idbank(_)));
}

#[test]
fn requests_describe_each_institutions_fetch() {
    let banks = get_bank_vec();
    for bank in &banks {
        let rs = bank.requests();
        match bank {
            Bank::Idbank(_) => {
                assert_eq!(rs.len(), 2);
                assert!(rs[0].post && rs[1].post);
                assert_eq!(rs[0].form, vec![(String::from("RATE_TYPE"), String::from("CASH"))]);
                assert_eq!(
                    rs[1].form,
                    vec![(String::from("RATE_TYPE"), String::from("NO_CASH"))]
                );
            },
            _ => {
                assert_eq!(rs.len(), 1);
                assert!(!rs[0].post);
                assert_eq!(&rs[0].url, bank.get_url());
            },
        }
    }
}

#[test]
fn one_transport_failure_leaves_the_other_institutions_populated() {
    let mut banks = vec![
        bank_from_str("ardshinbank").unwrap(),
        bank_from_str("conversebank").unwrap(),
        bank_from_str("inecobank").unwrap(),
    ];
    let outcomes = vec![
        FetchOutcome::Bodies(vec![ardshin_json()]),
        FetchOutcome::TransportFailed,
        FetchOutcome::Bodies(vec![ineco_json("383")]),
    ];
    let results = apply_outcomes(&mut banks, &outcomes);
    assert_eq!(results, vec![Ok(()), Err(Error::Http), Ok(())]);
    assert_eq!(
        banks[0].cash_currencies().get_usd_rate().buy(),
        &Some(RateValue::new(3_800_000))
    );
    assert_eq!(banks[1].cash_currencies().get_usd_rate().buy(), &None);
    assert_eq!(
        banks[2].cash_currencies().get_usd_rate().buy(),
        &Some(RateValue::new(3_830_000))
    );
}

#[test]
fn wrong_body_count_is_structural_failure_and_leaves_bank_untouched() {
    let mut banks = vec![bank_from_str("ardshinbank").unwrap()];
    let outcomes = vec![FetchOutcome::Bodies(vec![ardshin_json(), ardshin_json()])];
    let results = apply_outcomes(&mut banks, &outcomes);
    assert_eq!(results, vec![Err(Error::BankParseFail)]);
    assert_eq!(banks[0].cash_currencies().get_usd_rate().buy(), &None);
}

#[test]
fn json_and_html_sources_compare_format_agnostically() {
    // one institution populated from a JSON payload, one from an HTML page,
    // with distinct USD cash buy rates
    let mut json_bank = bank_from_str("inecobank").unwrap();
    assert_eq!(
        json_bank.apply_responses(&FetchOutcome::Bodies(vec![ineco_json("395")])),
        Ok(())
    );
    let html_page = String::from(
        "<html><body><div id=\"main_static_content\"><i></i><i></i><i></i><i></i><table>\n<tbody>\n<tr>\n<td>h</td>\n</tr>\n<tr>\n<td>h</td>\n</tr>\n<tr>\n<td>USD</td>\n<td>x</td>\n<td>x</td>\n<td>380</td>\n<td>390</td>\n<td>381</td>\n<td>391</td>\n</tr>\n</tbody></table></div></body></html>",
    );
    let mut html_bank = bank_from_str("conversebank").unwrap();
    assert_eq!(
        html_bank.apply_responses(&FetchOutcome::Bodies(vec![html_page.clone()])),
        Ok(())
    );
    let sd = SortData::new(CurrencyType::Cash, CurrencyName::USD, OrderType::Buy);
    assert_eq!(rate_key(&json_bank, &sd), 3_950_000);
    assert_eq!(rate_key(&html_bank, &sd), 3_800_000);
    let mut banks = vec![html_bank, json_bank];
    sort_banks(&mut banks, &sd);
    assert_eq!(banks[0].get_name(), &String::from("Inecobank"));
    assert_eq!(banks[1].get_name(), &String::from("Conversebank"));

    // equal values from the two formats carry the same key
    let mut json_bank = bank_from_str("inecobank").unwrap();
    assert_eq!(
        json_bank.apply_responses(&FetchOutcome::Bodies(vec![ineco_json("380")])),
        Ok(())
    );
    let mut html_bank = bank_from_str("conversebank").unwrap();
    assert_eq!(
        html_bank.apply_responses(&FetchOutcome::Bodies(vec![html_page])),
        Ok(())
    );
    assert_eq!(rate_key(&json_bank, &sd), rate_key(&html_bank, &sd));
}
