use armbankrate_parser::conversebank::Conversebank;
use armbankrate_parser::options;
use armbankrate_parser::sort::{rate_key, sort_banks, OrderType, SortData};
use armbankrate_parser::{
    Bank, BankBody, Currency, CurrencyBody, CurrencyName, CurrencyType, RateValue,
};

fn bank_with_usd_cash_buy(name: &str, buy: Option<u64>) -> Bank {
    let mut cash = CurrencyBody::default();
    if let Some(raw) = buy {
        cash.fill_from_currency(Currency::new(
            CurrencyName::USD,
            Some(RateValue::new(raw)),
            None,
        ));
    }
    Bank::Conversebank(Conversebank {
        body: BankBody {
            name: String::from(name),
            url: String::from("https://example.invalid/"),
        },
        cash_currencies: cash,
        no_cash_currencies: CurrencyBody::default(),
    })
}

#[test]
fn sorts_descending_by_usd_buy() {
    let mut banks = vec![
        bank_with_usd_cash_buy("a", Some(3_800_000)),
        bank_with_usd_cash_buy("b", Some(3_950_000)),
        bank_with_usd_cash_buy("c", Some(3_870_000)),
    ];
    let sd = SortData::new(CurrencyType::Cash, CurrencyName::USD, OrderType::Buy);
    sort_banks(&mut banks, &sd);
    let names: Vec<&String> = banks.iter().map(|b| b.get_name()).collect();
    assert_eq!(names, [&String::from("b"), &String::from("c"), &String::from("a")]);
}

#[test]
fn institution_without_rate_sorts_last() {
    let mut banks = vec![
        bank_with_usd_cash_buy("none", None),
        bank_with_usd_cash_buy("low", Some(10)),
        bank_with_usd_cash_buy("high", Some(20)),
    ];
    let sd = SortData::new(CurrencyType::Cash, CurrencyName::USD, OrderType::Buy);
    sort_banks(&mut banks, &sd);
    let names: Vec<&String> = banks.iter().map(|b| b.get_name()).collect();
    assert_eq!(
        names,
        [&String::from("high"), &String::from("low"), &String::from("none")]
    );
}

#[test]
fn absent_rate_keys_as_zero() {
    let sd = SortData::new(CurrencyType::Cash, CurrencyName::USD, OrderType::Sell);
    let b = bank_with_usd_cash_buy("only-buy", Some(3_800_000));
    assert_eq!(rate_key(&b, &sd), 0);
}

#[test]
fn key_reads_selected_segment_currency_and_side() {
    let mut noncash = CurrencyBody::default();
    noncash.fill_from_currency(Currency::new(
        CurrencyName::EUR,
        Some(RateValue::new(4_100_000)),
        Some(RateValue::new(4_200_000)),
    ));
    let b = Bank::Conversebank(Conversebank {
        body: BankBody {
            name: String::from("x"),
            url: String::from("u"),
        },
        cash_currencies: CurrencyBody::default(),
        no_cash_currencies: noncash,
    });
    let buy = SortData::new(CurrencyType::Noncash, CurrencyName::EUR, OrderType::Buy);
    let sell = SortData::new(CurrencyType::Noncash, CurrencyName::EUR, OrderType::Sell);
    assert_eq!(rate_key(&b, &buy), 4_100_000);
    assert_eq!(rate_key(&b, &sell), 4_200_000);
}

#[test]
fn to_sort_data_builds_the_selected_key() {
    let sd = options::CurrencyName::EurSell.to_sort_data(CurrencyType::Noncash);
    assert_eq!(
        sd,
        SortData::new(CurrencyType::Noncash, CurrencyName::EUR, OrderType::Sell)
    );
    let sd = options::CurrencyName::UsdBuy.to_sort_data(CurrencyType::Cash);
    assert_eq!(
        sd,
        SortData::new(CurrencyType::Cash, CurrencyName::USD, OrderType::Buy)
    );
    let sd = options::CurrencyName::RubBuy.to_sort_data(CurrencyType::Cash);
    assert_eq!(
        sd,
        SortData::new(CurrencyType::Cash, CurrencyName::RUB, OrderType::Buy)
    );
    let sd = options::CurrencyName::GbpSell.to_sort_data(CurrencyType::Cash);
    assert_eq!(
        sd,
        SortData::new(CurrencyType::Cash, CurrencyName::GBP, OrderType::Sell)
    );
}

#[test]
fn equal_keys_keep_their_input_order() {
    let mut banks = vec![
        bank_with_usd_cash_buy("first", Some(3_800_000)),
        bank_with_usd_cash_buy("second", Some(3_800_000)),
        bank_with_usd_cash_buy("third", Some(3_900_000)),
    ];
    let sd = SortData::new(CurrencyType::Cash, CurrencyName::USD, OrderType::Buy);
    sort_banks(&mut banks, &sd);
    let names: Vec<&String> = banks.iter().map(|b| b.get_name()).collect();
    assert_eq!(
        names,
        [&String::from("third"), &String::from("first"), &String::from("second")]
    );
}
