use armbankrate_parser::ardshinbank::Ardshinbank;
use armbankrate_parser::conversebank::{ConverseCells, Conversebank};
use armbankrate_parser::evocabank::Evocabank;
use armbankrate_parser::idbank::Idbank;
use armbankrate_parser::inecobank::Inecobank;
use armbankrate_parser::unibank::Unibank;
use armbankrate_parser::{Error, RateValue};

fn converse_page(cash_buy: &str) -> String {
    let mut page = String::from(
        "<html><body><div id=\"main_static_content\"><i></i><i></i><i></i><i></i><table>\n<tbody>\n<tr>\n<td>h</td>\n</tr>\n<tr>\n<td>h</td>\n</tr>\n<tr>\n<td>USD</td>\n<td>x</td>\n<td>x</td>\n<td>",
    );
    page.push_str(cash_buy);
    page.push_str(
        "</td>\n<td>395</td>\n<td>381</td>\n<td>396</td>\n</tr>\n<tr>\n<td>EUR</td>\n<td>x</td>\n<td>x</td>\n<td>410</td>\n<td>420</td>\n<td>411</td>\n<td>421</td>\n</tr>\n</tbody></table></div></body></html>",
    );
    page
}

#[test]
fn conversebank_extracts_both_segments() {
    let page = converse_page("380.5");
    let mut bank = Conversebank::default();
    assert_eq!(bank.parse_cash(page.as_str()), Ok(()));
    assert_eq!(bank.parse_no_cash(page.as_str()), Ok(()));
    assert_eq!(bank.cash_currencies().get_usd_rate().buy(), &Some(RateValue::new(3_805_000)));
    assert_eq!(bank.cash_currencies().get_usd_rate().sell(), &Some(RateValue::new(3_950_000)));
    assert_eq!(bank.cash_currencies().get_eur_rate().buy(), &Some(RateValue::new(4_100_000)));
    assert_eq!(bank.no_cash_currencies().get_usd_rate().buy(), &Some(RateValue::new(3_810_000)));
    assert_eq!(bank.no_cash_currencies().get_eur_rate().sell(), &Some(RateValue::new(4_210_000)));
    assert_eq!(bank.cash_currencies().get_rub_rate().buy(), &None);
}

#[test]
fn conversebank_dash_buy_cell_is_fatal_and_keeps_earlier_fills() {
    let page = converse_page("—");
    let mut bank = Conversebank::default();
    // the USD row fails on its buy cell; nothing was filled before it
    assert_eq!(bank.parse_cash(page.as_str()), Err(Error::CurrencyParseFail));
    assert_eq!(bank.cash_currencies().get_usd_rate().buy(), &None);
    assert_eq!(bank.cash_currencies().get_eur_rate().buy(), &None);
    // the non-cash columns of the same page are intact
    assert_eq!(bank.parse_no_cash(page.as_str()), Ok(()));
    assert_eq!(bank.no_cash_currencies().get_usd_rate().buy(), &Some(RateValue::new(3_810_000)));
}

#[test]
fn conversebank_unknown_code_row_is_skipped() {
    let page = converse_page("380.5").replace("USD", "AMD");
    let mut bank = Conversebank::default();
    assert_eq!(bank.parse_cash(page.as_str()), Ok(()));
    assert_eq!(bank.cash_currencies().get_usd_rate().buy(), &None);
    assert_eq!(bank.cash_currencies().get_eur_rate().buy(), &Some(RateValue::new(4_100_000)));
}

fn evoca_page(tab: &str) -> String {
    let mut page = String::from("<html><body><div id=\"");
    page.push_str(tab);
    page.push_str(
        "\"><div><div class=\"exchange\"><div><div class=\"exchange__box\"><div><div><table><tbody>\n<tr>\n<td><span>USD</span></td>\n<td> 380.5 </td>\n<td> 395 </td>\n</tr>\n<tr>\n<td><span>RUR</span></td>\n<td> 4.1 </td>\n<td> 4.5 </td>\n</tr>\n</tbody></table></div></div></div></div></div></div></body></html>",
    );
    page
}

#[test]
fn evocabank_trims_and_extracts_cash() {
    let mut bank = Evocabank::default();
    assert_eq!(bank.parse_cash(evoca_page("tab-1").as_str()), Ok(()));
    assert_eq!(bank.cash_currencies().get_usd_rate().buy(), &Some(RateValue::new(3_805_000)));
    assert_eq!(bank.cash_currencies().get_rub_rate().sell(), &Some(RateValue::new(45_000)));
    // the cash tab holds nothing for the non-cash selector
    assert_eq!(bank.parse_no_cash(evoca_page("tab-1").as_str()), Ok(()));
    assert_eq!(bank.no_cash_currencies().get_usd_rate().buy(), &None);
}

#[test]
fn evocabank_noncash_tab_fills_noncash() {
    let mut bank = Evocabank::default();
    assert_eq!(bank.parse_no_cash(evoca_page("tab-2").as_str()), Ok(()));
    assert_eq!(bank.no_cash_currencies().get_usd_rate().sell(), &Some(RateValue::new(3_950_000)));
}

fn unibank_page(pane: &str, code: &str) -> String {
    let mut page = String::from("<html><body><div id=\"");
    page.push_str(pane);
    page.push_str("\"><div class=\"pane__body\"><p></p><ul>\n<li><b>");
    page.push_str(code);
    page.push_str(
        "</b></li>\n<li><b>380.5</b></li>\n<li><b>395</b></li>\n<li><b>EUR</b></li>\n<li><b>410</b></li>\n<li><b>420</b></li>\n</ul></div></div></body></html>",
    );
    page
}

#[test]
fn unibank_extracts_cash_rows() {
    let mut bank = Unibank::default();
    assert_eq!(bank.parse_cash(unibank_page("Cash", "USD").as_str()), Ok(()));
    assert_eq!(bank.cash_currencies().get_usd_rate().buy(), &Some(RateValue::new(3_805_000)));
    assert_eq!(bank.cash_currencies().get_eur_rate().sell(), &Some(RateValue::new(4_200_000)));
}

#[test]
fn unibank_unknown_code_row_is_skipped() {
    let mut bank = Unibank::default();
    assert_eq!(bank.parse_cash(unibank_page("Cash", "AMD").as_str()), Ok(()));
    assert_eq!(bank.cash_currencies().get_usd_rate().buy(), &None);
    assert_eq!(bank.cash_currencies().get_eur_rate().buy(), &Some(RateValue::new(4_100_000)));
}

#[test]
fn unibank_noncash_uses_its_own_pane() {
    let mut bank = Unibank::default();
    assert_eq!(bank.parse_no_cash(unibank_page("Noncash", "USD").as_str()), Ok(()));
    assert_eq!(bank.no_cash_currencies().get_usd_rate().buy(), &Some(RateValue::new(3_805_000)));
}

fn idbank_page(usd_buy_text: &str) -> String {
    let mut page = String::from(
        "<html><body><div id=\".default\"><div class=\"m-exchange\"><div class=\"m-exchange__table\">\n<div><span class=\"m-exchange__table-cell\">Currency</span>\n<span>Buy</span>\n<span>Sell</span></div>\n<div><span class=\"m-exchange__table-cell\">Rate 1 USD today</span>\n<span>",
    );
    page.push_str(usd_buy_text);
    page.push_str(
        "</span>\n<span>395 AMD</span></div>\n<div><span class=\"m-exchange__table-cell\">1 RUR</span>\n<span>4.1</span>\n<span>4.5</span></div>\n</div></div></div></body></html>",
    );
    page
}

#[test]
fn idbank_extracts_tokens_from_cell_texts() {
    let mut bank = Idbank::default();
    assert_eq!(bank.parse_cash(idbank_page("380.5 AMD").as_str()), Ok(()));
    assert_eq!(bank.cash_currencies().get_usd_rate().buy(), &Some(RateValue::new(3_805_000)));
    assert_eq!(bank.cash_currencies().get_usd_rate().sell(), &Some(RateValue::new(3_950_000)));
    // the alias row lands in the RUB slot
    assert_eq!(bank.cash_currencies().get_rub_rate().buy(), &Some(RateValue::new(41_000)));
}

#[test]
fn idbank_value_without_numeric_token_defaults_to_zero() {
    let mut bank = Idbank::default();
    assert_eq!(bank.parse_cash(idbank_page("n/a").as_str()), Ok(()));
    assert_eq!(bank.cash_currencies().get_usd_rate().buy(), &Some(RateValue::new(0)));
    assert_eq!(bank.cash_currencies().get_usd_rate().sell(), &Some(RateValue::new(3_950_000)));
}

#[test]
fn idbank_noncash_reads_all_rows() {
    let mut bank = Idbank::default();
    assert_eq!(bank.parse_no_cash(idbank_page("380.5 AMD").as_str()), Ok(()));
    assert_eq!(bank.no_cash_currencies().get_usd_rate().buy(), &Some(RateValue::new(3_805_000)));
}

fn ardshin_body() -> &'static str {
    "{\"data\":{\"currencies\":{\"cash\":[{\"type\":\"USD\",\"buy\":\"380.5\",\"sell\":\"395\"},{\"type\":\"AMD\",\"buy\":\"1\",\"sell\":\"1\"}],\"no_cash\":[{\"type\":\"USD\",\"buy\":\"381\",\"sell\":\"396\"}]}}}"
}

#[test]
fn ardshinbank_extracts_both_segments_from_json() {
    let mut bank = Ardshinbank::default();
    assert_eq!(bank.parse_json_body(ardshin_body()), Ok(()));
    assert_eq!(bank.cash_currencies().get_usd_rate().buy(), &Some(RateValue::new(3_805_000)));
    assert_eq!(bank.cash_currencies().get_usd_rate().sell(), &Some(RateValue::new(3_950_000)));
    assert_eq!(bank.no_cash_currencies().get_usd_rate().buy(), &Some(RateValue::new(3_810_000)));
    // the unknown code was skipped, not fatal
    assert_eq!(bank.cash_currencies().get_eur_rate().buy(), &None);
}

#[test]
fn ardshinbank_invalid_json_counts_as_transport_failure() {
    let mut bank = Ardshinbank::default();
    assert_eq!(bank.parse_json_body("not json"), Err(Error::Http));
    assert_eq!(bank.parse_json_body("[1,2]"), Err(Error::Http));
}

#[test]
fn ardshinbank_missing_segment_array_is_structural_failure() {
    let mut bank = Ardshinbank::default();
    assert_eq!(bank.parse_json_body("{\"data\":{}}"), Err(Error::BankParseFail));
}

#[test]
fn ardshinbank_missing_code_is_structural_failure() {
    let body = "{\"data\":{\"currencies\":{\"cash\":[{\"buy\":\"1\",\"sell\":\"2\"}],\"no_cash\":[]}}}";
    let mut bank = Ardshinbank::default();
    assert_eq!(bank.parse_json_body(body), Err(Error::BankParseFail));
}

#[test]
fn ardshinbank_non_numeric_value_is_numeric_failure() {
    let body = "{\"data\":{\"currencies\":{\"cash\":[{\"type\":\"USD\",\"buy\":\"abc\",\"sell\":\"2\"}],\"no_cash\":[]}}}";
    let mut bank = Ardshinbank::default();
    assert_eq!(bank.parse_json_body(body), Err(Error::CurrencyParseFail));
}

fn ineco_body() -> &'static str {
    "{\"items\":[{\"code\":\"USD\",\"cash\":{\"buy\":380.5,\"sell\":395},\"cashless\":{\"sell\":396}},{\"code\":\"XYZ\",\"cash\":{},\"cashless\":{}}]}"
}

#[test]
fn inecobank_extracts_combined_object_and_preserves_absence() {
    let mut bank = Inecobank::default();
    assert_eq!(bank.parse_json_body(ineco_body()), Ok(()));
    assert_eq!(bank.cash_currencies().get_usd_rate().buy(), &Some(RateValue::new(3_805_000)));
    assert_eq!(bank.cash_currencies().get_usd_rate().sell(), &Some(RateValue::new(3_950_000)));
    assert_eq!(bank.no_cash_currencies().get_usd_rate().buy(), &None);
    assert_eq!(bank.no_cash_currencies().get_usd_rate().sell(), &Some(RateValue::new(3_960_000)));
}

#[test]
fn inecobank_missing_code_is_structural_failure() {
    let body = "{\"items\":[{\"cash\":{},\"cashless\":{}}]}";
    let mut bank = Inecobank::default();
    assert_eq!(bank.parse_json_body(body), Err(Error::BankParseFail));
}

#[test]
fn inecobank_segment_that_is_not_an_object_is_structural_failure() {
    let body = "{\"items\":[{\"code\":\"USD\",\"cash\":5,\"cashless\":{}}]}";
    let mut bank = Inecobank::default();
    assert_eq!(bank.parse_json_body(body), Err(Error::BankParseFail));
}

#[test]
fn inecobank_invalid_json_counts_as_transport_failure() {
    let mut bank = Inecobank::default();
    assert_eq!(bank.parse_json_body("oops"), Err(Error::Http));
}

#[test]
fn fatal_row_keeps_fills_made_before_it() {
    // the USD row fills its slot; the EUR row then fails on its buy cell
    let page = converse_page("380.5").replace("<td>410</td>", "<td>—</td>");
    let mut bank = Conversebank::default();
    assert_eq!(bank.parse_cash(page.as_str()), Err(Error::CurrencyParseFail));
    assert_eq!(bank.cash_currencies().get_usd_rate().buy(), &Some(RateValue::new(3_805_000)));
    assert_eq!(bank.cash_currencies().get_eur_rate().buy(), &None);
}

#[test]
fn fill_cash_processes_extracted_rows_directly() {
    let rows = vec![
        ConverseCells {
            name: None,
            cash_buy: None,
            cash_sell: None,
            noncash_buy: None,
            noncash_sell: None,
        },
        ConverseCells {
            name: None,
            cash_buy: None,
            cash_sell: None,
            noncash_buy: None,
            noncash_sell: None,
        },
        ConverseCells {
            name: Some(String::from("usd")),
            cash_buy: Some(String::from("387")),
            cash_sell: Some(String::from("397")),
            noncash_buy: None,
            noncash_sell: None,
        },
    ];
    let mut bank = Conversebank::default();
    assert_eq!(bank.fill_cash(&rows), Ok(()));
    assert_eq!(bank.cash_currencies().get_usd_rate().buy(), &Some(RateValue::new(3_870_000)));
}

fn converse_row(code: &str, buy: &str) -> ConverseCells {
    ConverseCells {
        name: Some(String::from(code)),
        cash_buy: Some(String::from(buy)),
        cash_sell: Some(String::from(buy)),
        noncash_buy: Some(String::from(buy)),
        noncash_sell: Some(String::from(buy)),
    }
}

#[test]
fn conversebank_consults_only_four_rows_past_the_two_headers() {
    let rows = vec![
        converse_row("h", "x"),
        converse_row("h", "x"),
        converse_row("USD", "380"),
        converse_row("EUR", "410"),
        converse_row("RUB", "4.1"),
        converse_row("XXX", "1"),
        converse_row("GBP", "470"),
    ];
    let mut bank = Conversebank::default();
    assert_eq!(bank.fill_cash(&rows), Ok(()));
    assert_eq!(bank.cash_currencies().get_usd_rate().buy(), &Some(RateValue::new(3_800_000)));
    // the seventh row lies beyond the four consulted ones
    assert_eq!(bank.cash_currencies().get_gbp_rate().buy(), &None);
}

fn plain_row(code: &str, buy: &str) -> armbankrate_parser::extract::RateCells {
    armbankrate_parser::extract::RateCells {
        name: Some(String::from(code)),
        buy: Some(String::from(buy)),
        sell: Some(String::from(buy)),
    }
}

#[test]
fn unibank_cash_caps_rows_but_noncash_does_not() {
    let rows = vec![
        plain_row("USD", "380"),
        plain_row("EUR", "410"),
        plain_row("RUB", "4.1"),
        plain_row("XXX", "1"),
        plain_row("GBP", "470"),
    ];
    let mut bank = Unibank::default();
    assert_eq!(bank.fill_cash(&rows), Ok(()));
    assert_eq!(bank.cash_currencies().get_gbp_rate().buy(), &None);
    assert_eq!(bank.fill_no_cash(&rows), Ok(()));
    assert_eq!(bank.no_cash_currencies().get_gbp_rate().buy(), &Some(RateValue::new(4_700_000)));
}

#[test]
fn evocabank_trims_unicode_whitespace() {
    // the value cells are padded with thin spaces
    let page = evoca_page("tab-1").replace(" 380.5 ", "\u{2009}380.5\u{2009}");
    let mut bank = Evocabank::default();
    assert_eq!(bank.parse_cash(page.as_str()), Ok(()));
    assert_eq!(bank.cash_currencies().get_usd_rate().buy(), &Some(RateValue::new(3_805_000)));
}
