use serde_json::Value;
use std::collections::HashMap;
use vstd::prelude::*;

use crate::error::Error;
use crate::rate::{decimal_value, parse_rate, valid_decimal, RateValue};
use crate::{empty_body, filled, resolve_code, BankBody, Currency, CurrencyBody, CurrencyName};

verus! {

/// One segment's numeric fields, rendered back to their JSON text
/// (`None` when missing or not a number).
pub struct InecoPair {
    pub buy: Option<String>,
    pub sell: Option<String>,
}

/// One entry of the JSON items array: the currency code and the two
/// segments; a segment is `None` when its entry is not an object.
pub struct InecoItem {
    pub code: Option<String>,
    pub cash: Option<InecoPair>,
    pub cashless: Option<InecoPair>,
}

/// What the JSON payload held.
pub enum InecoDoc {
    /// The body is not a JSON object.
    Invalid,
    /// The items entry is missing or not an array.
    NotArray,
    Items(Vec<InecoItem>),
}

/// Source with a JSON REST payload holding one combined cash/non-cash
/// object per currency.
#[derive(Debug)]
pub struct Inecobank {
    pub body: BankBody,
    pub cash_currencies: CurrencyBody,
    pub no_cash_currencies: CurrencyBody,
}

/// What serde_json decodes out of a fetched body: a function of the
/// text alone.
pub uninterp spec fn ineco_doc_of(body: Seq<char>) -> InecoDoc;

/// serde_json's document value, handed between the two decoding steps.
#[verifier::external_type_specification]
#[verifier::external_body]
pub struct ExValue(serde_json::Value);

/// Relies on serde_json (from_str, Value::get, as_array): the entries of
/// the "items" array, each handed on for field extraction.
#[verifier::external_body]
fn ineco_items(body: &str) -> (r: InecoDoc)
    ensures
        r == ineco_doc_of(body@),
{
    let m: HashMap<String, Value> = match serde_json::from_str(body) { Ok(v) => v, Err(_) => return InecoDoc::Invalid };
    match m.get("items").and_then(Value::as_array) {
        Some(a) => InecoDoc::Items(a.iter().map(ineco_item_of).collect()),
        None => InecoDoc::NotArray,
    }
}

/// Relies on serde_json (Value::get, as_str, as_number, is_object,
/// Number's Display): one entry's "code" string and its two segment
/// objects' "buy"/"sell" numbers rendered to their JSON text.
#[verifier::external_body]
fn ineco_item_of(v: &Value) -> (r: InecoItem) {
    let num = |o: &Value, k: &str| o.get(k).and_then(Value::as_number).map(|n| n.to_string());
    let seg = |k: &str| v.get(k).filter(|c| c.is_object()).map(|c| InecoPair { buy: num(c, "buy"), sell: num(c, "sell") });
    InecoItem { code: v.get("code").and_then(Value::as_str).map(|s| s.to_string()), cash: seg("cash"), cashless: seg("cashless") }
}

/// The rate an optional numeric field yields: absent, non-numeric or
/// out-of-range text stays absent.
pub open spec fn ineco_rate(cell: Option<String>) -> Option<RateValue> {
    match cell {
        None => None,
        Some(t) => if valid_decimal(t@) && decimal_value(t@) <= u64::MAX {
            Some(RateValue { raw: decimal_value(t@) as u64 })
        } else {
            None
        },
    }
}

/// Executable counterpart of [`ineco_rate`].
fn ineco_rate_exec(cell: &Option<String>) -> (r: Option<RateValue>)
    ensures
        r == ineco_rate(*cell),
{
    match cell {
        None => None,
        Some(t) => match parse_rate(t.as_str()) {
            Ok(v) => Some(v),
            Err(_) => None,
        },
    }
}

/// What one entry contributes to both segments at once.
pub enum InecoExtract {
    Skip,
    Fill(Currency, Currency),
    Abort(Error),
}

/// What one entry contributes: a missing code or a segment that is not
/// an object is fatal, an unresolvable code skips the entry; absent
/// values stay absent.
pub open spec fn ineco_outcome(item: InecoItem) -> InecoExtract {
    match item.code {
        None => InecoExtract::Abort(Error::BankParseFail),
        Some(code) => match (item.cash, item.cashless) {
            (Some(cash), Some(cashless)) => match resolve_code(code@) {
                None => InecoExtract::Skip,
                Some(name) => InecoExtract::Fill(
                    Currency { name, buy: ineco_rate(cash.buy), sell: ineco_rate(cash.sell) },
                    Currency {
                        name,
                        buy: ineco_rate(cashless.buy),
                        sell: ineco_rate(cashless.sell),
                    },
                ),
            },
            _ => InecoExtract::Abort(Error::BankParseFail),
        },
    }
}

/// The fold of the items into both rate containers, stopping at the
/// first fatal entry; on failure both containers keep every fill made
/// before it.
pub open spec fn ineco_extract(
    items: Seq<InecoItem>,
    cash: CurrencyBody,
    noncash: CurrencyBody,
) -> (CurrencyBody, CurrencyBody, Result<(), Error>)
    decreases items.len(),
{
    if items.len() == 0 {
        (cash, noncash, Ok(()))
    } else {
        match ineco_outcome(items.first()) {
            InecoExtract::Skip => ineco_extract(items.drop_first(), cash, noncash),
            InecoExtract::Fill(c, nc) => ineco_extract(
                items.drop_first(),
                filled(cash, c),
                filled(noncash, nc),
            ),
            InecoExtract::Abort(e) => (cash, noncash, Err(e)),
        }
    }
}


/// The whole parse step on one fetched JSON body: every entry folded
/// into both containers at once, stopping at the first fatal entry. A
/// body that is not a JSON object counts as a failed transfer.
pub open spec fn ineco_apply(b: Inecobank, body: Seq<char>) -> (Inecobank, Result<(), Error>) {
    match ineco_doc_of(body) {
        InecoDoc::Invalid => (b, Err(Error::Http)),
        InecoDoc::NotArray => (b, Err(Error::BankParseFail)),
        InecoDoc::Items(items) => {
            let (cash, noncash, res) = ineco_extract(
                items@,
                b.cash_currencies,
                b.no_cash_currencies,
            );
            (Inecobank { cash_currencies: cash, no_cash_currencies: noncash, ..b }, res)
        },
    }
}

/// Folds the entries into both containers, entry by entry; a fatal
/// entry leaves every fill made before it in place.
fn fold_items(items: &Vec<InecoItem>, cash0: CurrencyBody, noncash0: CurrencyBody) -> (r: (
    CurrencyBody,
    CurrencyBody,
    Result<(), Error>,
))
    ensures
        r == ineco_extract(items@, cash0, noncash0),
{
    let ghost all = items@;
    let len = items.len();
    proof {
        assert(all.skip(0) =~= all);
    }
    let mut cash = cash0;
    let mut noncash = noncash0;
    let mut i: usize = 0;
    while i < len
        invariant
            0 <= i <= len,
            len == all.len(),
            all == items@,
            ineco_extract(all, cash0, noncash0) == ineco_extract(all.skip(i as int), cash, noncash),
        decreases len - i,
    {
        let ghost j = i as int;
        proof {
            assert(all.skip(j)[0] == all[j]);
            assert(all.skip(j).drop_first() =~= all.skip(j + 1));
        }
        let item = &items[i];
        let fatal: bool = item.code.is_none() || item.cash.is_none() || item.cashless.is_none();
        if fatal {
            proof {
                assert(ineco_outcome(all[j]) == InecoExtract::Abort(Error::BankParseFail));
                assert(all.skip(j).len() > 0);
                assert(all.skip(j).first() == all[j]);
                assert(ineco_extract(all.skip(j), cash, noncash) == (
                    cash,
                    noncash,
                    Err::<(), Error>(Error::BankParseFail),
                ));
            }
            return (cash, noncash, Err(Error::BankParseFail));
        }
        match (&item.code, &item.cash, &item.cashless) {
            (Some(code), Some(cash_pair), Some(cashless_pair)) => {
                match CurrencyName::from_str(code.as_str()) {
                    Err(_) => {},
                    Ok(name) => {
                        let c = Currency::new(
                            name,
                            ineco_rate_exec(&cash_pair.buy),
                            ineco_rate_exec(&cash_pair.sell),
                        );
                        let nc = Currency::new(
                            name,
                            ineco_rate_exec(&cashless_pair.buy),
                            ineco_rate_exec(&cashless_pair.sell),
                        );
                        proof {
                            assert(ineco_outcome(all[j]) == InecoExtract::Fill(c, nc));
                        }
                        cash.fill_from_currency(c);
                        noncash.fill_from_currency(nc);
                    },
                }
            },
            _ => {},
        }
        i += 1;
    }
    proof {
        assert(all.skip(len as int) =~= Seq::<InecoItem>::empty());
    }
    (cash, noncash, Ok(()))
}

impl Default for Inecobank {
    fn default() -> (r: Self)
        ensures
            r.is_initial(),
    {
        Inecobank {
            body: BankBody {
                name: String::from_str("Inecobank"),
                url: String::from_str("https://www.inecobank.am/api/rates/"),
            },
            cash_currencies: CurrencyBody::default(),
            no_cash_currencies: CurrencyBody::default(),
        }
    }
}

impl Inecobank {
    /// A freshly configured adapter: identity set, both containers empty.
    pub open spec fn is_initial(self) -> bool {
        &&& self.body.name@ == "Inecobank"@
        &&& self.body.url@ == "https://www.inecobank.am/api/rates/"@
        &&& self.cash_currencies == empty_body()
        &&& self.no_cash_currencies == empty_body()
    }

    /// Folds already-decoded entries into both containers, entry by
    /// entry; a fatal entry leaves every fill made before it in place.
    pub fn fill_items(&mut self, items: &Vec<InecoItem>) -> (r: Result<(), Error>)
        ensures
            final(self).body == old(self).body,
            ({
                let (c, nc, res) = ineco_extract(
                    items@,
                    old(self).cash_currencies,
                    old(self).no_cash_currencies,
                );
                final(self).cash_currencies == c && final(self).no_cash_currencies == nc && r
                    == res
            }),
    {
        let (c, nc, res) = fold_items(items, self.cash_currencies, self.no_cash_currencies);
        self.cash_currencies = c;
        self.no_cash_currencies = nc;
        res
    }

    /// Extracts both segments from the fetched JSON body. A body that is
    /// not a JSON object counts as a failed transfer.
    pub fn parse_json_body(&mut self, body: &str) -> (r: Result<(), Error>)
        ensures
            final(self).body == old(self).body,
            ({
                let (nb, res) = ineco_apply(*old(self), body@);
                *final(self) == nb && r == res
            }),
    {
        match ineco_items(body) {
            InecoDoc::Invalid => Err(Error::Http),
            InecoDoc::NotArray => Err(Error::BankParseFail),
            InecoDoc::Items(items) => self.fill_items(&items),
        }
    }

    pub fn cash_currencies(&self) -> (r: &CurrencyBody)
        ensures
            r == self.cash_currencies,
    {
        &self.cash_currencies
    }

    pub fn no_cash_currencies(&self) -> (r: &CurrencyBody)
        ensures
            r == self.no_cash_currencies,
    {
        &self.no_cash_currencies
    }

    pub fn get_name(&self) -> (r: &String)
        ensures
            r == self.body.name,
    {
        &self.body.name
    }

    pub fn get_url(&self) -> (r: &String)
        ensures
            r == self.body.url,
    {
        &self.body.url
    }
}

} // verus!
