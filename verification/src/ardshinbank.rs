use serde_json::Value;
use std::collections::HashMap;
use vstd::prelude::*;

use crate::error::Error;
use crate::extract::{cell_rate, cell_rate_exec, extract_rows, RowExtract};
use crate::{empty_body, resolve_code, BankBody, Currency, CurrencyBody, CurrencyName};

verus! {

/// One entry of a segment's JSON array: the currency code and the buy
/// and sell values, each `None` when the field is missing or not a
/// string.
pub struct ArdshinItem {
    pub code: Option<String>,
    pub buy: Option<String>,
    pub sell: Option<String>,
}

/// What the JSON payload held for one segment.
pub enum ArdshinDoc {
    /// The body is not a JSON object.
    Invalid,
    /// The segment's entry is missing or not an array.
    NotArray,
    Items(Vec<ArdshinItem>),
}

/// Source with a JSON REST payload whose numeric values are strings;
/// each segment is an array under data/currencies.
#[derive(Debug)]
pub struct Ardshinbank {
    pub body: BankBody,
    pub cash_currencies: CurrencyBody,
    pub no_cash_currencies: CurrencyBody,
}

/// The JSON key of the cash segment's array.
pub const CASH_KEY: &'static str = "cash";

/// The JSON key of the non-cash segment's array.
pub const NO_CASH_KEY: &'static str = "no_cash";

/// What serde_json decodes out of a body for one segment key: a
/// function of the two texts alone.
pub uninterp spec fn ardshin_doc_of(body: Seq<char>, key: Seq<char>) -> ArdshinDoc;

/// Relies on serde_json (from_str, Value::get, as_array, as_str): the
/// entries of the array under data/currencies/`key`, with the "type",
/// "buy" and "sell" fields of each read as strings.
#[verifier::external_body]
fn ardshin_items(body: &str, key: &str) -> (r: ArdshinDoc)
    ensures
        r == ardshin_doc_of(body@, key@),
{
    let m: HashMap<String, Value> = match serde_json::from_str(body) { Ok(v) => v, Err(_) => return ArdshinDoc::Invalid };
    let arr = match m.get("data").and_then(|d| d.get("currencies")).and_then(|c| c.get(key)).and_then(Value::as_array) { Some(a) => a, None => return ArdshinDoc::NotArray };
    let txt = |it: &Value, k: &str| it.get(k).and_then(Value::as_str).map(|s| s.to_string());
    ArdshinDoc::Items(arr.iter().map(|it| ArdshinItem { code: txt(it, "type"), buy: txt(it, "buy"), sell: txt(it, "sell") }).collect())
}

/// What one entry contributes: a missing code is fatal, an unresolvable
/// one skips the entry, and a missing or non-numeric value is fatal.
pub open spec fn ardshin_outcome(item: ArdshinItem) -> RowExtract {
    match item.code {
        None => RowExtract::Abort(Error::BankParseFail),
        Some(code) => match resolve_code(code@) {
            None => RowExtract::Skip,
            Some(name) => match cell_rate(item.buy) {
                Err(e) => RowExtract::Abort(e),
                Ok(b) => match cell_rate(item.sell) {
                    Err(e) => RowExtract::Abort(e),
                    Ok(s) => RowExtract::Fill(Currency { name, buy: Some(b), sell: Some(s) }),
                },
            },
        },
    }
}

/// The fold of one segment's entries into a rate container.
pub open spec fn ardshin_extract(items: Seq<ArdshinItem>, body: CurrencyBody) -> (
    CurrencyBody,
    Result<(), Error>,
) {
    extract_rows(items, body, |r: ArdshinItem| ardshin_outcome(r))
}

/// The whole parse step on one fetched JSON body: both segment arrays
/// must decode before either is folded in, cash first, stopping at the
/// first fatal entry. A body that is not a JSON object counts as a
/// failed transfer.
pub open spec fn ardshin_apply(b: Ardshinbank, body: Seq<char>) -> (
    Ardshinbank,
    Result<(), Error>,
) {
    match ardshin_doc_of(body, CASH_KEY@) {
        ArdshinDoc::Invalid => (b, Err(Error::Http)),
        ArdshinDoc::NotArray => (b, Err(Error::BankParseFail)),
        ArdshinDoc::Items(cash_items) => match ardshin_doc_of(body, NO_CASH_KEY@) {
            ArdshinDoc::Invalid => (b, Err(Error::Http)),
            ArdshinDoc::NotArray => (b, Err(Error::BankParseFail)),
            ArdshinDoc::Items(no_cash_items) => {
                let (cash, r1) = ardshin_extract(cash_items@, b.cash_currencies);
                match r1 {
                    Err(e) => (Ardshinbank { cash_currencies: cash, ..b }, Err(e)),
                    Ok(_) => {
                        let (noncash, r2) = ardshin_extract(no_cash_items@, b.no_cash_currencies);
                        (
                            Ardshinbank {
                                cash_currencies: cash,
                                no_cash_currencies: noncash,
                                ..b
                            },
                            r2,
                        )
                    },
                }
            },
        },
    }
}

/// Folds a segment's entries into `body`, entry by entry; a fatal entry
/// leaves every fill made before it in place.
fn fill_segment(items: &Vec<ArdshinItem>, body: CurrencyBody) -> (r: (
    CurrencyBody,
    Result<(), Error>,
))
    ensures
        r == ardshin_extract(items@, body),
{
    let ghost all = items@;
    let ghost f = |r: ArdshinItem| ardshin_outcome(r);
    let len = items.len();
    proof {
        assert(all.skip(0) =~= all);
    }
    let mut cur = body;
    let mut i: usize = 0;
    while i < len
        invariant
            0 <= i <= len,
            len == all.len(),
            all == items@,
            extract_rows(all, body, f) == extract_rows(all.skip(i as int), cur, f),
            f == (|r: ArdshinItem| ardshin_outcome(r)),
        decreases len - i,
    {
        let ghost j = i as int;
        proof {
            assert(all.skip(j)[0] == all[j]);
            assert(all.skip(j).drop_first() =~= all.skip(j + 1));
        }
        let item = &items[i];
        match &item.code {
            None => {
                proof {
                    assert(f(all[j]) == RowExtract::Abort(Error::BankParseFail));
                    assert(all.skip(j).len() > 0);
                    assert(all.skip(j).first() == all[j]);
                    assert(extract_rows(all.skip(j), cur, f) == (
                        cur,
                        Err::<(), Error>(Error::BankParseFail),
                    ));
                }
                return (cur, Err(Error::BankParseFail));
            },
            Some(code) => {
                match CurrencyName::from_str(code.as_str()) {
                    Err(_) => {},
                    Ok(name) => {
                        match cell_rate_exec(&item.buy) {
                            Err(e) => {
                                proof {
                                    assert(f(all[j]) == RowExtract::Abort(e));
                                    assert(all.skip(j).len() > 0);
                                    assert(all.skip(j).first() == all[j]);
                                    assert(extract_rows(all.skip(j), cur, f) == (
                                        cur,
                                        Err::<(), Error>(e),
                                    ));
                                }
                                return (cur, Err(e));
                            },
                            Ok(b) => {
                                match cell_rate_exec(&item.sell) {
                                    Err(e) => {
                                        proof {
                                            assert(f(all[j]) == RowExtract::Abort(e));
                                            assert(all.skip(j).len() > 0);
                                            assert(all.skip(j).first() == all[j]);
                                            assert(extract_rows(all.skip(j), cur, f) == (
                                                cur,
                                                Err::<(), Error>(e),
                                            ));
                                        }
                                        return (cur, Err(e));
                                    },
                                    Ok(s) => {
                                        cur.fill_from_currency(
                                            Currency::new(name, Some(b), Some(s)),
                                        );
                                    },
                                }
                            },
                        }
                    },
                }
            },
        }
        i += 1;
    }
    proof {
        assert(all.skip(len as int) =~= Seq::<ArdshinItem>::empty());
    }
    (cur, Ok(()))
}

impl Default for Ardshinbank {
    fn default() -> (r: Self)
        ensures
            r.is_initial(),
    {
        Ardshinbank {
            body: BankBody {
                name: String::from_str("Ardshinbank"),
                url: String::from_str("https://website-api.ardshinbank.am/currency"),
            },
            cash_currencies: CurrencyBody::default(),
            no_cash_currencies: CurrencyBody::default(),
        }
    }
}

impl Ardshinbank {
    /// A freshly configured adapter: identity set, both containers empty.
    pub open spec fn is_initial(self) -> bool {
        &&& self.body.name@ == "Ardshinbank"@
        &&& self.body.url@ == "https://website-api.ardshinbank.am/currency"@
        &&& self.cash_currencies == empty_body()
        &&& self.no_cash_currencies == empty_body()
    }

    /// Fills the cash container from already-decoded entries.
    pub fn fill_cash(&mut self, items: &Vec<ArdshinItem>) -> (r: Result<(), Error>)
        ensures
            final(self).body == old(self).body,
            final(self).no_cash_currencies == old(self).no_cash_currencies,
            ({
                let (b, res) = ardshin_extract(items@, old(self).cash_currencies);
                final(self).cash_currencies == b && r == res
            }),
    {
        let (b, res) = fill_segment(items, self.cash_currencies);
        self.cash_currencies = b;
        res
    }

    /// Fills the non-cash container from already-decoded entries.
    pub fn fill_no_cash(&mut self, items: &Vec<ArdshinItem>) -> (r: Result<(), Error>)
        ensures
            final(self).body == old(self).body,
            final(self).cash_currencies == old(self).cash_currencies,
            ({
                let (b, res) = ardshin_extract(items@, old(self).no_cash_currencies);
                final(self).no_cash_currencies == b && r == res
            }),
    {
        let (b, res) = fill_segment(items, self.no_cash_currencies);
        self.no_cash_currencies = b;
        res
    }

    /// Extracts both segments from the fetched JSON body. A body that is
    /// not a JSON object counts as a failed transfer; both segment
    /// arrays must be present before either is folded in.
    pub fn parse_json_body(&mut self, body: &str) -> (r: Result<(), Error>)
        ensures
            final(self).body == old(self).body,
            ({
                let (nb, res) = ardshin_apply(*old(self), body@);
                *final(self) == nb && r == res
            }),
    {
        let cash_items = match ardshin_items(body, CASH_KEY) {
            ArdshinDoc::Invalid => {
                return Err(Error::Http);
            },
            ArdshinDoc::NotArray => {
                return Err(Error::BankParseFail);
            },
            ArdshinDoc::Items(items) => items,
        };
        let no_cash_items = match ardshin_items(body, NO_CASH_KEY) {
            ArdshinDoc::Invalid => {
                return Err(Error::Http);
            },
            ArdshinDoc::NotArray => {
                return Err(Error::BankParseFail);
            },
            ArdshinDoc::Items(items) => items,
        };
        match self.fill_cash(&cash_items) {
            Err(e) => Err(e),
            Ok(_) => self.fill_no_cash(&no_cash_items),
        }
    }

    pub fn cash_currencies(&self) -> (r: &CurrencyBody)
        ensures
            r == self.cash_currencies,
    {
        &self.cash_currencies
    }

    pub fn no_cash_currencies(&self) -> (r: &CurrencyBody)
        ensures
            r == self.no_cash_currencies,
    {
        &self.no_cash_currencies
    }

    pub fn get_name(&self) -> (r: &String)
        ensures
            r == self.body.name,
    {
        &self.body.name
    }

    pub fn get_url(&self) -> (r: &String)
        ensures
            r == self.body.url,
    {
        &self.body.url
    }
}

} // verus!
