use scraper::{ElementRef, Html, Selector};
use vstd::prelude::*;

use crate::error::Error;
use crate::extract::{cell_rate, cell_rate_exec, extract_rows, window, RowExtract};
use crate::{empty_body, resolve_code, BankBody, Currency, CurrencyBody, CurrencyName};

verus! {

/// One row of the rate table: the inner HTML of the currency-code cell
/// (child 1) and of the four value cells (children 7, 9, 11, 13);
/// `None` marks a cell that is missing or not an element.
pub struct ConverseCells {
    pub name: Option<String>,
    pub cash_buy: Option<String>,
    pub cash_sell: Option<String>,
    pub noncash_buy: Option<String>,
    pub noncash_sell: Option<String>,
}

/// Source with a server-rendered HTML table; cash and non-cash values
/// sit in different columns of the same rows.
#[derive(Debug)]
pub struct Conversebank {
    pub body: BankBody,
    pub cash_currencies: CurrencyBody,
    pub no_cash_currencies: CurrencyBody,
}

/// The structural address of the rate table's rows.
pub const MAIN_SELECTOR: &'static str = "#main_static_content > table:nth-child(5) > tbody > tr";

/// The rows scraper extracts from a document under a selector: a
/// function of the two texts alone (`None` for an unparsable selector).
pub uninterp spec fn converse_cells_of(document: Seq<char>, selector: Seq<char>) -> Option<
    Seq<ConverseCells>,
>;

/// Relies on scraper (Html::parse_document, Selector::parse, Select and
/// ego-tree child navigation): for every element matched by `selector`,
/// the inner HTML of its child nodes 1, 7, 9, 11 and 13; a missing or
/// non-element child is `None`, an unparsable selector yields `None`
/// overall.
#[verifier::external_body]
fn converse_cells(document: &str, selector: &str) -> (r: Option<Vec<ConverseCells>>)
    ensures
        match r {
            Some(cells) => converse_cells_of(document@, selector@) == Some(cells@),
            None => converse_cells_of(document@, selector@) is None,
        },
{
    let sel = match Selector::parse(selector) { Ok(s) => s, Err(_) => return None };
    let cell = |e: &ElementRef, k: usize| e.children().nth(k).and_then(ElementRef::wrap).map(|c| c.inner_html());
    let html = Html::parse_document(document);
    Some(html.select(&sel).map(|e| ConverseCells {
        name: cell(&e, 1), cash_buy: cell(&e, 7), cash_sell: cell(&e, 9),
        noncash_buy: cell(&e, 11), noncash_sell: cell(&e, 13),
    }).collect())
}

/// What one row contributes to the chosen segment: rows without a
/// resolvable currency code are skipped, a missing or non-numeric value
/// cell is fatal.
pub open spec fn converse_outcome(row: ConverseCells, cash: bool) -> RowExtract {
    match row.name {
        None => RowExtract::Skip,
        Some(name) => match resolve_code(name@) {
            None => RowExtract::Skip,
            Some(code) => {
                let buy = cell_rate(
                    if cash {
                        row.cash_buy
                    } else {
                        row.noncash_buy
                    },
                );
                let sell = cell_rate(
                    if cash {
                        row.cash_sell
                    } else {
                        row.noncash_sell
                    },
                );
                match buy {
                    Err(e) => RowExtract::Abort(e),
                    Ok(b) => match sell {
                        Err(e) => RowExtract::Abort(e),
                        Ok(s) => RowExtract::Fill(
                            Currency { name: code, buy: Some(b), sell: Some(s) },
                        ),
                    },
                }
            },
        },
    }
}

/// The fold of this source's rows (the third to sixth matched ones) into
/// a rate container.
pub open spec fn converse_extract(rows: Seq<ConverseCells>, body: CurrencyBody, cash: bool) -> (
    CurrencyBody,
    Result<(), Error>,
) {
    extract_rows(window(rows, 2, 4), body, |r: ConverseCells| converse_outcome(r, cash))
}

/// The whole parse step on one fetched page: both segments folded from
/// the same rows, cash first, stopping at the first fatal row; a page
/// whose rows cannot be addressed fails structurally with nothing
/// filled.
pub open spec fn converse_apply(b: Conversebank, document: Seq<char>) -> (
    Conversebank,
    Result<(), Error>,
) {
    match converse_cells_of(document, MAIN_SELECTOR@) {
        None => (b, Err(Error::BankParseFail)),
        Some(rows) => {
            let (cash, r1) = converse_extract(rows, b.cash_currencies, true);
            match r1 {
                Err(e) => (Conversebank { cash_currencies: cash, ..b }, Err(e)),
                Ok(_) => {
                    let (noncash, r2) = converse_extract(rows, b.no_cash_currencies, false);
                    (
                        Conversebank {
                            cash_currencies: cash,
                            no_cash_currencies: noncash,
                            ..b
                        },
                        r2,
                    )
                },
            }
        },
    }
}

/// Folds the consulted rows into `body`, row by row; a fatal row leaves
/// every fill made before it in place.
fn fill_segment(rows: &Vec<ConverseCells>, cash: bool, body: CurrencyBody) -> (r: (
    CurrencyBody,
    Result<(), Error>,
))
    ensures
        r == converse_extract(rows@, body, cash),
{
    let ghost all = window(rows@, 2, 4);
    let ghost f = |r: ConverseCells| converse_outcome(r, cash);
    let len = rows.len();
    let start: usize = if len < 2 {
        len
    } else {
        2
    };
    let stop: usize = if len < 6 {
        len
    } else {
        6
    };
    proof {
        assert(all =~= rows@.subrange(start as int, stop as int));
        assert(all.skip(0) =~= all);
    }
    let mut cur = body;
    let mut i = start;
    while i < stop
        invariant
            start <= i <= stop <= rows@.len(),
            stop - start == all.len(),
            all == rows@.subrange(start as int, stop as int),
            all == window(rows@, 2, 4),
            extract_rows(all, body, f) == extract_rows(all.skip(i - start), cur, f),
            f == (|r: ConverseCells| converse_outcome(r, cash)),
        decreases stop - i,
    {
        let ghost j = i - start;
        proof {
            assert(all.skip(j)[0] == all[j]);
            assert(all[j] == rows@[i as int]);
            assert(all.skip(j).drop_first() =~= all.skip(j + 1));
        }
        let row = &rows[i];
        match &row.name {
            None => {},
            Some(name) => {
                match CurrencyName::from_str(name.as_str()) {
                    Err(_) => {},
                    Ok(code) => {
                        let buy = cell_rate_exec(
                            if cash {
                                &row.cash_buy
                            } else {
                                &row.noncash_buy
                            },
                        );
                        match buy {
                            Err(e) => {
                                proof {
                                    assert(f(all[j]) == RowExtract::Abort(e));
                                    assert(all.skip(j).len() > 0);
                                    assert(all.skip(j).first() == all[j]);
                                    assert(extract_rows(all.skip(j), cur, f) == (
                                        cur,
                                        Err::<(), Error>(e),
                                    ));
                                }
                                return (cur, Err(e));
                            },
                            Ok(b) => {
                                let sell = cell_rate_exec(
                                    if cash {
                                        &row.cash_sell
                                    } else {
                                        &row.noncash_sell
                                    },
                                );
                                match sell {
                                    Err(e) => {
                                        proof {
                                            assert(f(all[j]) == RowExtract::Abort(e));
                                            assert(all.skip(j).len() > 0);
                                            assert(all.skip(j).first() == all[j]);
                                            assert(extract_rows(all.skip(j), cur, f) == (
                                                cur,
                                                Err::<(), Error>(e),
                                            ));
                                        }
                                        return (cur, Err(e));
                                    },
                                    Ok(s) => {
                                        cur.fill_from_currency(
                                            Currency::new(code, Some(b), Some(s)),
                                        );
                                    },
                                }
                            },
                        }
                    },
                }
            },
        }
        i += 1;
    }
    proof {
        assert(all.skip(stop - start) =~= Seq::<ConverseCells>::empty());
    }
    (cur, Ok(()))
}

impl Default for Conversebank {
    fn default() -> (r: Self)
        ensures
            r.is_initial(),
    {
        Conversebank {
            body: BankBody {
                name: String::from_str("Conversebank"),
                url: String::from_str("https://www.conversebank.am/ru/exchange-rate/"),
            },
            cash_currencies: CurrencyBody::default(),
            no_cash_currencies: CurrencyBody::default(),
        }
    }
}

impl Conversebank {
    /// A freshly configured adapter: identity set, both containers empty.
    pub open spec fn is_initial(self) -> bool {
        &&& self.body.name@ == "Conversebank"@
        &&& self.body.url@ == "https://www.conversebank.am/ru/exchange-rate/"@
        &&& self.cash_currencies == empty_body()
        &&& self.no_cash_currencies == empty_body()
    }

    /// Fills the cash container from already-extracted rows.
    pub fn fill_cash(&mut self, rows: &Vec<ConverseCells>) -> (r: Result<(), Error>)
        ensures
            final(self).body == old(self).body,
            final(self).no_cash_currencies == old(self).no_cash_currencies,
            ({
                let (b, res) = converse_extract(rows@, old(self).cash_currencies, true);
                final(self).cash_currencies == b && r == res
            }),
    {
        let (b, res) = fill_segment(rows, true, self.cash_currencies);
        self.cash_currencies = b;
        res
    }

    /// Fills the non-cash container from already-extracted rows.
    pub fn fill_no_cash(&mut self, rows: &Vec<ConverseCells>) -> (r: Result<(), Error>)
        ensures
            final(self).body == old(self).body,
            final(self).cash_currencies == old(self).cash_currencies,
            ({
                let (b, res) = converse_extract(rows@, old(self).no_cash_currencies, false);
                final(self).no_cash_currencies == b && r == res
            }),
    {
        let (b, res) = fill_segment(rows, false, self.no_cash_currencies);
        self.no_cash_currencies = b;
        res
    }

    /// Extracts the cash rates from the fetched rate page.
    pub fn parse_cash(&mut self, document: &str) -> (r: Result<(), Error>)
        ensures
            final(self).body == old(self).body,
            final(self).no_cash_currencies == old(self).no_cash_currencies,
            ({
                match converse_cells_of(document@, MAIN_SELECTOR@) {
                    None => final(self).cash_currencies == old(self).cash_currencies && r
                        == Err::<(), Error>(Error::BankParseFail),
                    Some(rows) => ({
                        let (b, res) = converse_extract(rows, old(self).cash_currencies, true);
                        final(self).cash_currencies == b && r == res
                    }),
                }
            }),
    {
        match converse_cells(document, MAIN_SELECTOR) {
            None => Err(Error::BankParseFail),
            Some(rows) => self.fill_cash(&rows),
        }
    }

    /// Extracts the non-cash rates from the fetched rate page.
    pub fn parse_no_cash(&mut self, document: &str) -> (r: Result<(), Error>)
        ensures
            final(self).body == old(self).body,
            final(self).cash_currencies == old(self).cash_currencies,
            ({
                match converse_cells_of(document@, MAIN_SELECTOR@) {
                    None => final(self).no_cash_currencies == old(self).no_cash_currencies && r
                        == Err::<(), Error>(Error::BankParseFail),
                    Some(rows) => ({
                        let (b, res) = converse_extract(rows, old(self).no_cash_currencies, false);
                        final(self).no_cash_currencies == b && r == res
                    }),
                }
            }),
    {
        match converse_cells(document, MAIN_SELECTOR) {
            None => Err(Error::BankParseFail),
            Some(rows) => self.fill_no_cash(&rows),
        }
    }

    pub fn cash_currencies(&self) -> (r: &CurrencyBody)
        ensures
            r == self.cash_currencies,
    {
        &self.cash_currencies
    }

    pub fn no_cash_currencies(&self) -> (r: &CurrencyBody)
        ensures
            r == self.no_cash_currencies,
    {
        &self.no_cash_currencies
    }

    pub fn get_name(&self) -> (r: &String)
        ensures
            r == self.body.name,
    {
        &self.body.name
    }

    pub fn get_url(&self) -> (r: &String)
        ensures
            r == self.body.url,
    {
        &self.body.url
    }
}

} // verus!
