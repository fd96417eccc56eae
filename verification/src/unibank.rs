use scraper::{ElementRef, Html, Selector};
use vstd::prelude::*;

use crate::error::Error;
use crate::extract::{cell_rate, cell_rate_exec, extract_rows, window, RateCells, RowExtract};
use crate::{empty_body, resolve_code, BankBody, Currency, CurrencyBody, CurrencyName};

verus! {

/// Source with an HTML list per segment: the code in a row's first
/// child, the values inside the first child of its later siblings.
#[derive(Debug)]
pub struct Unibank {
    pub body: BankBody,
    pub cash_currencies: CurrencyBody,
    pub no_cash_currencies: CurrencyBody,
}

/// The structural address of the cash list's code rows.
pub const CASH_SELECTOR: &'static str =
    "#Cash > div.pane__body > ul:nth-child(2) > li:nth-child(3n+1)";

/// The structural address of the non-cash list's code rows.
pub const NO_CASH_SELECTOR: &'static str = "#Noncash > div.pane__body > ul > li:nth-child(3n+1)";

/// The rows scraper extracts from a document under a selector: a
/// function of the two texts alone (`None` for an unparsable selector).
pub uninterp spec fn unibank_cells_of(document: Seq<char>, selector: Seq<char>) -> Option<
    Seq<RateCells>,
>;

/// Relies on scraper (Html::parse_document, Selector::parse, Select and
/// ego-tree sibling navigation): for every element matched by
/// `selector`, the inner HTML of its first child and of the first child
/// of its second and fourth following siblings; a missing or non-element
/// node is `None`, an unparsable selector yields `None` overall.
#[verifier::external_body]
fn unibank_cells(document: &str, selector: &str) -> (r: Option<Vec<RateCells>>)
    ensures
        match r {
            Some(cells) => unibank_cells_of(document@, selector@) == Some(cells@),
            None => unibank_cells_of(document@, selector@) is None,
        },
{
    let sel = match Selector::parse(selector) { Ok(s) => s, Err(_) => return None };
    let sib = |e: &ElementRef, k: usize| e.next_siblings().nth(k).and_then(|n| n.first_child()).and_then(ElementRef::wrap).map(|c| c.inner_html());
    let html = Html::parse_document(document);
    Some(html.select(&sel).map(|e| RateCells {
        name: e.children().next().and_then(ElementRef::wrap).map(|c| c.inner_html()),
        buy: sib(&e, 1), sell: sib(&e, 3),
    }).collect())
}

/// What one row contributes: a missing code cell is fatal, an
/// unresolvable code skips the row, and a missing or non-numeric value
/// cell is fatal.
pub open spec fn unibank_outcome(row: RateCells) -> RowExtract {
    match row.name {
        None => RowExtract::Abort(Error::BankParseFail),
        Some(name) => match resolve_code(name@) {
            None => RowExtract::Skip,
            Some(code) => match cell_rate(row.buy) {
                Err(e) => RowExtract::Abort(e),
                Ok(b) => match cell_rate(row.sell) {
                    Err(e) => RowExtract::Abort(e),
                    Ok(s) => RowExtract::Fill(Currency { name: code, buy: Some(b), sell: Some(s) }),
                },
            },
        },
    }
}

/// The fold of this source's rows into a rate container: the cash list
/// consults at most its first four rows, the non-cash list every row.
pub open spec fn unibank_extract(rows: Seq<RateCells>, body: CurrencyBody, cash: bool) -> (
    CurrencyBody,
    Result<(), Error>,
) {
    extract_rows(
        if cash {
            window(rows, 0, 4)
        } else {
            rows
        },
        body,
        |r: RateCells| unibank_outcome(r),
    )
}

/// The whole parse step on one fetched page: the cash list folded first,
/// then the non-cash list, stopping at the first fatal row; a pane whose
/// rows cannot be addressed fails structurally.
pub open spec fn unibank_apply(b: Unibank, document: Seq<char>) -> (Unibank, Result<(), Error>) {
    match unibank_cells_of(document, CASH_SELECTOR@) {
        None => (b, Err(Error::BankParseFail)),
        Some(rows) => {
            let (cash, r1) = unibank_extract(rows, b.cash_currencies, true);
            match r1 {
                Err(e) => (Unibank { cash_currencies: cash, ..b }, Err(e)),
                Ok(_) => match unibank_cells_of(document, NO_CASH_SELECTOR@) {
                    None => (Unibank { cash_currencies: cash, ..b }, Err(Error::BankParseFail)),
                    Some(rows2) => {
                        let (noncash, r2) = unibank_extract(rows2, b.no_cash_currencies, false);
                        (
                            Unibank {
                                cash_currencies: cash,
                                no_cash_currencies: noncash,
                                ..b
                            },
                            r2,
                        )
                    },
                },
            }
        },
    }
}

/// Folds the consulted rows into `body`, row by row; a fatal row leaves
/// every fill made before it in place.
fn fill_segment(rows: &Vec<RateCells>, cash: bool, body: CurrencyBody) -> (r: (
    CurrencyBody,
    Result<(), Error>,
))
    ensures
        r == unibank_extract(rows@, body, cash),
{
    let ghost all = if cash {
        window(rows@, 0, 4)
    } else {
        rows@
    };
    let ghost f = |r: RateCells| unibank_outcome(r);
    let len = rows.len();
    let stop: usize = if cash && len >= 4 {
        4
    } else {
        len
    };
    proof {
        assert(all =~= rows@.subrange(0, stop as int));
        assert(all.skip(0) =~= all);
    }
    let mut cur = body;
    let mut i: usize = 0;
    while i < stop
        invariant
            0 <= i <= stop <= rows@.len(),
            stop == all.len(),
            all == rows@.subrange(0, stop as int),
            all == (if cash {
                window(rows@, 0, 4)
            } else {
                rows@
            }),
            extract_rows(all, body, f) == extract_rows(all.skip(i as int), cur, f),
            f == (|r: RateCells| unibank_outcome(r)),
        decreases stop - i,
    {
        let ghost j = i as int;
        proof {
            assert(all.skip(j)[0] == all[j]);
            assert(all[j] == rows@[i as int]);
            assert(all.skip(j).drop_first() =~= all.skip(j + 1));
        }
        let row = &rows[i];
        match &row.name {
            None => {
                proof {
                    assert(f(all[j]) == RowExtract::Abort(Error::BankParseFail));
                    assert(all.skip(j).len() > 0);
                    assert(all.skip(j).first() == all[j]);
                    assert(extract_rows(all.skip(j), cur, f) == (
                        cur,
                        Err::<(), Error>(Error::BankParseFail),
                    ));
                }
                return (cur, Err(Error::BankParseFail));
            },
            Some(name) => {
                match CurrencyName::from_str(name.as_str()) {
                    Err(_) => {},
                    Ok(code) => {
                        match cell_rate_exec(&row.buy) {
                            Err(e) => {
                                proof {
                                    assert(f(all[j]) == RowExtract::Abort(e));
                                    assert(all.skip(j).len() > 0);
                                    assert(all.skip(j).first() == all[j]);
                                    assert(extract_rows(all.skip(j), cur, f) == (
                                        cur,
                                        Err::<(), Error>(e),
                                    ));
                                }
                                return (cur, Err(e));
                            },
                            Ok(b) => {
                                match cell_rate_exec(&row.sell) {
                                    Err(e) => {
                                        proof {
                                            assert(f(all[j]) == RowExtract::Abort(e));
                                            assert(all.skip(j).len() > 0);
                                            assert(all.skip(j).first() == all[j]);
                                            assert(extract_rows(all.skip(j), cur, f) == (
                                                cur,
                                                Err::<(), Error>(e),
                                            ));
                                        }
                                        return (cur, Err(e));
                                    },
                                    Ok(s) => {
                                        cur.fill_from_currency(
                                            Currency::new(code, Some(b), Some(s)),
                                        );
                                    },
                                }
                            },
                        }
                    },
                }
            },
        }
        i += 1;
    }
    proof {
        assert(all.skip(stop as int) =~= Seq::<RateCells>::empty());
    }
    (cur, Ok(()))
}

impl Default for Unibank {
    fn default() -> (r: Self)
        ensures
            r.is_initial(),
    {
        Unibank {
            body: BankBody {
                name: String::from_str("Unibank"),
                url: String::from_str("https://www.unibank.am/"),
            },
            cash_currencies: CurrencyBody::default(),
            no_cash_currencies: CurrencyBody::default(),
        }
    }
}

impl Unibank {
    /// A freshly configured adapter: identity set, both containers empty.
    pub open spec fn is_initial(self) -> bool {
        &&& self.body.name@ == "Unibank"@
        &&& self.body.url@ == "https://www.unibank.am/"@
        &&& self.cash_currencies == empty_body()
        &&& self.no_cash_currencies == empty_body()
    }

    /// Fills the cash container from already-extracted rows.
    pub fn fill_cash(&mut self, rows: &Vec<RateCells>) -> (r: Result<(), Error>)
        ensures
            final(self).body == old(self).body,
            final(self).no_cash_currencies == old(self).no_cash_currencies,
            ({
                let (b, res) = unibank_extract(rows@, old(self).cash_currencies, true);
                final(self).cash_currencies == b && r == res
            }),
    {
        let (b, res) = fill_segment(rows, true, self.cash_currencies);
        self.cash_currencies = b;
        res
    }

    /// Fills the non-cash container from already-extracted rows.
    pub fn fill_no_cash(&mut self, rows: &Vec<RateCells>) -> (r: Result<(), Error>)
        ensures
            final(self).body == old(self).body,
            final(self).cash_currencies == old(self).cash_currencies,
            ({
                let (b, res) = unibank_extract(rows@, old(self).no_cash_currencies, false);
                final(self).no_cash_currencies == b && r == res
            }),
    {
        let (b, res) = fill_segment(rows, false, self.no_cash_currencies);
        self.no_cash_currencies = b;
        res
    }

    /// Extracts the cash rates from the fetched page.
    pub fn parse_cash(&mut self, document: &str) -> (r: Result<(), Error>)
        ensures
            final(self).body == old(self).body,
            final(self).no_cash_currencies == old(self).no_cash_currencies,
            ({
                match unibank_cells_of(document@, CASH_SELECTOR@) {
                    None => final(self).cash_currencies == old(self).cash_currencies && r
                        == Err::<(), Error>(Error::BankParseFail),
                    Some(rows) => ({
                        let (b, res) = unibank_extract(rows, old(self).cash_currencies, true);
                        final(self).cash_currencies == b && r == res
                    }),
                }
            }),
    {
        match unibank_cells(document, CASH_SELECTOR) {
            None => Err(Error::BankParseFail),
            Some(rows) => self.fill_cash(&rows),
        }
    }

    /// Extracts the non-cash rates from the fetched page.
    pub fn parse_no_cash(&mut self, document: &str) -> (r: Result<(), Error>)
        ensures
            final(self).body == old(self).body,
            final(self).cash_currencies == old(self).cash_currencies,
            ({
                match unibank_cells_of(document@, NO_CASH_SELECTOR@) {
                    None => final(self).no_cash_currencies == old(self).no_cash_currencies && r
                        == Err::<(), Error>(Error::BankParseFail),
                    Some(rows) => ({
                        let (b, res) = unibank_extract(rows, old(self).no_cash_currencies, false);
                        final(self).no_cash_currencies == b && r == res
                    }),
                }
            }),
    {
        match unibank_cells(document, NO_CASH_SELECTOR) {
            None => Err(Error::BankParseFail),
            Some(rows) => self.fill_no_cash(&rows),
        }
    }

    pub fn cash_currencies(&self) -> (r: &CurrencyBody)
        ensures
            r == self.cash_currencies,
    {
        &self.cash_currencies
    }

    pub fn no_cash_currencies(&self) -> (r: &CurrencyBody)
        ensures
            r == self.no_cash_currencies,
    {
        &self.no_cash_currencies
    }

    pub fn get_name(&self) -> (r: &String)
        ensures
            r == self.body.name,
    {
        &self.body.name
    }

    pub fn get_url(&self) -> (r: &String)
        ensures
            r == self.body.url,
    {
        &self.body.url
    }
}

} // verus!
