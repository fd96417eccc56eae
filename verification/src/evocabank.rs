use scraper::{ElementRef, Html, Selector};
use vstd::prelude::*;

use crate::error::Error;
use crate::extract::{cell_rate_trimmed, cell_rate_trimmed_exec, extract_rows, window, RateCells,
    RowExtract};
use crate::{empty_body, resolve_code, BankBody, Currency, CurrencyBody, CurrencyName};

verus! {

/// Source with one HTML table per segment, the currency code wrapped in
/// a `<span>` and the values carrying stray whitespace.
#[derive(Debug)]
pub struct Evocabank {
    pub body: BankBody,
    pub cash_currencies: CurrencyBody,
    pub no_cash_currencies: CurrencyBody,
}

/// The structural address of the cash tab's table rows.
pub const CASH_SELECTOR: &'static str =
    "#tab-1 > div > div.exchange > div > div.exchange__box > div > div > table > tbody > tr";

/// The structural address of the non-cash tab's table rows.
pub const NO_CASH_SELECTOR: &'static str =
    "#tab-2 > div > div.exchange > div > div.exchange__box > div > div > table > tbody > tr";

/// The structural address of a row's currency-code element.
pub const NAME_SELECTOR: &'static str = "span";

/// The rows scraper extracts from a document under a row and a name
/// selector: a function of the three texts alone (`None` for an
/// unparsable selector).
pub uninterp spec fn evoca_cells_of(
    document: Seq<char>,
    row_selector: Seq<char>,
    name_selector: Seq<char>,
) -> Option<Seq<RateCells>>;

/// Relies on scraper (Html::parse_document, Selector::parse, Select and
/// ego-tree child navigation): for every element matched by
/// `row_selector`, the inner HTML of its first descendant matched by
/// `name_selector` and of its child nodes 3 and 5; a missing or
/// non-element node is `None`, an unparsable selector yields `None`
/// overall.
#[verifier::external_body]
fn evoca_cells(document: &str, row_selector: &str, name_selector: &str) -> (r: Option<
    Vec<RateCells>,
>)
    ensures
        match r {
            Some(cells) => evoca_cells_of(document@, row_selector@, name_selector@) == Some(
                cells@,
            ),
            None => evoca_cells_of(document@, row_selector@, name_selector@) is None,
        },
{
    let rsel = match Selector::parse(row_selector) { Ok(s) => s, Err(_) => return None };
    let nsel = match Selector::parse(name_selector) { Ok(s) => s, Err(_) => return None };
    let cell = |e: &ElementRef, k: usize| e.children().nth(k).and_then(ElementRef::wrap).map(|c| c.inner_html());
    let html = Html::parse_document(document);
    Some(html.select(&rsel).map(|e| RateCells {
        name: e.select(&nsel).next().map(|c| c.inner_html()), buy: cell(&e, 3), sell: cell(&e, 5),
    }).collect())
}

/// What one row contributes: a missing code cell is fatal, an
/// unresolvable code skips the row, and a missing or non-numeric value
/// cell (after trimming) is fatal.
pub open spec fn evoca_outcome(row: RateCells) -> RowExtract {
    match row.name {
        None => RowExtract::Abort(Error::BankParseFail),
        Some(name) => match resolve_code(name@) {
            None => RowExtract::Skip,
            Some(code) => match cell_rate_trimmed(row.buy) {
                Err(e) => RowExtract::Abort(e),
                Ok(b) => match cell_rate_trimmed(row.sell) {
                    Err(e) => RowExtract::Abort(e),
                    Ok(s) => RowExtract::Fill(Currency { name: code, buy: Some(b), sell: Some(s) }),
                },
            },
        },
    }
}

/// The fold of this source's rows (the first four matched ones) into a
/// rate container.
pub open spec fn evoca_extract(rows: Seq<RateCells>, body: CurrencyBody) -> (
    CurrencyBody,
    Result<(), Error>,
) {
    extract_rows(window(rows, 0, 4), body, |r: RateCells| evoca_outcome(r))
}

/// The whole parse step on one fetched page: the cash tab folded first,
/// then the non-cash tab, stopping at the first fatal row; a tab whose
/// rows cannot be addressed fails structurally.
pub open spec fn evoca_apply(b: Evocabank, document: Seq<char>) -> (Evocabank, Result<(), Error>) {
    match evoca_cells_of(document, CASH_SELECTOR@, NAME_SELECTOR@) {
        None => (b, Err(Error::BankParseFail)),
        Some(rows) => {
            let (cash, r1) = evoca_extract(rows, b.cash_currencies);
            match r1 {
                Err(e) => (Evocabank { cash_currencies: cash, ..b }, Err(e)),
                Ok(_) => match evoca_cells_of(document, NO_CASH_SELECTOR@, NAME_SELECTOR@) {
                    None => (Evocabank { cash_currencies: cash, ..b }, Err(Error::BankParseFail)),
                    Some(rows2) => {
                        let (noncash, r2) = evoca_extract(rows2, b.no_cash_currencies);
                        (
                            Evocabank {
                                cash_currencies: cash,
                                no_cash_currencies: noncash,
                                ..b
                            },
                            r2,
                        )
                    },
                },
            }
        },
    }
}

/// Folds the consulted rows into `body`, row by row; a fatal row leaves
/// every fill made before it in place.
fn fill_segment(rows: &Vec<RateCells>, body: CurrencyBody) -> (r: (
    CurrencyBody,
    Result<(), Error>,
))
    ensures
        r == evoca_extract(rows@, body),
{
    let ghost all = window(rows@, 0, 4);
    let ghost f = |r: RateCells| evoca_outcome(r);
    let len = rows.len();
    let stop: usize = if len < 4 {
        len
    } else {
        4
    };
    proof {
        assert(all =~= rows@.subrange(0, stop as int));
        assert(all.skip(0) =~= all);
    }
    let mut cur = body;
    let mut i: usize = 0;
    while i < stop
        invariant
            0 <= i <= stop <= rows@.len(),
            stop == all.len(),
            all == rows@.subrange(0, stop as int),
            all == window(rows@, 0, 4),
            extract_rows(all, body, f) == extract_rows(all.skip(i as int), cur, f),
            f == (|r: RateCells| evoca_outcome(r)),
        decreases stop - i,
    {
        let ghost j = i as int;
        proof {
            assert(all.skip(j)[0] == all[j]);
            assert(all[j] == rows@[i as int]);
            assert(all.skip(j).drop_first() =~= all.skip(j + 1));
        }
        let row = &rows[i];
        match &row.name {
            None => {
                proof {
                    assert(f(all[j]) == RowExtract::Abort(Error::BankParseFail));
                    assert(all.skip(j).len() > 0);
                    assert(all.skip(j).first() == all[j]);
                    assert(extract_rows(all.skip(j), cur, f) == (
                        cur,
                        Err::<(), Error>(Error::BankParseFail),
                    ));
                }
                return (cur, Err(Error::BankParseFail));
            },
            Some(name) => {
                match CurrencyName::from_str(name.as_str()) {
                    Err(_) => {},
                    Ok(code) => {
                        match cell_rate_trimmed_exec(&row.buy) {
                            Err(e) => {
                                proof {
                                    assert(f(all[j]) == RowExtract::Abort(e));
                                    assert(all.skip(j).len() > 0);
                                    assert(all.skip(j).first() == all[j]);
                                    assert(extract_rows(all.skip(j), cur, f) == (
                                        cur,
                                        Err::<(), Error>(e),
                                    ));
                                }
                                return (cur, Err(e));
                            },
                            Ok(b) => {
                                match cell_rate_trimmed_exec(&row.sell) {
                                    Err(e) => {
                                        proof {
                                            assert(f(all[j]) == RowExtract::Abort(e));
                                            assert(all.skip(j).len() > 0);
                                            assert(all.skip(j).first() == all[j]);
                                            assert(extract_rows(all.skip(j), cur, f) == (
                                                cur,
                                                Err::<(), Error>(e),
                                            ));
                                        }
                                        return (cur, Err(e));
                                    },
                                    Ok(s) => {
                                        cur.fill_from_currency(
                                            Currency::new(code, Some(b), Some(s)),
                                        );
                                    },
                                }
                            },
                        }
                    },
                }
            },
        }
        i += 1;
    }
    proof {
        assert(all.skip(stop as int) =~= Seq::<RateCells>::empty());
    }
    (cur, Ok(()))
}

impl Default for Evocabank {
    fn default() -> (r: Self)
        ensures
            r.is_initial(),
    {
        Evocabank {
            body: BankBody {
                name: String::from_str("Evocabank"),
                url: String::from_str("https://www.evoca.am/"),
            },
            cash_currencies: CurrencyBody::default(),
            no_cash_currencies: CurrencyBody::default(),
        }
    }
}

impl Evocabank {
    /// A freshly configured adapter: identity set, both containers empty.
    pub open spec fn is_initial(self) -> bool {
        &&& self.body.name@ == "Evocabank"@
        &&& self.body.url@ == "https://www.evoca.am/"@
        &&& self.cash_currencies == empty_body()
        &&& self.no_cash_currencies == empty_body()
    }

    /// Fills the cash container from already-extracted rows.
    pub fn fill_cash(&mut self, rows: &Vec<RateCells>) -> (r: Result<(), Error>)
        ensures
            final(self).body == old(self).body,
            final(self).no_cash_currencies == old(self).no_cash_currencies,
            ({
                let (b, res) = evoca_extract(rows@, old(self).cash_currencies);
                final(self).cash_currencies == b && r == res
            }),
    {
        let (b, res) = fill_segment(rows, self.cash_currencies);
        self.cash_currencies = b;
        res
    }

    /// Fills the non-cash container from already-extracted rows.
    pub fn fill_no_cash(&mut self, rows: &Vec<RateCells>) -> (r: Result<(), Error>)
        ensures
            final(self).body == old(self).body,
            final(self).cash_currencies == old(self).cash_currencies,
            ({
                let (b, res) = evoca_extract(rows@, old(self).no_cash_currencies);
                final(self).no_cash_currencies == b && r == res
            }),
    {
        let (b, res) = fill_segment(rows, self.no_cash_currencies);
        self.no_cash_currencies = b;
        res
    }

    /// Extracts the cash rates from the fetched page.
    pub fn parse_cash(&mut self, document: &str) -> (r: Result<(), Error>)
        ensures
            final(self).body == old(self).body,
            final(self).no_cash_currencies == old(self).no_cash_currencies,
            ({
                match evoca_cells_of(document@, CASH_SELECTOR@, NAME_SELECTOR@) {
                    None => final(self).cash_currencies == old(self).cash_currencies && r
                        == Err::<(), Error>(Error::BankParseFail),
                    Some(rows) => ({
                        let (b, res) = evoca_extract(rows, old(self).cash_currencies);
                        final(self).cash_currencies == b && r == res
                    }),
                }
            }),
    {
        match evoca_cells(document, CASH_SELECTOR, NAME_SELECTOR) {
            None => Err(Error::BankParseFail),
            Some(rows) => self.fill_cash(&rows),
        }
    }

    /// Extracts the non-cash rates from the fetched page.
    pub fn parse_no_cash(&mut self, document: &str) -> (r: Result<(), Error>)
        ensures
            final(self).body == old(self).body,
            final(self).cash_currencies == old(self).cash_currencies,
            ({
                match evoca_cells_of(document@, NO_CASH_SELECTOR@, NAME_SELECTOR@) {
                    None => final(self).no_cash_currencies == old(self).no_cash_currencies && r
                        == Err::<(), Error>(Error::BankParseFail),
                    Some(rows) => ({
                        let (b, res) = evoca_extract(rows, old(self).no_cash_currencies);
                        final(self).no_cash_currencies == b && r == res
                    }),
                }
            }),
    {
        match evoca_cells(document, NO_CASH_SELECTOR, NAME_SELECTOR) {
            None => Err(Error::BankParseFail),
            Some(rows) => self.fill_no_cash(&rows),
        }
    }

    pub fn cash_currencies(&self) -> (r: &CurrencyBody)
        ensures
            r == self.cash_currencies,
    {
        &self.cash_currencies
    }

    pub fn no_cash_currencies(&self) -> (r: &CurrencyBody)
        ensures
            r == self.no_cash_currencies,
    {
        &self.no_cash_currencies
    }

    pub fn get_name(&self) -> (r: &String)
        ensures
            r == self.body.name,
    {
        &self.body.name
    }

    pub fn get_url(&self) -> (r: &String)
        ensures
            r == self.body.url,
    {
        &self.body.url
    }
}

} // verus!
