use scraper::{ElementRef, Html, Selector};
use vstd::prelude::*;

use crate::error::Error;
use crate::extract::{extract_rows, skip_rows, window, RowExtract};
use crate::rate::{decimal_value, parse_rate_or_zero, valid_decimal, RateValue};
use crate::text::{strip_unit, strip_unit_prefix};
use crate::{empty_body, resolve_code, BankBody, Currency, CurrencyBody, CurrencyName};

verus! {

/// One cell column of the rate table: the cell's own inner HTML (the
/// currency-code text) and the inner HTML of its second and fourth
/// following siblings (the buy and sell cells).
pub struct IdbankCells {
    pub own: String,
    pub buy: Option<String>,
    pub sell: Option<String>,
}

/// Source whose rate table is fetched with one form POST per segment;
/// code and value tokens are picked out of the cell texts by pattern.
#[derive(Debug)]
pub struct Idbank {
    pub body: BankBody,
    pub cash_currencies: CurrencyBody,
    pub no_cash_currencies: CurrencyBody,
}

/// The leftmost token of the shape digit-space-three-word-characters in
/// a cell text, as regex's `\d \w{3}` finds it: a function of the text
/// alone.
pub uninterp spec fn id_code_match_of(s: Seq<char>) -> Option<Seq<char>>;

/// The leftmost numeric token in a cell text, as regex's `\d+\.?\d+`
/// finds it: a function of the text alone.
pub uninterp spec fn id_value_match_of(s: Seq<char>) -> Option<Seq<char>>;

/// Relies on regex::Regex::find with the pattern `\d \w{3}`: the
/// leftmost match in the text, `None` when nothing matches.
#[verifier::external_body]
fn id_code_match(text: &str) -> (r: Option<String>)
    ensures
        match r {
            Some(m) => id_code_match_of(text@) == Some(m@),
            None => id_code_match_of(text@) is None,
        },
{
    regex::Regex::new("\\d \\w{3}").unwrap().find(text).map(|m| m.as_str().to_string())
}

/// Relies on regex::Regex::find with the pattern `\d+\.?\d+`: the
/// leftmost match in the text, `None` when nothing matches.
#[verifier::external_body]
fn id_value_match(text: &str) -> (r: Option<String>)
    ensures
        match r {
            Some(m) => id_value_match_of(text@) == Some(m@),
            None => id_value_match_of(text@) is None,
        },
{
    regex::Regex::new("\\d+\\.?\\d+").unwrap().find(text).map(|m| m.as_str().to_string())
}

/// The rows scraper extracts from a document under a selector: a
/// function of the two texts alone (`None` for an unparsable selector).
pub uninterp spec fn idbank_cells_of(document: Seq<char>, selector: Seq<char>) -> Option<
    Seq<IdbankCells>,
>;

/// Relies on scraper (Html::parse_document, Selector::parse, Select and
/// ego-tree sibling navigation): for every element matched by
/// `selector`, its own inner HTML and the inner HTML of its second and
/// fourth following siblings; a missing or non-element sibling is `None`,
/// an unparsable selector yields `None` overall.
#[verifier::external_body]
fn idbank_cells(document: &str, selector: &str) -> (r: Option<Vec<IdbankCells>>)
    ensures
        match r {
            Some(cells) => idbank_cells_of(document@, selector@) == Some(cells@),
            None => idbank_cells_of(document@, selector@) is None,
        },
{
    let sel = match Selector::parse(selector) { Ok(s) => s, Err(_) => return None };
    let sib = |e: &ElementRef, k: usize| e.next_siblings().nth(k).and_then(ElementRef::wrap).map(|c| c.inner_html());
    let html = Html::parse_document(document);
    Some(html.select(&sel).map(|e| IdbankCells {
        own: e.inner_html(), buy: sib(&e, 1), sell: sib(&e, 3),
    }).collect())
}

/// The rate a value cell yields: a missing cell is fatal; a cell whose
/// text holds no parsable numeric token counts as zero.
pub open spec fn id_value_of(cell: Option<String>) -> Result<RateValue, Error> {
    match cell {
        None => Err(Error::BankParseFail),
        Some(t) => Ok(
            RateValue {
                raw: (match id_value_match_of(t@) {
                    None => 0,
                    Some(m) => if valid_decimal(m) && decimal_value(m) <= u64::MAX {
                        decimal_value(m) as u64
                    } else {
                        0
                    },
                }),
            },
        ),
    }
}

/// Executable counterpart of [`id_value_of`].
fn id_value_exec(cell: &Option<String>) -> (r: Result<RateValue, Error>)
    ensures
        r == id_value_of(*cell),
{
    match cell {
        None => Err(Error::BankParseFail),
        Some(t) => match id_value_match(t.as_str()) {
            None => Ok(RateValue::new(0)),
            Some(m) => Ok(parse_rate_or_zero(m.as_str())),
        },
    }
}

/// What one row contributes: rows whose cell text holds no code token,
/// or an unresolvable one, are skipped; a missing value cell is fatal.
pub open spec fn idbank_outcome(row: IdbankCells) -> RowExtract {
    match id_code_match_of(row.own@) {
        None => RowExtract::Skip,
        Some(m) => match resolve_code(strip_unit(m)) {
            None => RowExtract::Skip,
            Some(code) => match id_value_of(row.buy) {
                Err(e) => RowExtract::Abort(e),
                Ok(b) => match id_value_of(row.sell) {
                    Err(e) => RowExtract::Abort(e),
                    Ok(s) => RowExtract::Fill(Currency { name: code, buy: Some(b), sell: Some(s) }),
                },
            },
        },
    }
}

/// The fold of this source's rows into a rate container: both segments
/// pass over the header row; the cash table consults at most five rows,
/// the non-cash table all of them.
pub open spec fn idbank_extract(rows: Seq<IdbankCells>, body: CurrencyBody, cash: bool) -> (
    CurrencyBody,
    Result<(), Error>,
) {
    extract_rows(
        if cash {
            window(rows, 1, 5)
        } else {
            skip_rows(rows, 1)
        },
        body,
        |r: IdbankCells| idbank_outcome(r),
    )
}

/// The whole parse step on the two fetched documents: the cash table
/// folded first, then the non-cash table, stopping at the first fatal
/// row; a document whose rows cannot be addressed fails structurally.
pub open spec fn idbank_apply(b: Idbank, cash_doc: Seq<char>, noncash_doc: Seq<char>) -> (
    Idbank,
    Result<(), Error>,
) {
    match idbank_cells_of(cash_doc, ID_SELECTOR@) {
        None => (b, Err(Error::BankParseFail)),
        Some(rows) => {
            let (cash, r1) = idbank_extract(rows, b.cash_currencies, true);
            match r1 {
                Err(e) => (Idbank { cash_currencies: cash, ..b }, Err(e)),
                Ok(_) => match idbank_cells_of(noncash_doc, ID_SELECTOR@) {
                    None => (Idbank { cash_currencies: cash, ..b }, Err(Error::BankParseFail)),
                    Some(rows2) => {
                        let (noncash, r2) = idbank_extract(rows2, b.no_cash_currencies, false);
                        (
                            Idbank {
                                cash_currencies: cash,
                                no_cash_currencies: noncash,
                                ..b
                            },
                            r2,
                        )
                    },
                },
            }
        },
    }
}

/// Folds the consulted rows into `body`, row by row; a fatal row leaves
/// every fill made before it in place.
fn fill_segment(rows: &Vec<IdbankCells>, cash: bool, body: CurrencyBody) -> (r: (
    CurrencyBody,
    Result<(), Error>,
))
    ensures
        r == idbank_extract(rows@, body, cash),
{
    let ghost all = if cash {
        window(rows@, 1, 5)
    } else {
        skip_rows(rows@, 1)
    };
    let ghost f = |r: IdbankCells| idbank_outcome(r);
    let len = rows.len();
    let start: usize = if len < 1 {
        len
    } else {
        1
    };
    let stop: usize = if cash && len >= 6 {
        6
    } else {
        len
    };
    proof {
        assert(all =~= rows@.subrange(start as int, stop as int));
        assert(all.skip(0) =~= all);
    }
    let mut cur = body;
    let mut i = start;
    while i < stop
        invariant
            start <= i <= stop <= rows@.len(),
            stop - start == all.len(),
            all == rows@.subrange(start as int, stop as int),
            all == (if cash {
                window(rows@, 1, 5)
            } else {
                skip_rows(rows@, 1)
            }),
            extract_rows(all, body, f) == extract_rows(all.skip(i - start), cur, f),
            f == (|r: IdbankCells| idbank_outcome(r)),
        decreases stop - i,
    {
        let ghost j = i - start;
        proof {
            assert(all.skip(j)[0] == all[j]);
            assert(all[j] == rows@[i as int]);
            assert(all.skip(j).drop_first() =~= all.skip(j + 1));
        }
        let row = &rows[i];
        match id_code_match(row.own.as_str()) {
            None => {},
            Some(m) => {
                match CurrencyName::from_str(strip_unit_prefix(m.as_str())) {
                    Err(_) => {},
                    Ok(code) => {
                        match id_value_exec(&row.buy) {
                            Err(e) => {
                                proof {
                                    assert(f(all[j]) == RowExtract::Abort(e));
                                    assert(all.skip(j).len() > 0);
                                    assert(all.skip(j).first() == all[j]);
                                    assert(extract_rows(all.skip(j), cur, f) == (
                                        cur,
                                        Err::<(), Error>(e),
                                    ));
                                }
                                return (cur, Err(e));
                            },
                            Ok(b) => {
                                match id_value_exec(&row.sell) {
                                    Err(e) => {
                                        proof {
                                            assert(f(all[j]) == RowExtract::Abort(e));
                                            assert(all.skip(j).len() > 0);
                                            assert(all.skip(j).first() == all[j]);
                                            assert(extract_rows(all.skip(j), cur, f) == (
                                                cur,
                                                Err::<(), Error>(e),
                                            ));
                                        }
                                        return (cur, Err(e));
                                    },
                                    Ok(s) => {
                                        cur.fill_from_currency(
                                            Currency::new(code, Some(b), Some(s)),
                                        );
                                    },
                                }
                            },
                        }
                    },
                }
            },
        }
        i += 1;
    }
    proof {
        assert(all.skip(stop - start) =~= Seq::<IdbankCells>::empty());
    }
    (cur, Ok(()))
}

impl Default for Idbank {
    fn default() -> (r: Self)
        ensures
            r.is_initial(),
    {
        Idbank {
            body: BankBody {
                name: String::from_str("Idbank"),
                url: String::from_str("https://idbank.am/en/rates/"),
            },
            cash_currencies: CurrencyBody::default(),
            no_cash_currencies: CurrencyBody::default(),
        }
    }
}

impl Idbank {
    /// A freshly configured adapter: identity set, both containers empty.
    pub open spec fn is_initial(self) -> bool {
        &&& self.body.name@ == "Idbank"@
        &&& self.body.url@ == "https://idbank.am/en/rates/"@
        &&& self.cash_currencies == empty_body()
        &&& self.no_cash_currencies == empty_body()
    }

    /// Fills the cash container from already-extracted rows.
    pub fn fill_cash(&mut self, rows: &Vec<IdbankCells>) -> (r: Result<(), Error>)
        ensures
            final(self).body == old(self).body,
            final(self).no_cash_currencies == old(self).no_cash_currencies,
            ({
                let (b, res) = idbank_extract(rows@, old(self).cash_currencies, true);
                final(self).cash_currencies == b && r == res
            }),
    {
        let (b, res) = fill_segment(rows, true, self.cash_currencies);
        self.cash_currencies = b;
        res
    }

    /// Fills the non-cash container from already-extracted rows.
    pub fn fill_no_cash(&mut self, rows: &Vec<IdbankCells>) -> (r: Result<(), Error>)
        ensures
            final(self).body == old(self).body,
            final(self).cash_currencies == old(self).cash_currencies,
            ({
                let (b, res) = idbank_extract(rows@, old(self).no_cash_currencies, false);
                final(self).no_cash_currencies == b && r == res
            }),
    {
        let (b, res) = fill_segment(rows, false, self.no_cash_currencies);
        self.no_cash_currencies = b;
        res
    }

    /// Extracts the cash rates from the document the cash-segment POST
    /// returned.
    pub fn parse_cash(&mut self, document: &str) -> (r: Result<(), Error>)
        ensures
            final(self).body == old(self).body,
            final(self).no_cash_currencies == old(self).no_cash_currencies,
            ({
                match idbank_cells_of(document@, ID_SELECTOR@) {
                    None => final(self).cash_currencies == old(self).cash_currencies && r
                        == Err::<(), Error>(Error::BankParseFail),
                    Some(rows) => ({
                        let (b, res) = idbank_extract(rows, old(self).cash_currencies, true);
                        final(self).cash_currencies == b && r == res
                    }),
                }
            }),
    {
        match idbank_cells(document, ID_SELECTOR) {
            None => Err(Error::BankParseFail),
            Some(rows) => self.fill_cash(&rows),
        }
    }

    /// Extracts the non-cash rates from the document the non-cash
    /// segment POST returned.
    pub fn parse_no_cash(&mut self, document: &str) -> (r: Result<(), Error>)
        ensures
            final(self).body == old(self).body,
            final(self).cash_currencies == old(self).cash_currencies,
            ({
                match idbank_cells_of(document@, ID_SELECTOR@) {
                    None => final(self).no_cash_currencies == old(self).no_cash_currencies && r
                        == Err::<(), Error>(Error::BankParseFail),
                    Some(rows) => ({
                        let (b, res) = idbank_extract(rows, old(self).no_cash_currencies, false);
                        final(self).no_cash_currencies == b && r == res
                    }),
                }
            }),
    {
        match idbank_cells(document, ID_SELECTOR) {
            None => Err(Error::BankParseFail),
            Some(rows) => self.fill_no_cash(&rows),
        }
    }

    pub fn cash_currencies(&self) -> (r: &CurrencyBody)
        ensures
            r == self.cash_currencies,
    {
        &self.cash_currencies
    }

    pub fn no_cash_currencies(&self) -> (r: &CurrencyBody)
        ensures
            r == self.no_cash_currencies,
    {
        &self.no_cash_currencies
    }

    pub fn get_name(&self) -> (r: &String)
        ensures
            r == self.body.name,
    {
        &self.body.name
    }

    pub fn get_url(&self) -> (r: &String)
        ensures
            r == self.body.url,
    {
        &self.body.url
    }
}

/// The structural address of the first cell of every rate-table row.
pub const ID_SELECTOR: &'static str =
    "#\\.default > div.m-exchange > div.m-exchange__table > div > .m-exchange__table-cell:nth-child(1)";

} // verus!
