use vstd::prelude::*;

use crate::error::Error;
use crate::rate::{decimal_value, parse_rate, valid_decimal, RateValue};
use crate::text::{trim_spaces, trimmed};
use crate::{filled, Currency, CurrencyBody};

verus! {

/// What one source row contributes: nothing (the row is ignored), one
/// quotation, or a fatal failure that aborts the institution's fetch.
pub enum RowExtract {
    Skip,
    Fill(Currency),
    Abort(Error),
}

/// Folds rows into a rate container, stopping at the first fatal row.
/// On failure the container keeps every fill made before that row.
pub open spec fn extract_rows<R>(
    rows: Seq<R>,
    body: CurrencyBody,
    f: spec_fn(R) -> RowExtract,
) -> (CurrencyBody, Result<(), Error>)
    decreases rows.len(),
{
    if rows.len() == 0 {
        (body, Ok(()))
    } else {
        match f(rows.first()) {
            RowExtract::Skip => extract_rows(rows.drop_first(), body, f),
            RowExtract::Fill(c) => extract_rows(rows.drop_first(), filled(body, c), f),
            RowExtract::Abort(e) => (body, Err(e)),
        }
    }
}

/// The rows a source consults: at most `take` of them, the first `skip`
/// passed over.
pub open spec fn window<R>(rows: Seq<R>, skip: int, take: int) -> Seq<R> {
    let start = if rows.len() < skip {
        rows.len() as int
    } else {
        skip
    };
    let stop = if rows.len() < skip + take {
        rows.len() as int
    } else {
        skip + take
    };
    rows.subrange(start, stop)
}

/// All rows past the first `skip`.
pub open spec fn skip_rows<R>(rows: Seq<R>, skip: int) -> Seq<R> {
    if rows.len() < skip {
        rows.subrange(rows.len() as int, rows.len() as int)
    } else {
        rows.subrange(skip, rows.len() as int)
    }
}

/// The rate a structurally required cell yields: a missing cell violates
/// the source's layout, a present but non-numeric text is a numeric
/// failure; both are fatal.
pub open spec fn cell_rate(cell: Option<String>) -> Result<RateValue, Error> {
    match cell {
        None => Err(Error::BankParseFail),
        Some(t) => if valid_decimal(t@) && decimal_value(t@) <= u64::MAX {
            Ok(RateValue { raw: decimal_value(t@) as u64 })
        } else {
            Err(Error::CurrencyParseFail)
        },
    }
}

/// Executable counterpart of [`cell_rate`].
pub fn cell_rate_exec(cell: &Option<String>) -> (r: Result<RateValue, Error>)
    ensures
        r == cell_rate(*cell),
{
    match cell {
        None => Err(Error::BankParseFail),
        Some(t) => parse_rate(t.as_str()),
    }
}

/// As [`cell_rate`], for sources that trim whitespace around the value
/// before parsing it.
pub open spec fn cell_rate_trimmed(cell: Option<String>) -> Result<RateValue, Error> {
    match cell {
        None => Err(Error::BankParseFail),
        Some(t) => if valid_decimal(trimmed(t@)) && decimal_value(trimmed(t@)) <= u64::MAX {
            Ok(RateValue { raw: decimal_value(trimmed(t@)) as u64 })
        } else {
            Err(Error::CurrencyParseFail)
        },
    }
}

/// Executable counterpart of [`cell_rate_trimmed`].
pub fn cell_rate_trimmed_exec(cell: &Option<String>) -> (r: Result<RateValue, Error>)
    ensures
        r == cell_rate_trimmed(*cell),
{
    match cell {
        None => Err(Error::BankParseFail),
        Some(t) => parse_rate(trim_spaces(t.as_str())),
    }
}

/// One extracted source row: the raw texts of the currency-code cell and
/// of the buy and sell value cells; `None` marks a missing cell.
pub struct RateCells {
    pub name: Option<String>,
    pub buy: Option<String>,
    pub sell: Option<String>,
}

} // verus!
