use vstd::prelude::*;

verus! {

/// The failure taxonomy of the engine.
///
/// `BankNotFound` and `CurrencyNotFound` carry the offending input
/// (lower- respectively upper-cased). `BankParseFail` marks a violated
/// structural assumption about a source document, `CurrencyParseFail` a
/// token that should have been a number but is not. `Http` stands for a
/// transport-level failure reported by the caller that performed the
/// request, and `JsonSerialization` for a failure to encode the final
/// result.
#[derive(Debug, PartialEq, Eq)]
pub enum Error {
    BankNotFound(String),
    CurrencyNotFound(String),
    BankParseFail,
    CurrencyParseFail,
    Http,
    JsonSerialization,
}

} // verus!
