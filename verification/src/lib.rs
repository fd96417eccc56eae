use vstd::prelude::*;

pub mod ardshinbank;
pub mod conversebank;
mod error;
pub mod evocabank;
pub mod extract;
pub mod fetch;
pub mod idbank;
pub mod inecobank;
pub mod options;
pub mod rate;
pub mod sort;
pub mod text;
pub mod unibank;

pub use error::Error;
pub use rate::{parse_rate, parse_rate_or_zero, RateValue, RATE_SCALE};
pub use text::{eq_ignore_case, lower_seq};

verus! {

/// The four currencies whose rates the engine canonicalizes.
#[derive(Clone, Copy, Debug, PartialEq, Eq, Structural)]
pub enum CurrencyName {
    USD,
    GBP,
    EUR,
    RUB,
}

impl Default for CurrencyName {
    fn default() -> (r: Self)
        ensures
            r == CurrencyName::RUB,
    {
        Self::RUB
    }
}

/// The canonical identifier for a raw currency-code string: matching is
/// case-insensitive and the historical code "RUR" collapses to RUB.
pub open spec fn resolve_code(s: Seq<char>) -> Option<CurrencyName> {
    let l = lower_seq(s);
    if l == "usd"@ {
        Some(CurrencyName::USD)
    } else if l == "rur"@ || l == "rub"@ {
        Some(CurrencyName::RUB)
    } else if l == "gbp"@ {
        Some(CurrencyName::GBP)
    } else if l == "eur"@ {
        Some(CurrencyName::EUR)
    } else {
        None
    }
}

impl CurrencyName {
    /// Resolves a raw currency-code string; an unrecognized code is
    /// reported, as given, in the error.
    pub fn from_str(value: &str) -> (r: Result<CurrencyName, Error>)
        ensures
            match r {
                Ok(c) => resolve_code(value@) == Some(c),
                Err(e) => {
                    &&& resolve_code(value@) is None
                    &&& e matches Error::CurrencyNotFound(u) && u@ == value@
                },
            },
    {
        proof {
            reveal_strlit("usd");
            reveal_strlit("rur");
            reveal_strlit("rub");
            reveal_strlit("gbp");
            reveal_strlit("eur");
            lemma_lower_seq_of_lower("usd"@);
            lemma_lower_seq_of_lower("rur"@);
            lemma_lower_seq_of_lower("rub"@);
            lemma_lower_seq_of_lower("gbp"@);
            lemma_lower_seq_of_lower("eur"@);
        }

        if eq_ignore_case(value, "usd") {
            Ok(CurrencyName::USD)
        } else if eq_ignore_case(value, "rur") || eq_ignore_case(value, "rub") {
            Ok(CurrencyName::RUB)
        } else if eq_ignore_case(value, "gbp") {
            Ok(CurrencyName::GBP)
        } else if eq_ignore_case(value, "eur") {
            Ok(CurrencyName::EUR)
        } else {
            Err(Error::CurrencyNotFound(String::from_str(value)))
        }
    }
}

/// A sequence without ASCII capitals is fixed by lower-casing.
proof fn lemma_lower_seq_of_lower(s: Seq<char>)
    requires
        forall|i: int| 0 <= i < s.len() ==> !('A' <= #[trigger] s[i] && s[i] <= 'Z'),
    ensures
        lower_seq(s) =~= s,
{
}

/// Resolution only looks at the case-folded code.
///
/// Two spellings that agree up to ASCII case resolve to the same
/// identifier (or both fail).
pub proof fn lemma_resolution_case_insensitive(s: Seq<char>, t: Seq<char>)
    requires
        lower_seq(s) == lower_seq(t),
    ensures
        resolve_code(s) == resolve_code(t),
{
}

/// Any spelling of the historical code "RUR" resolves to RUB.
pub proof fn lemma_rur_alias(s: Seq<char>)
    requires
        lower_seq(s) == "rur"@,
    ensures
        resolve_code(s) == Some(CurrencyName::RUB),
{
    reveal_strlit("usd");
    reveal_strlit("rur");
    assert("rur"@[0] != "usd"@[0]);
}

/// One quotation of one currency: either side may be absent when the
/// source does not publish it.
#[derive(Clone, Copy, Debug, PartialEq, Eq)]
pub struct Currency {
    pub name: CurrencyName,
    pub buy: Option<RateValue>,
    pub sell: Option<RateValue>,
}

/// The empty quotation a fresh slot holds.
pub open spec fn empty_currency() -> Currency {
    Currency { name: CurrencyName::RUB, buy: None, sell: None }
}

impl Currency {
    pub fn new(name: CurrencyName, buy: Option<RateValue>, sell: Option<RateValue>) -> (r: Self)
        ensures
            r == (Currency { name, buy, sell }),
    {
        Self { name, buy, sell }
    }

    pub fn buy(&self) -> (r: &Option<RateValue>)
        ensures
            r == self.buy,
    {
        &self.buy
    }

    pub fn sell(&self) -> (r: &Option<RateValue>)
        ensures
            r == self.sell,
    {
        &self.sell
    }
}

impl Default for Currency {
    fn default() -> (r: Self)
        ensures
            r == empty_currency(),
    {
        Self { name: CurrencyName::RUB, buy: None, sell: None }
    }
}

/// The four-slot rate container of one segment of one institution.
#[derive(Clone, Copy, Debug, PartialEq, Eq)]
pub struct CurrencyBody {
    pub usd: Currency,
    pub gbp: Currency,
    pub eur: Currency,
    pub rub: Currency,
}

/// A container whose four slots are all empty.
pub open spec fn empty_body() -> CurrencyBody {
    CurrencyBody {
        usd: empty_currency(),
        gbp: empty_currency(),
        eur: empty_currency(),
        rub: empty_currency(),
    }
}

/// The container after inserting `c`: the slot named by `c` is
/// overwritten, the other three are untouched.
pub open spec fn filled(b: CurrencyBody, c: Currency) -> CurrencyBody {
    match c.name {
        CurrencyName::USD => CurrencyBody { usd: c, ..b },
        CurrencyName::GBP => CurrencyBody { gbp: c, ..b },
        CurrencyName::EUR => CurrencyBody { eur: c, ..b },
        CurrencyName::RUB => CurrencyBody { rub: c, ..b },
    }
}

impl CurrencyBody {
    pub fn get_usd_rate(&self) -> (r: &Currency)
        ensures
            r == self.usd,
    {
        &self.usd
    }

    pub fn get_gbp_rate(&self) -> (r: &Currency)
        ensures
            r == self.gbp,
    {
        &self.gbp
    }

    pub fn get_eur_rate(&self) -> (r: &Currency)
        ensures
            r == self.eur,
    {
        &self.eur
    }

    pub fn get_rub_rate(&self) -> (r: &Currency)
        ensures
            r == self.rub,
    {
        &self.rub
    }

    /// Inserts `currency` into the slot its name selects, overwriting
    /// whatever the slot held.
    pub fn fill_from_currency(&mut self, currency: Currency)
        ensures
            *final(self) == filled(*old(self), currency),
    {
        match currency.name {
            CurrencyName::USD => self.usd = currency,
            CurrencyName::GBP => self.gbp = currency,
            CurrencyName::EUR => self.eur = currency,
            CurrencyName::RUB => self.rub = currency,
        }
    }
}

impl Default for CurrencyBody {
    fn default() -> (r: Self)
        ensures
            r == empty_body(),
    {
        Self {
            usd: Currency::default(),
            gbp: Currency::default(),
            eur: Currency::default(),
            rub: Currency::default(),
        }
    }
}

/// Filling a slot twice keeps only the second value.
pub proof fn lemma_fill_overwrites(b: CurrencyBody, c1: Currency, c2: Currency)
    requires
        c1.name == c2.name,
    ensures
        filled(filled(b, c1), c2) == filled(b, c2),
{
}

/// Filling one slot leaves the other three slots untouched.
pub proof fn lemma_fill_preserves_others(b: CurrencyBody, c: Currency)
    ensures
        c.name != CurrencyName::USD ==> filled(b, c).usd == b.usd,
        c.name != CurrencyName::GBP ==> filled(b, c).gbp == b.gbp,
        c.name != CurrencyName::EUR ==> filled(b, c).eur == b.eur,
        c.name != CurrencyName::RUB ==> filled(b, c).rub == b.rub,
{
}

/// The identity and configuration of one institution.
#[derive(Debug)]
pub struct BankBody {
    pub name: String,
    pub url: String,
}

/// The rate segment a request or sort concerns.
#[derive(Clone, Copy, Debug, PartialEq, Eq, Structural)]
pub enum CurrencyType {
    Cash,
    Noncash,
}

/// One institution adapter; the closed set of known sources.
#[derive(Debug)]
pub enum Bank {
    Ardshinbank(ardshinbank::Ardshinbank),
    Inecobank(inecobank::Inecobank),
    Evocabank(evocabank::Evocabank),
    Idbank(idbank::Idbank),
    Conversebank(conversebank::Conversebank),
    Unibank(unibank::Unibank),
}

impl Bank {
    pub open spec fn spec_name(self) -> Seq<char> {
        match self {
            Bank::Ardshinbank(b) => b.body.name@,
            Bank::Inecobank(b) => b.body.name@,
            Bank::Evocabank(b) => b.body.name@,
            Bank::Idbank(b) => b.body.name@,
            Bank::Conversebank(b) => b.body.name@,
            Bank::Unibank(b) => b.body.name@,
        }
    }

    pub open spec fn spec_url(self) -> Seq<char> {
        match self {
            Bank::Ardshinbank(b) => b.body.url@,
            Bank::Inecobank(b) => b.body.url@,
            Bank::Evocabank(b) => b.body.url@,
            Bank::Idbank(b) => b.body.url@,
            Bank::Conversebank(b) => b.body.url@,
            Bank::Unibank(b) => b.body.url@,
        }
    }

    pub open spec fn spec_cash(self) -> CurrencyBody {
        match self {
            Bank::Ardshinbank(b) => b.cash_currencies,
            Bank::Inecobank(b) => b.cash_currencies,
            Bank::Evocabank(b) => b.cash_currencies,
            Bank::Idbank(b) => b.cash_currencies,
            Bank::Conversebank(b) => b.cash_currencies,
            Bank::Unibank(b) => b.cash_currencies,
        }
    }

    pub open spec fn spec_no_cash(self) -> CurrencyBody {
        match self {
            Bank::Ardshinbank(b) => b.no_cash_currencies,
            Bank::Inecobank(b) => b.no_cash_currencies,
            Bank::Evocabank(b) => b.no_cash_currencies,
            Bank::Idbank(b) => b.no_cash_currencies,
            Bank::Conversebank(b) => b.no_cash_currencies,
            Bank::Unibank(b) => b.no_cash_currencies,
        }
    }

    pub fn get_name(&self) -> (r: &String)
        ensures
            r@ == self.spec_name(),
    {
        match self {
            Bank::Ardshinbank(b) => b.get_name(),
            Bank::Inecobank(b) => b.get_name(),
            Bank::Evocabank(b) => b.get_name(),
            Bank::Idbank(b) => b.get_name(),
            Bank::Conversebank(b) => b.get_name(),
            Bank::Unibank(b) => b.get_name(),
        }
    }

    pub fn get_url(&self) -> (r: &String)
        ensures
            r@ == self.spec_url(),
    {
        match self {
            Bank::Ardshinbank(b) => b.get_url(),
            Bank::Inecobank(b) => b.get_url(),
            Bank::Evocabank(b) => b.get_url(),
            Bank::Idbank(b) => b.get_url(),
            Bank::Conversebank(b) => b.get_url(),
            Bank::Unibank(b) => b.get_url(),
        }
    }

    pub fn cash_currencies(&self) -> (r: &CurrencyBody)
        ensures
            *r == self.spec_cash(),
    {
        match self {
            Bank::Ardshinbank(b) => b.cash_currencies(),
            Bank::Inecobank(b) => b.cash_currencies(),
            Bank::Evocabank(b) => b.cash_currencies(),
            Bank::Idbank(b) => b.cash_currencies(),
            Bank::Conversebank(b) => b.cash_currencies(),
            Bank::Unibank(b) => b.cash_currencies(),
        }
    }

    pub fn no_cash_currencies(&self) -> (r: &CurrencyBody)
        ensures
            *r == self.spec_no_cash(),
    {
        match self {
            Bank::Ardshinbank(b) => b.no_cash_currencies(),
            Bank::Inecobank(b) => b.no_cash_currencies(),
            Bank::Evocabank(b) => b.no_cash_currencies(),
            Bank::Idbank(b) => b.no_cash_currencies(),
            Bank::Conversebank(b) => b.no_cash_currencies(),
            Bank::Unibank(b) => b.no_cash_currencies(),
        }
    }
}

/// Whether a name (case-insensitively) picks one of the known sources.
pub open spec fn known_bank(s: Seq<char>) -> bool {
    ||| lower_seq(s) == "ardshinbank"@
    ||| lower_seq(s) == "conversebank"@
    ||| lower_seq(s) == "evocabank"@
    ||| lower_seq(s) == "idbank"@
    ||| lower_seq(s) == "inecobank"@
    ||| lower_seq(s) == "unibank"@
}

/// Whether `b` is the freshly configured adapter that the name `s`
/// picks.
pub open spec fn is_bank_for(b: Bank, s: Seq<char>) -> bool {
    if lower_seq(s) == "ardshinbank"@ {
        b matches Bank::Ardshinbank(x) && x.is_initial()
    } else if lower_seq(s) == "conversebank"@ {
        b matches Bank::Conversebank(x) && x.is_initial()
    } else if lower_seq(s) == "evocabank"@ {
        b matches Bank::Evocabank(x) && x.is_initial()
    } else if lower_seq(s) == "idbank"@ {
        b matches Bank::Idbank(x) && x.is_initial()
    } else if lower_seq(s) == "inecobank"@ {
        b matches Bank::Inecobank(x) && x.is_initial()
    } else if lower_seq(s) == "unibank"@ {
        b matches Bank::Unibank(x) && x.is_initial()
    } else {
        false
    }
}

/// Resolves an institution name, case-insensitively, to its freshly
/// configured adapter; an unrecognized name is reported, as given, in
/// the error.
pub fn bank_from_str(s: &str) -> (r: Result<Bank, Error>)
    ensures
        match r {
            Ok(b) => known_bank(s@) && is_bank_for(b, s@),
            Err(e) => {
                &&& !known_bank(s@)
                &&& e matches Error::BankNotFound(n) && n@ == s@
            },
        },
{
    proof {
        reveal_strlit("ardshinbank");
        reveal_strlit("conversebank");
        reveal_strlit("evocabank");
        reveal_strlit("idbank");
        reveal_strlit("inecobank");
        reveal_strlit("unibank");
        lemma_lower_seq_of_lower("ardshinbank"@);
        lemma_lower_seq_of_lower("conversebank"@);
        lemma_lower_seq_of_lower("evocabank"@);
        lemma_lower_seq_of_lower("idbank"@);
        lemma_lower_seq_of_lower("inecobank"@);
        lemma_lower_seq_of_lower("unibank"@);
    }
    if eq_ignore_case(s, "ardshinbank") {
        Ok(Bank::Ardshinbank(ardshinbank::Ardshinbank::default()))
    } else if eq_ignore_case(s, "conversebank") {
        Ok(Bank::Conversebank(conversebank::Conversebank::default()))
    } else if eq_ignore_case(s, "evocabank") {
        Ok(Bank::Evocabank(evocabank::Evocabank::default()))
    } else if eq_ignore_case(s, "idbank") {
        Ok(Bank::Idbank(idbank::Idbank::default()))
    } else if eq_ignore_case(s, "inecobank") {
        Ok(Bank::Inecobank(inecobank::Inecobank::default()))
    } else if eq_ignore_case(s, "unibank") {
        Ok(Bank::Unibank(unibank::Unibank::default()))
    } else {
        Err(Error::BankNotFound(String::from_str(s)))
    }
}

/// Every known institution, freshly configured.
pub fn get_bank_vec() -> (r: Vec<Bank>)
    ensures
        r@.len() == 6,
        r@[0] matches Bank::Unibank(x) && x.is_initial(),
        r@[1] matches Bank::Conversebank(x) && x.is_initial(),
        r@[2] matches Bank::Idbank(x) && x.is_initial(),
        r@[3] matches Bank::Evocabank(x) && x.is_initial(),
        r@[4] matches Bank::Inecobank(x) && x.is_initial(),
        r@[5] matches Bank::Ardshinbank(x) && x.is_initial(),
{
    let mut v: Vec<Bank> = Vec::new();
    v.push(Bank::Unibank(unibank::Unibank::default()));
    v.push(Bank::Conversebank(conversebank::Conversebank::default()));
    v.push(Bank::Idbank(idbank::Idbank::default()));
    v.push(Bank::Evocabank(evocabank::Evocabank::default()));
    v.push(Bank::Inecobank(inecobank::Inecobank::default()));
    v.push(Bank::Ardshinbank(ardshinbank::Ardshinbank::default()));
    v
}

/// The names before index `k` all pick known sources.
pub open spec fn all_known(names: Seq<String>, k: int) -> bool {
    forall|j: int| 0 <= j < k ==> known_bank(#[trigger] names[j]@)
}

/// Resolves a list of institution names to adapters, stopping at the
/// first unrecognized name.
pub fn banks_from_names(names: &Vec<String>) -> (r: Result<Vec<Bank>, Error>)
    ensures
        match r {
            Ok(bs) => {
                &&& bs@.len() == names@.len()
                &&& all_known(names@, names@.len() as int)
                &&& forall|i: int|
                    0 <= i < names@.len() ==> is_bank_for(#[trigger] bs@[i], names@[i]@)
            },
            Err(e) => exists|i: int|
                {
                    &&& 0 <= i < names@.len()
                    &&& #[trigger] all_known(names@, i)
                    &&& !known_bank(names@[i]@)
                    &&& e matches Error::BankNotFound(n) && n@ == names@[i]@
                },
        },
{
    let mut banks: Vec<Bank> = Vec::new();
    let mut i: usize = 0;
    while i < names.len()
        invariant
            0 <= i <= names@.len(),
            banks@.len() == i,
            all_known(names@, i as int),
            forall|j: int| 0 <= j < i ==> is_bank_for(#[trigger] banks@[j], names@[j]@),
        decreases names@.len() - i,
    {
        match bank_from_str(names[i].as_str()) {
            Ok(b) => {
                banks.push(b);
            },
            Err(e) => {
                return Err(e);
            },
        }
        i += 1;
    }
    Ok(banks)
}

} // verus!
