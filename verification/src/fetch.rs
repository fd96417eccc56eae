use vstd::prelude::*;

use crate::error::Error;
use crate::Bank;

verus! {

/// One HTTP request the caller must perform for an institution: a GET,
/// or a form POST when `post` is set.
#[derive(Debug)]
pub struct HttpRequest {
    pub post: bool,
    pub url: String,
    pub form: Vec<(String, String)>,
}

/// What the caller's transfer of one institution's requests produced:
/// the response bodies, in request order, or a transport-level failure.
#[derive(Debug)]
pub enum FetchOutcome {
    Bodies(Vec<String>),
    TransportFailed,
}

/// A form POST selecting one rate segment.
pub open spec fn is_segment_post(r: HttpRequest, url: Seq<char>, segment: Seq<char>) -> bool {
    &&& r.post
    &&& r.url@ == url
    &&& r.form@.len() == 1
    &&& r.form@[0].0@ == "RATE_TYPE"@
    &&& r.form@[0].1@ == segment
}

/// The requests an institution's fetch performs: one GET of its source
/// URL, except for the source that posts one form per segment.
pub open spec fn describes_requests(b: Bank, rs: Seq<HttpRequest>) -> bool {
    match b {
        Bank::Idbank(x) => {
            &&& rs.len() == 2
            &&& is_segment_post(rs[0], x.body.url@, "CASH"@)
            &&& is_segment_post(rs[1], x.body.url@, "NO_CASH"@)
        },
        _ => {
            &&& rs.len() == 1
            &&& !rs[0].post
            &&& rs[0].url@ == b.spec_url()
            &&& rs[0].form@.len() == 0
        },
    }
}

/// The outcome of one institution's whole parse step, for every fetch
/// outcome: a transport failure leaves it untouched with `Err(Http)`, a
/// body count that does not match its requests is structural, and
/// otherwise its own adapter's parse decides.
pub open spec fn apply_spec(b: Bank, outcome: FetchOutcome) -> (Bank, Result<(), Error>) {
    match outcome {
        FetchOutcome::TransportFailed => (b, Err(Error::Http)),
        FetchOutcome::Bodies(bodies) => if bodies@.len() != b.spec_body_count() {
            (b, Err(Error::BankParseFail))
        } else {
            match b {
                Bank::Ardshinbank(x) => {
                    let (y, r) = crate::ardshinbank::ardshin_apply(x, bodies@[0]@);
                    (Bank::Ardshinbank(y), r)
                },
                Bank::Inecobank(x) => {
                    let (y, r) = crate::inecobank::ineco_apply(x, bodies@[0]@);
                    (Bank::Inecobank(y), r)
                },
                Bank::Evocabank(x) => {
                    let (y, r) = crate::evocabank::evoca_apply(x, bodies@[0]@);
                    (Bank::Evocabank(y), r)
                },
                Bank::Conversebank(x) => {
                    let (y, r) = crate::conversebank::converse_apply(x, bodies@[0]@);
                    (Bank::Conversebank(y), r)
                },
                Bank::Unibank(x) => {
                    let (y, r) = crate::unibank::unibank_apply(x, bodies@[0]@);
                    (Bank::Unibank(y), r)
                },
                Bank::Idbank(x) => {
                    let (y, r) = crate::idbank::idbank_apply(x, bodies@[0]@, bodies@[1]@);
                    (Bank::Idbank(y), r)
                },
            }
        },
    }
}

impl Bank {
    /// How many response bodies this institution's fetch hands back.
    pub open spec fn spec_body_count(self) -> int {
        match self {
            Bank::Idbank(_) => 2,
            _ => 1,
        }
    }

    /// The requests the caller must perform for this institution.
    pub fn requests(&self) -> (rs: Vec<HttpRequest>)
        ensures
            describes_requests(*self, rs@),
            rs@.len() == self.spec_body_count(),
    {
        match self {
            Bank::Idbank(x) => {
                let mut form_cash: Vec<(String, String)> = Vec::new();
                form_cash.push((String::from_str("RATE_TYPE"), String::from_str("CASH")));
                let mut form_no_cash: Vec<(String, String)> = Vec::new();
                form_no_cash.push((String::from_str("RATE_TYPE"), String::from_str("NO_CASH")));
                let mut rs: Vec<HttpRequest> = Vec::new();
                rs.push(HttpRequest { post: true, url: x.get_url().clone(), form: form_cash });
                rs.push(HttpRequest { post: true, url: x.get_url().clone(), form: form_no_cash });
                rs
            },
            _ => {
                let mut rs: Vec<HttpRequest> = Vec::new();
                rs.push(HttpRequest { post: false, url: self.get_url().clone(), form: Vec::new() });
                rs
            },
        }
    }

    /// Parses the fetched response bodies into this institution's rate
    /// containers. A transport failure, or a body count that does not
    /// match the institution's requests, leaves the containers as they
    /// were; a parse failure keeps every fill made before it.
    pub fn apply_responses(&mut self, outcome: &FetchOutcome) -> (r: Result<(), Error>)
        ensures
            final(self).spec_name() == old(self).spec_name(),
            final(self).spec_url() == old(self).spec_url(),
            ({
                let (nb, res) = apply_spec(*old(self), *outcome);
                *final(self) == nb && r == res
            }),
    {
        let bodies = match outcome {
            FetchOutcome::TransportFailed => {
                return Err(Error::Http);
            },
            FetchOutcome::Bodies(bodies) => bodies,
        };
        match self {
            Bank::Ardshinbank(b) => {
                if bodies.len() != 1 {
                    return Err(Error::BankParseFail);
                }
                b.parse_json_body(bodies[0].as_str())
            },
            Bank::Inecobank(b) => {
                if bodies.len() != 1 {
                    return Err(Error::BankParseFail);
                }
                b.parse_json_body(bodies[0].as_str())
            },
            Bank::Evocabank(b) => {
                if bodies.len() != 1 {
                    return Err(Error::BankParseFail);
                }
                match b.parse_cash(bodies[0].as_str()) {
                    Err(e) => Err(e),
                    Ok(_) => b.parse_no_cash(bodies[0].as_str()),
                }
            },
            Bank::Conversebank(b) => {
                if bodies.len() != 1 {
                    return Err(Error::BankParseFail);
                }
                match b.parse_cash(bodies[0].as_str()) {
                    Err(e) => Err(e),
                    Ok(_) => b.parse_no_cash(bodies[0].as_str()),
                }
            },
            Bank::Unibank(b) => {
                if bodies.len() != 1 {
                    return Err(Error::BankParseFail);
                }
                match b.parse_cash(bodies[0].as_str()) {
                    Err(e) => Err(e),
                    Ok(_) => b.parse_no_cash(bodies[0].as_str()),
                }
            },
            Bank::Idbank(b) => {
                if bodies.len() != 2 {
                    return Err(Error::BankParseFail);
                }
                match b.parse_cash(bodies[0].as_str()) {
                    Err(e) => Err(e),
                    Ok(_) => b.parse_no_cash(bodies[1].as_str()),
                }
            },
        }
    }
}

/// Runs every institution's parse step against its own fetch outcome.
///
/// Isolation: each institution's new state and result are exactly its
/// own parse step applied to its own outcome, so no institution's
/// failure aborts or alters its siblings; a transport-failed one is
/// handed back untouched with `Err(Http)`.
pub fn apply_outcomes(banks: &mut Vec<Bank>, outcomes: &Vec<FetchOutcome>) -> (results: Vec<
    Result<(), Error>,
>)
    requires
        old(banks)@.len() == outcomes@.len(),
    ensures
        final(banks)@.len() == old(banks)@.len(),
        results@.len() == old(banks)@.len(),
        forall|i: int|
            0 <= i < old(banks)@.len() ==> ({
                let (nb, res) = apply_spec(old(banks)@[i], outcomes@[i]);
                final(banks)@[i] == nb && #[trigger] results@[i] == res
            }),
{
    let n = banks.len();
    let mut results: Vec<Result<(), Error>> = Vec::new();
    let mut i: usize = 0;
    while i < n
        invariant
            n == banks@.len(),
            n == old(banks)@.len(),
            n == outcomes@.len(),
            0 <= i <= n,
            results@.len() == i,
            forall|k: int| i <= k < n ==> #[trigger] banks@[k] == old(banks)@[k],
            forall|k: int|
                0 <= k < i ==> ({
                    let (nb, res) = apply_spec(old(banks)@[k], outcomes@[k]);
                    banks@[k] == nb && #[trigger] results@[k] == res
                }),
        decreases n - i,
    {
        let bank = &mut banks[i];
        let r = bank.apply_responses(&outcomes[i]);
        results.push(r);
        i += 1;
    }
    results
}

} // verus!
