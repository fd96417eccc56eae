use vstd::prelude::*;

use crate::error::Error;

verus! {

/// Rates are held in fixed point: `raw` counts ten-thousandths, so one
/// unit of a currency is `RATE_SCALE` raw units.
pub const RATE_SCALE: u64 = 10000;

/// One buy or sell quotation, in ten-thousandths of the quote currency.
#[derive(Clone, Copy, Debug, PartialEq, Eq, Structural)]
pub struct RateValue {
    pub raw: u64,
}

impl RateValue {
    /// The rate holding `raw` ten-thousandths.
    pub fn new(raw: u64) -> (r: RateValue)
        ensures
            r.raw == raw,
    {
        RateValue { raw }
    }
}

pub open spec fn is_digit(c: char) -> bool {
    '0' <= c && c <= '9'
}

pub open spec fn digit_val(c: char) -> nat {
    (c as int - '0' as int) as nat
}

pub open spec fn all_digits(s: Seq<char>) -> bool {
    forall|i: int| 0 <= i < s.len() ==> is_digit(#[trigger] s[i])
}

/// The number denoted by a sequence of decimal digits, most significant first.
pub open spec fn digits_val(s: Seq<char>) -> nat
    decreases s.len(),
{
    if s.len() == 0 {
        0
    } else {
        digits_val(s.drop_last()) * 10 + digit_val(s.last())
    }
}

pub open spec fn pow10(n: nat) -> nat
    decreases n,
{
    if n == 0 {
        1
    } else {
        10 * pow10((n - 1) as nat)
    }
}

/// The position of the first `'.'`, or the length when there is none.
pub open spec fn dot_index(s: Seq<char>) -> int {
    match s.index_of_first('.') {
        Some(i) => i,
        None => s.len() as int,
    }
}

pub open spec fn int_part(s: Seq<char>) -> Seq<char> {
    s.take(dot_index(s))
}

pub open spec fn frac_part(s: Seq<char>) -> Seq<char> {
    if dot_index(s) == s.len() {
        Seq::empty()
    } else {
        s.skip(dot_index(s) + 1)
    }
}

/// An unsigned decimal numeral: digits around at most one point, with at
/// least one digit somewhere.
pub open spec fn valid_decimal(s: Seq<char>) -> bool {
    &&& all_digits(int_part(s))
    &&& all_digits(frac_part(s))
    &&& int_part(s).len() + frac_part(s).len() > 0
}

/// The first four fractional digits, padded with zeros to ten-thousandths.
pub open spec fn frac_scaled(f: Seq<char>) -> nat {
    if f.len() >= 4 {
        digits_val(f.take(4))
    } else {
        digits_val(f) * pow10((4 - f.len()) as nat)
    }
}

/// The value of a decimal numeral in ten-thousandths, fractional digits
/// beyond the fourth discarded.
pub open spec fn decimal_value(s: Seq<char>) -> nat {
    digits_val(int_part(s)) * 10000 + frac_scaled(frac_part(s))
}

proof fn lemma_digits_val_take_step(s: Seq<char>, i: int)
    requires
        0 <= i < s.len(),
    ensures
        digits_val(s.take(i + 1)) == digits_val(s.take(i)) * 10 + digit_val(s[i]),
{
    assert(s.take(i + 1).drop_last() =~= s.take(i));
    assert(s.take(i + 1).last() == s[i]);
}

proof fn lemma_digits_val_prefix_le(s: Seq<char>, i: int, j: int)
    requires
        0 <= i <= j <= s.len(),
    ensures
        digits_val(s.take(i)) <= digits_val(s.take(j)),
    decreases j - i,
{
    if i < j {
        lemma_digits_val_prefix_le(s, i, j - 1);
        lemma_digits_val_take_step(s, j - 1);
    }
}

/// Parses an unsigned decimal numeral into a fixed-point rate.
///
/// Succeeds exactly on valid numerals whose scaled value fits in `u64`;
/// fractional digits beyond the fourth are discarded.
pub fn parse_rate(s: &str) -> (r: Result<RateValue, Error>)
    ensures
        match r {
            Ok(v) => valid_decimal(s@) && decimal_value(s@) <= u64::MAX && v.raw
                == decimal_value(s@),
            Err(e) => (!valid_decimal(s@) || decimal_value(s@) > u64::MAX) && e
                == Error::CurrencyParseFail,
        },
{
    let n = s.unicode_len();
    // locate the first '.'
    let mut dot: usize = n;
    let mut i: usize = 0;
    while i < n
        invariant
            n == s@.len(),
            0 <= i <= n,
            dot <= n,
            dot == n ==> forall|j: int| 0 <= j < i ==> s@[j] != '.',
            dot < n ==> s@[dot as int] == '.' && (forall|j: int| 0 <= j < dot ==> s@[j] != '.'),
        decreases n - i,
    {
        if dot == n {
            if s.get_char(i) == '.' {
                dot = i;
            }
        }
        i += 1;
    }
    proof {
        s@.index_of_first_ensures('.');
        if dot == n {
            assert(!s@.contains('.')) by {
                if s@.contains('.') {
                    let k = choose|k: int| 0 <= k < s@.len() && s@[k] == '.';
                    assert(s@[k] != '.');
                }
            }
        } else {
            assert(s@.contains('.')) by {
                assert(s@[dot as int] == '.');
            }
            let idx = s@.index_of_first('.')->Some_0;
            assert(s@[idx] == '.');
            if idx < dot as int {
                assert(s@[idx] != '.');
            } else if (dot as int) < idx {
                assert(s@[dot as int] != '.');
            }
        }
        assert(dot as int == dot_index(s@));
    }
    let frac_len: usize = if dot < n { n - dot - 1 } else { 0 };
    if dot == 0 && frac_len == 0 {
        proof {
            assert(int_part(s@).len() == 0);
            assert(frac_part(s@).len() == 0);
        }
        return Err(Error::CurrencyParseFail);
    }
    // integer part
    let ghost ip = int_part(s@);
    let mut acc: u64 = 0;
    let mut i: usize = 0;
    while i < dot
        invariant
            n == s@.len(),
            dot as int == dot_index(s@),
            dot <= n,
            ip == int_part(s@),
            0 <= i <= dot,
            all_digits(s@.take(i as int)),
            acc == digits_val(s@.take(i as int)),
        decreases dot - i,
    {
        let c = s.get_char(i);
        if !('0' <= c && c <= '9') {
            proof {
                assert(ip[i as int] == s@[i as int]);
                assert(!all_digits(ip));
            }
            return Err(Error::CurrencyParseFail);
        }
        let d: u64 = (c as u8 - 48) as u64;
        proof {
            lemma_digits_val_take_step(s@, i as int);
            assert(d == digit_val(s@[i as int]));
        }
        let step = match acc.checked_mul(10) {
            Some(x) => x.checked_add(d),
            None => None,
        };
        match step {
            Some(x) => {
                acc = x;
            },
            None => {
                proof {
                    assert(digits_val(s@.take(i + 1)) > u64::MAX);
                    lemma_digits_val_prefix_le(s@, i + 1, dot as int);
                    assert(ip =~= s@.take(dot as int));
                    assert(digits_val(ip) > u64::MAX);
                }
                return Err(Error::CurrencyParseFail);
            },
        }
        i += 1;
    }
    proof {
        assert(ip =~= s@.take(dot as int));
        assert(all_digits(ip));
        assert(acc == digits_val(ip));
    }
    // fractional part: check digits, keep the first four
    let ghost fp = frac_part(s@);
    let mut frac: u64 = 0;
    let mut k: usize = 0;
    proof {
        assert(pow10(0) == 1);
        assert(pow10(1) == 10);
        assert(pow10(2) == 100);
        assert(pow10(3) == 1000);
        assert(pow10(4) == 10000);
    }
    while k < frac_len
        invariant
            n == s@.len(),
            dot as int == dot_index(s@),
            dot <= n,
            dot < n ==> frac_len == n - dot - 1,
            dot == n ==> frac_len == 0,
            fp == frac_part(s@),
            fp.len() == frac_len,
            0 <= k <= frac_len,
            all_digits(fp.take(k as int)),
            k < 4 ==> frac == digits_val(fp.take(k as int)) && frac < pow10(k as nat),
            k >= 4 ==> frac == digits_val(fp.take(4)) && frac < 10000,
            pow10(0) == 1 && pow10(1) == 10 && pow10(2) == 100 && pow10(3) == 1000 && pow10(4)
                == 10000,
        decreases frac_len - k,
    {
        let c = s.get_char(dot + 1 + k);
        proof {
            assert(fp[k as int] == s@[dot + 1 + k]);
        }
        if !('0' <= c && c <= '9') {
            proof {
                assert(!all_digits(fp));
            }
            return Err(Error::CurrencyParseFail);
        }
        if k < 4 {
            let d: u64 = (c as u8 - 48) as u64;
            proof {
                lemma_digits_val_take_step(fp, k as int);
                assert(d == digit_val(fp[k as int]));
                assert(pow10((k + 1) as nat) == 10 * pow10(k as nat));
            }
            frac = frac * 10 + d;
        }
        k += 1;
    }
    proof {
        assert(fp =~= fp.take(frac_len as int));
        assert(all_digits(fp));
    }
    // pad with zeros to ten-thousandths
    let pad: usize = if frac_len >= 4 {
        0
    } else {
        4 - frac_len
    };
    proof {
        assert(pow10(0) == 1);
        assert(pow10(1) == 10);
        assert(pow10(2) == 100);
        assert(pow10(3) == 1000);
        assert(pow10(4) == 10000);
        if frac_len >= 4 {
            assert(frac == digits_val(fp.take(4)));
        } else {
            assert(fp.take(fp.len() as int) =~= fp);
            assert(frac == digits_val(fp));
            assert(frac < pow10(frac_len as nat));
        }
        if pad == 4 {
            assert(frac == 0);
        }
    }
    let frac: u64 = if pad == 0 {
        frac
    } else if pad == 1 {
        frac * 10
    } else if pad == 2 {
        frac * 100
    } else if pad == 3 {
        frac * 1000
    } else {
        frac * 10000
    };
    proof {
        assert(frac == frac_scaled(fp));
        assert(frac < 10000);
    }
    match acc.checked_mul(10000) {
        Some(x) => match x.checked_add(frac) {
            Some(raw) => {
                proof {
                    assert(decimal_value(s@) == raw);
                }
                Ok(RateValue { raw })
            },
            None => {
                proof {
                    assert(decimal_value(s@) > u64::MAX);
                }
                Err(Error::CurrencyParseFail)
            },
        },
        None => {
            proof {
                assert(digits_val(ip) * 10000 > u64::MAX);
            }
            Err(Error::CurrencyParseFail)
        },
    }
}

/// The parsed rate, or zero when the token is not a parsable number.
pub fn parse_rate_or_zero(s: &str) -> (r: RateValue)
    ensures
        r.raw == (if valid_decimal(s@) && decimal_value(s@) <= u64::MAX {
            decimal_value(s@)
        } else {
            0
        }),
{
    match parse_rate(s) {
        Ok(v) => v,
        Err(_) => RateValue { raw: 0 },
    }
}

} // verus!
