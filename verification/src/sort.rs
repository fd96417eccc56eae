use vstd::prelude::*;

use crate::{Bank, Currency, CurrencyBody, CurrencyName, CurrencyType};

verus! {

/// The side of a quotation a sort goes by.
#[derive(Clone, Copy, Debug, PartialEq, Eq, Structural)]
pub enum OrderType {
    Buy,
    Sell,
}

/// The key a sort goes by: segment, currency and side.
#[derive(Clone, Copy, Debug, PartialEq, Eq, Structural)]
pub struct SortData {
    pub currency_type: CurrencyType,
    pub currency_name: CurrencyName,
    pub order_type: OrderType,
}

impl SortData {
    pub fn new(currency_type: CurrencyType, currency_name: CurrencyName, order_type: OrderType)
        -> (r: Self)
        ensures
            r == (SortData { currency_type, currency_name, order_type }),
    {
        Self { currency_type, currency_name, order_type }
    }
}

/// The rate container the key's segment selects.
pub open spec fn body_of(b: Bank, t: CurrencyType) -> CurrencyBody {
    match t {
        CurrencyType::Cash => b.spec_cash(),
        CurrencyType::Noncash => b.spec_no_cash(),
    }
}

/// The rate an institution offers under a sort key; an absent rate
/// counts as zero, so an institution that does not publish one sorts
/// last.
pub open spec fn key_of(b: Bank, sd: SortData) -> u64 {
    let body = body_of(b, sd.currency_type);
    let cur = match sd.currency_name {
        CurrencyName::USD => body.usd,
        CurrencyName::GBP => body.gbp,
        CurrencyName::EUR => body.eur,
        CurrencyName::RUB => body.rub,
    };
    let side = match sd.order_type {
        OrderType::Buy => cur.buy,
        OrderType::Sell => cur.sell,
    };
    match side {
        Some(v) => v.raw,
        None => 0,
    }
}

/// Descending by the selected rate, highest first.
pub open spec fn sorted_desc(s: Seq<Bank>, sd: SortData) -> bool {
    forall|i: int, j: int|
        0 <= i <= j < s.len() ==> key_of(#[trigger] s[i], sd) >= key_of(#[trigger] s[j], sd)
}

/// The index, among the first `n` institutions, of the leftmost one
/// carrying the highest selected rate.
pub open spec fn leftmost_max_upto(s: Seq<Bank>, sd: SortData, n: int) -> int
    decreases n,
{
    if n <= 1 {
        0
    } else {
        let p = leftmost_max_upto(s, sd, n - 1);
        if key_of(s[n - 1], sd) > key_of(s[p], sd) {
            n - 1
        } else {
            p
        }
    }
}

proof fn lemma_leftmost_max_bounds(s: Seq<Bank>, sd: SortData, n: int)
    requires
        1 <= n,
    ensures
        0 <= leftmost_max_upto(s, sd, n) < n,
    decreases n,
{
    if n > 1 {
        lemma_leftmost_max_bounds(s, sd, n - 1);
    }
}

/// The stable descending sort: the leftmost institution with the highest
/// key is taken first, so institutions with equal keys keep their
/// relative input order; no other tiebreak is applied.
pub open spec fn stable_sort_spec(s: Seq<Bank>, sd: SortData) -> Seq<Bank>
    decreases s.len(),
    via stable_sort_spec_decreases
{
    if s.len() == 0 {
        Seq::empty()
    } else {
        let m = leftmost_max_upto(s, sd, s.len() as int);
        seq![s[m]] + stable_sort_spec(s.remove(m), sd)
    }
}

#[via_fn]
proof fn stable_sort_spec_decreases(s: Seq<Bank>, sd: SortData) {
    if s.len() > 0 {
        lemma_leftmost_max_bounds(s, sd, s.len() as int);
    }
}

/// The comparator is format-agnostic: two institutions holding the same
/// canonicalized rate container for the key's segment compare alike,
/// whatever source format each was populated from.
pub proof fn lemma_sort_key_format_agnostic(a: Bank, b: Bank, sd: SortData)
    requires
        body_of(a, sd.currency_type) == body_of(b, sd.currency_type),
    ensures
        key_of(a, sd) == key_of(b, sd),
{
}

/// The selected rate of one institution, as the comparator reads it.
pub fn rate_key(b: &Bank, sort_data: &SortData) -> (r: u64)
    ensures
        r == key_of(*b, *sort_data),
{
    let body: &CurrencyBody = match sort_data.currency_type {
        CurrencyType::Cash => b.cash_currencies(),
        CurrencyType::Noncash => b.no_cash_currencies(),
    };
    let cur: &Currency = match sort_data.currency_name {
        CurrencyName::USD => body.get_usd_rate(),
        CurrencyName::GBP => body.get_gbp_rate(),
        CurrencyName::EUR => body.get_eur_rate(),
        CurrencyName::RUB => body.get_rub_rate(),
    };
    let side = match sort_data.order_type {
        OrderType::Buy => cur.buy(),
        OrderType::Sell => cur.sell(),
    };
    match side {
        Some(v) => v.raw,
        None => 0,
    }
}

/// Sorts the institutions descending by the selected rate: the result is
/// the stable descending sort of the input — a permutation ordered
/// highest first in which equal keys keep their input order, and
/// institutions without the selected rate (key zero) end up last.
pub fn sort_banks(banks: &mut Vec<Bank>, sort_data: &SortData)
    ensures
        final(banks)@ == stable_sort_spec(old(banks)@, *sort_data),
        final(banks)@.len() == old(banks)@.len(),
        final(banks)@.to_multiset() == old(banks)@.to_multiset(),
        sorted_desc(final(banks)@, *sort_data),
{
    let ghost sd = *sort_data;
    let ghost orig = banks@;
    let mut out: Vec<Bank> = Vec::new();
    proof {
        out@.to_multiset_ensures();
        vstd::multiset::lemma_multiset_empty_len(out@.to_multiset());
        assert(out@.to_multiset().add(banks@.to_multiset()) =~= orig.to_multiset());
        assert(out@ + stable_sort_spec(banks@, sd) =~= stable_sort_spec(orig, sd));
    }
    while banks.len() > 0
        invariant
            sd == *sort_data,
            out@.to_multiset().add(banks@.to_multiset()) == orig.to_multiset(),
            out@.len() + banks@.len() == orig.len(),
            stable_sort_spec(orig, sd) == out@ + stable_sort_spec(banks@, sd),
            sorted_desc(out@, sd),
            forall|a: int, b: int|
                0 <= a < out@.len() && 0 <= b < banks@.len() ==> key_of(#[trigger] out@[a], sd)
                    >= key_of(#[trigger] banks@[b], sd),
        decreases banks@.len(),
    {
        // the leftmost institution with the highest key
        let mut best: usize = 0;
        let mut q: usize = 1;
        while q < banks.len()
            invariant
                banks@.len() > 0,
                0 <= best < q <= banks@.len(),
                sd == *sort_data,
                best == leftmost_max_upto(banks@, sd, q as int),
                forall|t: int|
                    0 <= t < q ==> key_of(banks@[best as int], sd) >= key_of(
                        #[trigger] banks@[t],
                        sd,
                    ),
            decreases banks@.len() - q,
        {
            if rate_key(&banks[q], sort_data) > rate_key(&banks[best], sort_data) {
                best = q;
            }
            q += 1;
        }
        let ghost pre = banks@;
        let ghost x = banks@[best as int];
        proof {
            pre.to_multiset_ensures();
            assert(pre.contains(x));
            assert(pre.to_multiset().count(x) > 0);
            lemma_leftmost_max_bounds(pre, sd, pre.len() as int);
            assert(best == leftmost_max_upto(pre, sd, pre.len() as int));
            assert(stable_sort_spec(pre, sd) == seq![x] + stable_sort_spec(pre.remove(best as int), sd));
        }
        let b = banks.remove(best);
        let ghost old_out = out@;
        out.push(b);
        proof {
            old_out.to_multiset_ensures();
            assert(out@ == old_out.push(x));
            assert(out@.to_multiset() =~= old_out.to_multiset().insert(x));
            assert(banks@.to_multiset() =~= pre.to_multiset().remove(x));
            assert(out@.to_multiset().add(banks@.to_multiset()) =~= old_out.to_multiset().add(
                pre.to_multiset(),
            ));
            assert(out@ =~= old_out + seq![x]);
            assert((old_out + seq![x]) + stable_sort_spec(banks@, sd) =~= old_out + (seq![x]
                + stable_sort_spec(banks@, sd)));
            assert(stable_sort_spec(orig, sd) == out@ + stable_sort_spec(banks@, sd));
            pre.remove_ensures(best as int);
            assert forall|bb: int| 0 <= bb < banks@.len() implies key_of(
                out@[out@.len() - 1],
                sd,
            ) >= key_of(#[trigger] banks@[bb], sd) by {
                if bb < best {
                    assert(banks@[bb] == pre[bb]);
                } else {
                    assert(banks@[bb] == pre[bb + 1]);
                }
            }
        }
    }
    proof {
        banks@.to_multiset_ensures();
        vstd::multiset::lemma_multiset_empty_len(banks@.to_multiset());
        assert(out@.to_multiset() =~= orig.to_multiset());
        assert(out@ + stable_sort_spec(banks@, sd) =~= out@);
    }
    *banks = out;
}

} // verus!
