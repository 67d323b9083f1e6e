//! Order statistics of a sample: its least and greatest observation and the
//! central ones, from which the caller starts the model.

use vstd::prelude::*;
use vstd::relations::{sorted_by, total_ordering};
use vstd::seq_lib::lemma_sorted_unique;
use crate::error::MhdeError;
use crate::key::{is_number, less_equal};

verus! {

/// The least, the central and the greatest key of a sample.
///
/// The median of the sample is the number behind `lower` where `lower` and
/// `upper` agree, and the mean of the two numbers behind them otherwise; a
/// sample of odd length has `lower == upper`.
#[derive(Clone, Copy, Debug, PartialEq, Eq, Structural)]
pub struct Summary {
    /// The least key.
    pub min: i64,
    /// The key at the lower central position of the ascending sample.
    pub lower: i64,
    /// The key at the upper central position of the ascending sample.
    pub upper: i64,
    /// The greatest key.
    pub max: i64,
}

/// No key is followed by a smaller one.
pub open spec fn ascending(s: Seq<i64>) -> bool {
    forall|i: int, j: int| 0 <= i < j < s.len() ==> s[i] <= s[j]
}

/// The keys of `s` in ascending order.
pub open spec fn sorted(s: Seq<i64>) -> Seq<i64> {
    s.sort_by(|a: i64, b: i64| a <= b)
}

/// The summary of a sample that holds at least one key.
pub open spec fn summary_of(s: Seq<i64>) -> Summary
    recommends
        s.len() > 0,
{
    let t = sorted(s);
    let n = s.len() as int;
    Summary { min: t[0], lower: t[(n - 1) / 2], upper: t[n / 2], max: t[n - 1] }
}

/// `sorted` rearranges: it keeps every key as often as it occurs, and puts
/// them in ascending order.
pub proof fn lemma_sorted_rearranges(s: Seq<i64>)
    ensures
        sorted(s).len() == s.len(),
        sorted(s).to_multiset() == s.to_multiset(),
        ascending(sorted(s)),
{
    let leq = |a: i64, b: i64| a <= b;
    assert(total_ordering(leq));
    s.lemma_sort_by_ensures(leq);
    s.to_multiset_ensures();
    sorted(s).to_multiset_ensures();
    assert(sorted_by(sorted(s), leq));
    assert forall|i: int, j: int| 0 <= i < j < sorted(s).len() implies sorted(s)[i] <= sorted(s)[j] by {
        assert(leq(sorted(s)[i], sorted(s)[j]));
    }
}

/// An ascending rearrangement of `s` is `sorted(s)`: there is only one.
pub proof fn lemma_sorted_is(s: Seq<i64>, t: Seq<i64>)
    requires
        ascending(t),
        t.to_multiset() == s.to_multiset(),
    ensures
        sorted(s) == t,
{
    let leq = |a: i64, b: i64| a <= b;
    assert(total_ordering(leq));
    lemma_sorted_rearranges(s);
    s.lemma_sort_by_ensures(leq);
    assert(sorted_by(t, leq)) by {
        assert forall|i: int, j: int| 0 <= i < j < t.len() implies #[trigger] leq(t[i], t[j]) by {
            assert(t[i] <= t[j]);
        }
    }
    lemma_sorted_unique(sorted(s), t, leq);
}

/// The four keys of a summary stand in order, and those of a sample of odd
/// length have one central key.
pub proof fn lemma_summary_in_order(s: Seq<i64>)
    requires
        s.len() > 0,
    ensures
        summary_of(s).min <= summary_of(s).lower <= summary_of(s).upper <= summary_of(s).max,
        s.len() % 2 == 1 ==> summary_of(s).lower == summary_of(s).upper,
        s.len() % 2 == 0 ==> summary_of(s).lower == sorted(s)[s.len() / 2 - 1],
        forall|i: int|
            0 <= i < s.len() ==> summary_of(s).min <= #[trigger] s[i] && s[i] <= summary_of(s).max,
{
    lemma_sorted_rearranges(s);
    let t = sorted(s);
    assert forall|i: int| 0 <= i < s.len() implies t[0] <= #[trigger] s[i] && s[i] <= t[s.len() - 1] by {
        s.to_multiset_ensures();
        t.to_multiset_ensures();
        assert(s.to_multiset().count(s[i]) > 0);
        assert(t.contains(s[i]));
        let j = choose|j: int| 0 <= j < t.len() && t[j] == s[i];
        assert(t[0] <= t[j] <= t[s.len() - 1]);
    }
}

/// The summary of a sample of numbers stands in the order of the numbers, as
/// IEEE 754 compares them: the least is at most the lower central one, that at
/// most the upper central one, that at most the greatest, and every
/// observation lies between the least and the greatest.
pub proof fn lemma_summary_of_numbers(s: Seq<i64>)
    requires
        s.len() > 0,
        forall|i: int| 0 <= i < s.len() ==> is_number(#[trigger] s[i]),
    ensures
        less_equal(summary_of(s).min, summary_of(s).lower),
        less_equal(summary_of(s).lower, summary_of(s).upper),
        less_equal(summary_of(s).upper, summary_of(s).max),
        forall|i: int|
            0 <= i < s.len() ==> less_equal(summary_of(s).min, #[trigger] s[i]) && less_equal(
                s[i],
                summary_of(s).max,
            ),
{
    lemma_sorted_rearranges(s);
    lemma_summary_in_order(s);
    let t = sorted(s);
    assert forall|j: int| 0 <= j < t.len() implies is_number(#[trigger] t[j]) by {
        s.to_multiset_ensures();
        t.to_multiset_ensures();
        assert(t.to_multiset().count(t[j]) > 0);
        assert(s.contains(t[j]));
    }
    let n = s.len() as int;
    assert(is_number(t[0]) && is_number(t[(n - 1) / 2]) && is_number(t[n / 2]) && is_number(
        t[n - 1],
    ));
}

/// `sort` of std's slices, on a vector of keys. std documents that it sorts the
/// slice in ascending order; the contract reads this as: afterwards the vector
/// holds the keys it held before, each as often as before, and none is followed
/// by a smaller one.
#[verifier::external_body]
fn sort_keys(keys: &mut Vec<i64>)
    ensures
        ascending(final(keys)@),
        final(keys)@.to_multiset() == old(keys)@.to_multiset(),
{
    keys.sort();
}

/// Summarises a sample by order: the least key, the two central keys of the
/// ascending sample, and the greatest key. An empty sample has no summary.
pub fn min_median_max(numbers: &Vec<i64>) -> (r: Result<Summary, MhdeError>)
    ensures
        r is Ok <==> numbers@.len() > 0,
        r matches Ok(s) ==> s == summary_of(numbers@) && s.min <= s.lower <= s.upper <= s.max,
        r matches Err(e) ==> e == MhdeError::InsufficientSample,
{
    let n = numbers.len();
    if n == 0 {
        return Err(MhdeError::InsufficientSample);
    }
    let mut to_sort = numbers.clone();
    sort_keys(&mut to_sort);
    proof {
        lemma_sorted_is(numbers@, to_sort@);
        lemma_sorted_rearranges(numbers@);
        lemma_summary_in_order(numbers@);
    }
    Ok(Summary { min: to_sort[0], lower: to_sort[(n - 1) / 2], upper: to_sort[n / 2], max: to_sort[n - 1] })
}

} // verus!
