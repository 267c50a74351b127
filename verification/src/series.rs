//! The two transformations applied to a country's record sequence:
//! filtering out zero-confirmed records and keeping the most recent N.

use vstd::prelude::*;

use crate::record::DailyRecord;
use crate::record::nonzero_confirmed;

verus! {

/// What the filtering stage keeps: exactly the records with a nonzero
/// confirmed count, in their relative order in the input.
pub open spec fn filter_spec(s: Seq<DailyRecord>) -> Seq<DailyRecord> {
    s.filter(|r: DailyRecord| nonzero_confirmed(r))
}

/// Drop every record whose confirmed count is zero, keeping the rest in
/// their input order. This intentionally removes such records wherever
/// they appear, not only in a leading run.
pub fn filter_confirmed(records: &Vec<DailyRecord>) -> (kept: Vec<DailyRecord>)
    ensures
        kept@ == filter_spec(records@),
{
    let mut kept: Vec<DailyRecord> = Vec::new();
    let mut i: usize = 0;
    while i < records.len()
        invariant
            i <= records@.len(),
            kept@ == filter_spec(records@.take(i as int)),
        decreases records@.len() - i,
    {
        proof {
            reveal(Seq::filter);
            assert(records@.take(i as int + 1).drop_last() =~= records@.take(i as int));
            assert(records@.take(i as int + 1).last() == records@[i as int]);
        }
        let r = &records[i];
        if r.confirmed != 0 {
            kept.push(r.clone());
        }
        i = i + 1;
    }
    proof {
        assert(records@.take(records@.len() as int) =~= records@);
    }
    kept
}

/// How many elements the windowing stage keeps from a sequence of length
/// `len` when the most recent `n` were requested: all of them when `n` is
/// zero or at least `len`, and otherwise exactly `n`.
pub open spec fn window_len(len: int, n: int) -> int {
    if n == 0 || n >= len {
        len
    } else {
        n
    }
}

/// The trailing elements the windowing stage keeps: the last
/// `window_len(|s|, n)` elements of `s`, in order.
pub open spec fn window_spec<T>(s: Seq<T>, n: int) -> Seq<T> {
    s.skip(s.len() - window_len(s.len() as int, n))
}

/// Keep the last `n` elements (all of them when `n` is zero or exceeds the
/// length), preserving order. The start of the kept suffix is computed with
/// a clamped subtraction, so a request for more elements than exist returns
/// the whole sequence instead of failing.
pub fn window<T>(items: Vec<T>, n: usize) -> (kept: Vec<T>)
    ensures
        kept@ == window_spec(items@, n as int),
{
    let ghost orig = items@;
    let mut items = items;
    let len: usize = items.len();
    if n == 0 || n >= len {
        proof {
            assert(orig.skip(0) =~= orig);
        }
        items
    } else {
        let kept = items.split_off(len - n);
        proof {
            assert(kept@ =~= orig.skip(orig.len() - n as int));
        }
        kept
    }
}

/// Filter correctness law: the filtered sequence is never longer than its
/// input, every record it holds has a nonzero confirmed count, and every
/// record of the input with a nonzero confirmed count appears in it.
/// (That it holds them in the input's relative order is the `ensures` of
/// `filter_confirmed`: its result is `Seq::filter` of its input.)
pub proof fn lemma_filter_correct(s: Seq<DailyRecord>)
    ensures
        filter_spec(s).len() <= s.len(),
        forall|i: int|
            0 <= i < filter_spec(s).len() ==> nonzero_confirmed(#[trigger] filter_spec(s)[i]),
        forall|i: int|
            0 <= i < s.len() && nonzero_confirmed(s[i]) ==> filter_spec(s).contains(
                #[trigger] s[i],
            ),
{
    broadcast use vstd::seq_lib::group_filter_ensures;
}

/// Idempotence law: filtering an already filtered sequence changes nothing.
pub proof fn lemma_filter_idempotent(s: Seq<DailyRecord>)
    ensures
        filter_spec(filter_spec(s)) == filter_spec(s),
    decreases s.len(),
{
    reveal(Seq::filter);
    if s.len() == 0 {
        assert(filter_spec(s) == Seq::<DailyRecord>::empty());
    } else {
        let t = s.drop_last();
        let l = s.last();
        lemma_filter_idempotent(t);
        if nonzero_confirmed(l) {
            assert(filter_spec(s) == filter_spec(t).push(l));
            assert(filter_spec(t).push(l).drop_last() =~= filter_spec(t));
            assert(filter_spec(filter_spec(s)) == filter_spec(filter_spec(t)).push(l));
        } else {
            assert(filter_spec(s) == filter_spec(t));
        }
    }
}

/// Window clamp law: the window keeps the whole sequence when `n` is zero
/// or at least the length, and exactly `n` elements otherwise; what it
/// keeps is always a contiguous trailing part of the input.
pub proof fn lemma_window_clamp<T>(s: Seq<T>, n: int)
    requires
        n >= 0,
    ensures
        window_spec(s, n).len() == window_len(s.len() as int, n),
        window_len(s.len() as int, n) == if n == 0 || n >= s.len() {
            s.len() as int
        } else {
            n
        },
        window_spec(s, n) == s.skip(s.len() - window_spec(s, n).len()),
{
}

} // verus!
