//! The rolling window over the ordered trigger history: its count, and the
//! short-circuit backward scan that computes it.

use vstd::prelude::*;

verus! {

/// Timestamps in non-decreasing order, oldest first.
pub open spec fn sorted(s: Seq<u64>) -> bool {
    forall|i: int, j: int| 0 <= i <= j < s.len() ==> s[i] <= s[j]
}

/// Whether a trigger at `t` lies within the trailing window of `window`
/// seconds ending at `now`. The lower edge is exclusive: a trigger exactly
/// `window` seconds old is outside.
pub open spec fn in_window(t: u64, now: u64, window: u64) -> bool {
    t + window > now
}

/// The number of entries of `hist` within the trailing window at `now`.
pub open spec fn window_count(hist: Seq<u64>, now: u64, window: u64) -> nat
    decreases hist.len(),
{
    if hist.len() == 0 {
        0
    } else {
        window_count(hist.drop_last(), now, window) + if in_window(
            hist.last(),
            now,
            window,
        ) {
            1nat
        } else {
            0nat
        }
    }
}

/// The number of entries within the trailing window, written as a plain
/// count of the entries the window predicate admits.
pub open spec fn recent_count(hist: Seq<u64>, now: u64, window: u64) -> nat {
    hist.filter(|t: u64| in_window(t, now, window)).len()
}

/// The window count is exactly the number of entries that the window
/// predicate admits.
pub proof fn lemma_window_count_is_filter(hist: Seq<u64>, now: u64, window: u64)
    ensures
        window_count(hist, now, window) == recent_count(hist, now, window),
    decreases hist.len(),
{
    reveal(Seq::filter);
    if hist.len() > 0 {
        lemma_window_count_is_filter(hist.drop_last(), now, window);
    }
}

/// A history whose entries all lie outside the window counts nothing.
proof fn lemma_window_count_zero(hist: Seq<u64>, now: u64, window: u64)
    requires
        forall|j: int| 0 <= j < hist.len() ==> !in_window(#[trigger] hist[j], now, window),
    ensures
        window_count(hist, now, window) == 0,
    decreases hist.len(),
{
    if hist.len() > 0 {
        assert(forall|j: int|
            0 <= j < hist.drop_last().len() ==> !in_window(
                #[trigger] hist.drop_last()[j],
                now,
                window,
            ));
        lemma_window_count_zero(hist.drop_last(), now, window);
    }
}

/// The rolling count at `now`: how many entries of the ordered history lie
/// within the trailing window, computed by scanning backward from the most
/// recent entry and stopping at the first entry outside the window.
pub fn count_recent(hist: &Vec<u64>, now: u64, window: u64) -> (c: usize)
    requires
        sorted(hist@),
    ensures
        c == window_count(hist@, now, window),
        c <= hist@.len(),
{
    let n: usize = hist.len();
    let mut i: usize = n;
    let mut c: usize = 0;
    proof {
        assert(hist@.take(n as int) =~= hist@);
    }
    loop
        invariant
            sorted(hist@),
            n == hist@.len(),
            i <= n,
            c == n - i,
            window_count(hist@, now, window) == window_count(hist@.take(i as int), now, window)
                + c,
        ensures
            window_count(hist@.take(i as int), now, window) == 0,
        decreases i,
    {
        if i == 0 {
            break ;
        }
        let t: u64 = hist[i - 1];
        if (t as u128) + (window as u128) > (now as u128) {
            proof {
                let pre = hist@.take(i as int);
                assert(pre.drop_last() =~= hist@.take(i as int - 1));
                assert(pre.last() == hist@[i as int - 1]);
                assert(in_window(pre.last(), now, window));
            }
            c = c + 1;
            i = i - 1;
        } else {
            proof {
                let pre = hist@.take(i as int);
                assert(!in_window(hist@[i as int - 1], now, window));
                assert(forall|j: int|
                    0 <= j < pre.len() ==> !in_window(#[trigger] pre[j], now, window)) by {
                    assert(forall|j: int| 0 <= j < i ==> #[trigger] hist@[j] <= hist@[i as int - 1]);
                }
                lemma_window_count_zero(pre, now, window);
            }
            break ;
        }
    }
    proof {
        assert(hist@.take(0) =~= Seq::<u64>::empty());
    }
    c
}

} // verus!
