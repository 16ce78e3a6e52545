//! Smoothing of the frame clock.
//!
//! The time that a frame took is held against the median of the most recent
//! frame times. A frame that took more than twice the median is a spike, caused
//! by a stall, and the median stands in for it; any other frame time passes
//! unchanged. So a stall does not become one huge step of the simulation.

use vstd::prelude::*;
use vstd::relations::{sorted_by, total_ordering};
use vstd::seq_lib::{
    lemma_sorted_unique, to_multiset_build, to_multiset_contains, to_multiset_insert,
    to_multiset_len,
};

verus! {

/// How many frame times are kept: the current one and the ten before it.
pub const WINDOW: usize = 11;

/// A frame time above this multiple of the median is a spike.
pub const SPIKE_FACTOR: i64 = 2;

/// The order that frame times are sorted by.
pub open spec fn leq() -> spec_fn(i64, i64) -> bool {
    |a: i64, b: i64| a <= b
}

/// No entry of `s` is greater than a later one.
pub open spec fn ascending(s: Seq<i64>) -> bool {
    forall|i: int, j: int| 0 <= i < j < s.len() ==> s[i] <= s[j]
}

/// The entries of `s` in ascending order.
pub open spec fn sorted(s: Seq<i64>) -> Seq<i64> {
    s.sort_by(leq())
}

/// The middle entry of `s` in ascending order; of an even number of entries,
/// the upper one of the middle two.
pub open spec fn median(s: Seq<i64>) -> i64
    recommends
        s.len() > 0,
{
    sorted(s)[s.len() as int / 2]
}

/// The window after `dt` has entered it: `dt` comes last, and only the latest
/// `WINDOW` entries stay.
pub open spec fn pushed(window: Seq<i64>, dt: i64) -> Seq<i64> {
    let all = window.push(dt);
    if all.len() > WINDOW {
        all.subrange(all.len() - WINDOW, all.len() as int)
    } else {
        all
    }
}

/// The time step that the frame time `dt` is smoothed to, given the window
/// before it: the median of the window that `dt` has entered where `dt` is a
/// spike, else `dt` itself.
pub open spec fn smoothed(window: Seq<i64>, dt: i64) -> i64 {
    let m = median(pushed(window, dt));
    if dt > SPIKE_FACTOR * m {
        m
    } else {
        dt
    }
}

/// `sorted(s)` is the one ascending sequence that holds the entries of `s`, each
/// as often as `s` does.
pub proof fn lemma_sorted(s: Seq<i64>)
    ensures
        ascending(sorted(s)),
        sorted(s).to_multiset() == s.to_multiset(),
        sorted(s).len() == s.len(),
        forall|t: Seq<i64>| ascending(t) && t.to_multiset() == s.to_multiset() ==> t == sorted(s),
{
    lemma_leq_is_total();
    s.lemma_sort_by_ensures(leq());
    to_multiset_len(s);
    to_multiset_len(sorted(s));
    let r = sorted(s);
    assert forall|i: int, j: int| 0 <= i < j < r.len() implies r[i] <= r[j] by {
        assert(leq()(r[i], r[j]));
    }
    assert forall|t: Seq<i64>| ascending(t) && t.to_multiset() == s.to_multiset() implies t
        == r by {
        assert(sorted_by(t, leq()));
        lemma_sorted_unique(t, r, leq());
    }
}

proof fn lemma_leq_is_total()
    ensures
        total_ordering(leq()),
{
}

/// The median of a sequence that is not empty is one of its entries.
pub proof fn lemma_median_is_an_entry(s: Seq<i64>)
    requires
        s.len() > 0,
    ensures
        s.contains(median(s)),
{
    lemma_sorted(s);
    let m = median(s);
    assert(sorted(s).contains(m));
    to_multiset_contains(sorted(s), m);
    to_multiset_contains(s, m);
}

/// The smoothed time step is never made up: it is an entry of the window that
/// the frame time has entered.
pub proof fn lemma_smoothed_is_an_entry(window: Seq<i64>, dt: i64)
    ensures
        pushed(window, dt).contains(smoothed(window, dt)),
{
    let w = pushed(window, dt);
    assert(w.last() == dt);
    lemma_median_is_an_entry(w);
}

/// With no history the frame time passes unchanged, whatever it is.
pub proof fn lemma_first_sample_passes(dt: i64)
    ensures
        smoothed(Seq::empty(), dt) == dt,
        pushed(Seq::empty(), dt) == seq![dt],
{
    lemma_median_is_an_entry(pushed(Seq::empty(), dt));
}

/// A steady clock is never taken for a spike: where every entry of the window
/// is `v` and the frame time is `v` again, the smoothed time step is `v`, and
/// every entry of the window is still `v`.
pub proof fn lemma_steady(window: Seq<i64>, v: i64)
    requires
        forall|i: int| 0 <= i < window.len() ==> window[i] == v,
    ensures
        smoothed(window, v) == v,
        forall|i: int| 0 <= i < pushed(window, v).len() ==> pushed(window, v)[i] == v,
{
    let w = pushed(window, v);
    lemma_median_is_an_entry(w);
}

/// The window after every entry of `dts` has entered it, in order.
pub open spec fn fed(window: Seq<i64>, dts: Seq<i64>) -> Seq<i64>
    decreases dts.len(),
{
    if dts.len() == 0 {
        window
    } else {
        pushed(fed(window, dts.drop_last()), dts.last())
    }
}

/// Over a steady stream nothing is ever smoothed away: where every frame time
/// from the first on is `v`, each of them passes as `v`.
pub proof fn lemma_steady_stream(dts: Seq<i64>, v: i64)
    requires
        forall|i: int| 0 <= i < dts.len() ==> dts[i] == v,
    ensures
        forall|k: int|
            0 <= k < dts.len() ==> smoothed(#[trigger] fed(Seq::empty(), dts.take(k)), dts[k]) == v,
{
    assert forall|k: int| 0 <= k < dts.len() implies smoothed(
        #[trigger] fed(Seq::empty(), dts.take(k)),
        dts[k],
    ) == v by {
        lemma_fed_steady(dts.take(k), v);
        lemma_steady(fed(Seq::empty(), dts.take(k)), v);
    }
}

proof fn lemma_fed_steady(dts: Seq<i64>, v: i64)
    requires
        forall|i: int| 0 <= i < dts.len() ==> dts[i] == v,
    ensures
        forall|i: int|
            0 <= i < fed(Seq::empty(), dts).len() ==> fed(Seq::empty(), dts)[i] == v,
    decreases dts.len(),
{
    if dts.len() > 0 {
        lemma_fed_steady(dts.drop_last(), v);
        lemma_steady(fed(Seq::empty(), dts.drop_last()), v);
    }
}

/// A sorted copy of `v`.
pub fn sorted_copy(v: &Vec<i64>) -> (out: Vec<i64>)
    ensures
        out@ == sorted(v@),
{
    let mut out: Vec<i64> = Vec::new();
    let mut i: usize = 0;
    assert(v@.take(0) == out@);
    while i < v.len()
        invariant
            i <= v.len(),
            ascending(out@),
            out@.to_multiset() == v@.take(i as int).to_multiset(),
        decreases v.len() - i,
    {
        let x = v[i];
        let mut j: usize = 0;
        while j < out.len() && out[j] <= x
            invariant
                j <= out.len(),
                forall|k: int| 0 <= k < j ==> out[k] <= x,
            decreases out.len() - j,
        {
            j += 1;
        }
        proof {
            to_multiset_insert(out@, j as int, x);
            to_multiset_build(v@.take(i as int), x);
            assert(v@.take(i as int + 1) == v@.take(i as int).push(x));
        }
        out.insert(j, x);
        i += 1;
    }
    proof {
        assert(v@.take(v.len() as int) == v@);
        lemma_sorted(v@);
    }
    out
}

/// Takes the raw frame time `dt` into the window and returns the time step to
/// simulate: `dt`, or the median of the window where `dt` is a spike.
pub fn calculate_correct_frametime(window: &mut Vec<i64>, dt: i64) -> (step: i64)
    ensures
        final(window)@ == pushed(old(window)@, dt),
        step == smoothed(old(window)@, dt),
        final(window)@.contains(step),
{
    window.push(dt);
    while window.len() > WINDOW
        invariant
            window.len() >= 1,
            window.len() <= old(window).len() + 1,
            window.len() >= WINDOW || window.len() == old(window).len() + 1,
            window@ == old(window)@.push(dt).subrange(
                old(window).len() + 1 - window.len(),
                old(window).len() + 1,
            ),
        decreases window.len(),
    {
        window.remove(0);
    }
    assert(window@ == pushed(old(window)@, dt));
    let ordered = sorted_copy(window);
    proof {
        lemma_sorted(window@);
        lemma_smoothed_is_an_entry(old(window)@, dt);
    }
    let m = ordered[window.len() / 2];
    assert(m == median(window@));
    if dt as i128 > SPIKE_FACTOR as i128 * m as i128 {
        m
    } else {
        dt
    }
}

} // verus!
