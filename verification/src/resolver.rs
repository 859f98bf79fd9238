//! The chain resolution algorithm, stated for chains of any length.
//!
//! A chain instance is modeled as a sequence of step functions over a single
//! value universe `T`: position `i` of the sequence is the migration edge
//! out of version `i + 1` (the last entry being the edge onto the domain
//! type). [`run_total`] and [`run_chain`] run such a chain strictly in
//! ascending order, one hop at a time; the lemmas here pin down the two
//! properties the resolver owes for every chain length: composition is
//! purely sequential, and in fallible mode the first error short-circuits
//! every later step.

use vstd::prelude::*;

verus! {

/// Run a total chain: apply each step in ascending order, starting at `v`.
pub open spec fn run_total<T>(steps: Seq<spec_fn(T) -> T>, v: T) -> T
    decreases steps.len(),
{
    if steps.len() == 0 {
        v
    } else {
        run_total(steps.drop_first(), steps[0](v))
    }
}

/// Run a fallible chain: apply each step in ascending order, starting at
/// `v`; the first error is the result and no later step is applied.
pub open spec fn run_chain<T, E>(steps: Seq<spec_fn(T) -> Result<T, E>>, v: T) -> Result<T, E>
    decreases steps.len(),
{
    if steps.len() == 0 {
        Ok(v)
    } else {
        match steps[0](v) {
            Ok(next) => run_chain(steps.drop_first(), next),
            Err(e) => Err(e),
        }
    }
}

/// Running a total chain composes: running `s1` followed by `s2` is running
/// `s2` on the result of running `s1`.
pub proof fn lemma_run_total_concat<T>(s1: Seq<spec_fn(T) -> T>, s2: Seq<spec_fn(T) -> T>, v: T)
    ensures
        run_total(s1 + s2, v) == run_total(s2, run_total(s1, v)),
    decreases s1.len(),
{
    if s1.len() == 0 {
        assert(s1 + s2 =~= s2);
    } else {
        assert((s1 + s2).drop_first() =~= s1.drop_first() + s2);
        lemma_run_total_concat(s1.drop_first(), s2, s1[0](v));
    }
}

/// Resolving a total chain from position `i` takes the edge at `i` and then
/// resolves from position `i + 1`: no step is skipped or reordered.
pub proof fn lemma_run_total_step<T>(steps: Seq<spec_fn(T) -> T>, i: int, v: T)
    requires
        0 <= i < steps.len(),
    ensures
        run_total(steps.skip(i), v) == run_total(steps.skip(i + 1), steps[i](v)),
{
    assert(steps.skip(i).drop_first() =~= steps.skip(i + 1));
}

/// Running a fallible chain composes: running `s1` followed by `s2` runs
/// `s2` only when `s1` succeeded, and otherwise stops at `s1`'s error.
pub proof fn lemma_run_chain_concat<T, E>(
    s1: Seq<spec_fn(T) -> Result<T, E>>,
    s2: Seq<spec_fn(T) -> Result<T, E>>,
    v: T,
)
    ensures
        run_chain(s1 + s2, v) == (match run_chain(s1, v) {
            Ok(mid) => run_chain(s2, mid),
            Err(e) => Err(e),
        }),
    decreases s1.len(),
{
    if s1.len() == 0 {
        assert(s1 + s2 =~= s2);
    } else {
        assert((s1 + s2).drop_first() =~= s1.drop_first() + s2);
        match s1[0](v) {
            Ok(next) => {
                lemma_run_chain_concat(s1.drop_first(), s2, next);
            },
            Err(_) => {},
        }
    }
}

/// Resolving a fallible chain from position `i` takes the edge at `i` and,
/// only on success, resolves from position `i + 1`.
pub proof fn lemma_run_chain_step<T, E>(steps: Seq<spec_fn(T) -> Result<T, E>>, i: int, v: T)
    requires
        0 <= i < steps.len(),
    ensures
        run_chain(steps.skip(i), v) == (match steps[i](v) {
            Ok(next) => run_chain(steps.skip(i + 1), next),
            Err(e) => Err(e),
        }),
{
    assert(steps.skip(i).drop_first() =~= steps.skip(i + 1));
}

/// Fail-fast: if the steps before position `k` carry `v` to `mid` and the
/// step at `k` fails with `e`, the whole chain fails with `e` — and so does
/// every chain that agrees with this one up to position `k`, whatever its
/// later steps are: no step beyond the failing one can influence the result.
pub proof fn lemma_run_chain_fail_fast<T, E>(
    steps: Seq<spec_fn(T) -> Result<T, E>>,
    v: T,
    k: int,
    mid: T,
    e: E,
)
    requires
        0 <= k < steps.len(),
        run_chain(steps.subrange(0, k), v) == Ok::<T, E>(mid),
        steps[k](mid) == Err::<T, E>(e),
    ensures
        run_chain(steps, v) == Err::<T, E>(e),
        forall|other: Seq<spec_fn(T) -> Result<T, E>>|
            other.len() > k && #[trigger] other.subrange(0, k + 1) == steps.subrange(0, k + 1)
                ==> run_chain(other, v) == Err::<T, E>(e),
{
    lemma_run_chain_stops_at(steps, v, k, mid, e);
    assert forall|other: Seq<spec_fn(T) -> Result<T, E>>|
        other.len() > k && #[trigger] other.subrange(0, k + 1) == steps.subrange(0, k + 1)
            implies run_chain(other, v) == Err::<T, E>(e) by {
        assert(other.subrange(0, k) =~= other.subrange(0, k + 1).subrange(0, k));
        assert(steps.subrange(0, k) =~= steps.subrange(0, k + 1).subrange(0, k));
        assert(other.subrange(0, k) == steps.subrange(0, k));
        assert(other[k] == other.subrange(0, k + 1)[k]);
        assert(steps[k] == steps.subrange(0, k + 1)[k]);
        lemma_run_chain_stops_at(other, v, k, mid, e);
    }
}

/// Helper for [`lemma_run_chain_fail_fast`]: one chain, stated directly.
proof fn lemma_run_chain_stops_at<T, E>(
    steps: Seq<spec_fn(T) -> Result<T, E>>,
    v: T,
    k: int,
    mid: T,
    e: E,
)
    requires
        0 <= k < steps.len(),
        run_chain(steps.subrange(0, k), v) == Ok::<T, E>(mid),
        steps[k](mid) == Err::<T, E>(e),
    ensures
        run_chain(steps, v) == Err::<T, E>(e),
{
    let s1 = steps.subrange(0, k);
    let s2 = steps.skip(k);
    assert(steps =~= s1 + s2);
    lemma_run_chain_concat(s1, s2, v);
    assert(s2[0] == steps[k]);
}

} // verus!
