//! The reconciliation scan: pair each listed module with the outcome of its
//! own state query, in the order the queries completed.  A module whose
//! query reported "not found" vanished after the snapshot was taken and is
//! dropped silently; any other failure surfaces to the consumer.

use vstd::multiset::Multiset;
use vstd::prelude::*;

use crate::error::Error;
use crate::module::{Module, ModuleRuntimeState};

verus! {

/// A failure the scan does not tolerate: any error but "not found".
pub open spec fn is_hard_failure(r: Result<ModuleRuntimeState, Error>) -> bool {
    r matches Err(e) && !(e is NotFound)
}

/// The pairs the scan yields: one per module whose query succeeded, in
/// completion order.
pub open spec fn scan_yield(results: Seq<(Module, Result<ModuleRuntimeState, Error>)>) -> Seq<
    (Module, ModuleRuntimeState),
>
    decreases results.len(),
{
    if results.len() == 0 {
        Seq::empty()
    } else {
        let p = scan_yield(results.drop_last());
        match results.last().1 {
            Ok(s) => p.push((results.last().0, s)),
            Err(_) => p,
        }
    }
}

pub open spec fn has_hard_failure(results: Seq<(Module, Result<ModuleRuntimeState, Error>)>) -> bool {
    exists|i: int| 0 <= i < results.len() && is_hard_failure(results[i].1)
}

/// The first intolerable failure, in completion order.
pub open spec fn first_hard_failure(results: Seq<(Module, Result<ModuleRuntimeState, Error>)>) -> Error
    decreases results.len(),
{
    if results.len() == 0 {
        arbitrary()
    } else if is_hard_failure(results[0].1) {
        results[0].1->Err_0
    } else {
        first_hard_failure(results.drop_first())
    }
}

proof fn lemma_first_hard_failure(
    results: Seq<(Module, Result<ModuleRuntimeState, Error>)>,
    i: int,
)
    requires
        0 <= i < results.len(),
        forall|j: int| 0 <= j < i ==> !is_hard_failure(#[trigger] results[j].1),
        is_hard_failure(results[i].1),
    ensures
        has_hard_failure(results),
        first_hard_failure(results) == results[i].1->Err_0,
    decreases i,
{
    if i == 0 {
    } else {
        let t = results.drop_first();
        assert(forall|j: int| 0 <= j < t.len() ==> t[j] == results[j + 1]);
        lemma_first_hard_failure(t, i - 1);
        assert(t[i - 1] == results[i]);
    }
}

/// Consume the completed state queries in the order they completed:
/// a succeeded query yields its pair, a "not found" outcome is dropped
/// silently, and the first other failure fails the scan.
#[verifier::loop_isolation(false)]
pub fn list_with_details(
    results: Vec<(Module, Result<ModuleRuntimeState, Error>)>,
) -> (r: Result<Vec<(Module, ModuleRuntimeState)>, Error>)
    ensures
        !has_hard_failure(results@) ==> (r matches Ok(v) && v@ == scan_yield(results@)),
        has_hard_failure(results@) ==> (r matches Err(e) && e == first_hard_failure(results@)),
{
    let ghost orig = results@;
    let mut rest = results;
    let mut out: Vec<(Module, ModuleRuntimeState)> = Vec::new();
    let ghost mut i: int = 0;
    proof {
        assert(rest@ =~= orig.subrange(0, orig.len() as int));
        assert(out@ =~= scan_yield(orig.take(0)));
    }
    while rest.len() > 0
        invariant
            0 <= i <= orig.len(),
            rest@ == orig.subrange(i, orig.len() as int),
            out@ == scan_yield(orig.take(i)),
            forall|j: int| 0 <= j < i ==> !is_hard_failure(#[trigger] orig[j].1),
        decreases rest@.len(),
    {
        let (m, st) = rest.remove(0);
        proof {
            assert(orig.subrange(i, orig.len() as int)[0] == orig[i]);
            assert((m, st) == orig[i]);
            assert(rest@ =~= orig.subrange(i + 1, orig.len() as int));
            assert(orig.take(i + 1).drop_last() =~= orig.take(i));
            assert(orig.take(i + 1).last() == orig[i]);
        }
        match st {
            Ok(s) => {
                out.push((m, s));
                proof {
                    assert(orig[i].1 matches Ok(s0) && s0 == s);
                    assert(out@ =~= scan_yield(orig.take(i + 1)));
                }
            },
            Err(e) => {
                if e.is_not_found() {
                    proof {
                        assert(out@ =~= scan_yield(orig.take(i + 1)));
                    }
                } else {
                    proof {
                        assert(orig[i].1 matches Err(e0) && e0 == e);
                        assert(is_hard_failure(orig[i].1));
                        lemma_first_hard_failure(orig, i);
                        assert(has_hard_failure(orig));
                        assert(first_hard_failure(orig) == e);
                    }
                    return Err(e);
                }
            },
        }
        proof {
            i = i + 1;
        }
    }
    proof {
        assert(i == orig.len());
        assert(orig.take(i) =~= orig);
        assert(!has_hard_failure(orig));
    }
    Ok(out)
}

/// What one completed query contributes to the yielded pairs.
pub open spec fn yield_of(p: (Module, Result<ModuleRuntimeState, Error>)) -> Multiset<
    (Module, ModuleRuntimeState),
> {
    match p.1 {
        Ok(s) => Multiset::singleton((p.0, s)),
        Err(_) => Multiset::empty(),
    }
}

proof fn lemma_scan_yield_remove(results: Seq<(Module, Result<ModuleRuntimeState, Error>)>, i: int)
    requires
        0 <= i < results.len(),
    ensures
        scan_yield(results).to_multiset() == scan_yield(results.remove(i)).to_multiset().add(
            yield_of(results[i]),
        ),
    decreases results.len(),
{
    broadcast use vstd::seq_lib::group_to_multiset_ensures;

    let last = results.last();
    if i == results.len() - 1 {
        assert(results.remove(i) =~= results.drop_last());
        match last.1 {
            Ok(s) => {
                assert(scan_yield(results) == scan_yield(results.drop_last()).push((last.0, s)));
                assert(scan_yield(results).to_multiset() =~= scan_yield(
                    results.drop_last(),
                ).to_multiset().add(yield_of(last)));
            },
            Err(_) => {
                assert(scan_yield(results).to_multiset() =~= scan_yield(
                    results.drop_last(),
                ).to_multiset().add(yield_of(last)));
            },
        }
    } else {
        let t = results.drop_last();
        assert(results.remove(i).drop_last() =~= t.remove(i));
        assert(results.remove(i).last() == last);
        assert(t[i] == results[i]);
        lemma_scan_yield_remove(t, i);
        match last.1 {
            Ok(s) => {
                assert(scan_yield(results) == scan_yield(t).push((last.0, s)));
                assert(scan_yield(results.remove(i)) == scan_yield(t.remove(i)).push((last.0, s)));
                assert(scan_yield(results).to_multiset() =~= scan_yield(
                    results.remove(i),
                ).to_multiset().add(yield_of(results[i])));
            },
            Err(_) => {
                assert(scan_yield(results) == scan_yield(t));
                assert(scan_yield(results.remove(i)) == scan_yield(t.remove(i)));
                assert(scan_yield(results).to_multiset() =~= scan_yield(
                    results.remove(i),
                ).to_multiset().add(yield_of(results[i])));
            },
        }
    }
}

/// Law of the scan: which pairs are yielded does not depend on the order in
/// which the state queries completed.  Two completion orders of the same
/// query outcomes yield the same multiset of module/state pairs.
pub proof fn lemma_scan_yield_order_independent(
    a: Seq<(Module, Result<ModuleRuntimeState, Error>)>,
    b: Seq<(Module, Result<ModuleRuntimeState, Error>)>,
)
    requires
        a.to_multiset() == b.to_multiset(),
    ensures
        scan_yield(a).to_multiset() == scan_yield(b).to_multiset(),
    decreases a.len(),
{
    broadcast use vstd::seq_lib::group_to_multiset_ensures;

    if a.len() == 0 {
        assert(a.to_multiset().len() == 0);
        assert(b.to_multiset().len() == b.len());
        assert(b.len() == 0);
        assert(scan_yield(a).to_multiset() =~= scan_yield(b).to_multiset());
    } else {
        let x = a.last();
        assert(a[a.len() - 1] == x);
        assert(a.contains(x));
        assert(b.to_multiset().count(x) > 0);
        assert(b.contains(x));
        let i = choose|i: int| 0 <= i < b.len() && b[i] == x;
        let a2 = a.drop_last();
        let b2 = b.remove(i);
        assert(a2.to_multiset() =~= a.to_multiset().remove(x)) by {
            assert(a =~= a2.push(x));
            assert(a.to_multiset() =~= a2.to_multiset().insert(x));
        }
        assert(b2.to_multiset() =~= b.to_multiset().remove(x));
        assert(a2.to_multiset() == b2.to_multiset());
        lemma_scan_yield_order_independent(a2, b2);
        lemma_scan_yield_remove(b, i);
        assert(a =~= a2.push(x));
        lemma_scan_yield_remove(a, a.len() - 1);
        assert(a.remove(a.len() - 1) =~= a2);
        assert(scan_yield(a).to_multiset() =~= scan_yield(b).to_multiset());
    }
}

} // verus!
