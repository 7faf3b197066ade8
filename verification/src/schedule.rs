use vstd::prelude::*;
use crate::measure::Measure;
use vstd::multiset::Multiset;

verus! {

/// The order the health checker ranks measures by: ascending latency,
/// ties broken by the lower child index.
pub open spec fn measure_le(a: Measure, b: Measure) -> bool {
    a.latency < b.latency || (a.latency == b.latency && a.index <= b.index)
}

pub open spec fn measures_sorted(s: Seq<Measure>) -> bool {
    forall|i: int, j: int| 0 <= i < j < s.len() ==> measure_le(s[i], s[j])
}

/// The shape the probe loop produces: one measure per child, in child
/// order, so the measure at position `i` carries index `i`.
pub open spec fn indexed_by_position(s: Seq<Measure>) -> bool {
    forall|i: int| 0 <= i < s.len() ==> (#[trigger] s[i]).index == i
}

/// Compares two measures in the ranking order.
fn le(a: &Measure, b: &Measure) -> (r: bool)
    ensures
        r == measure_le(*a, *b),
{
    a.latency < b.latency || (a.latency == b.latency && a.index <= b.index)
}

/// Ranks measures ascending by latency, ties broken by child index: the
/// result holds exactly the measures given, in sorted order.
pub fn sort_measures(v: &Vec<Measure>) -> (r: Vec<Measure>)
    ensures
        r@.to_multiset() == v@.to_multiset(),
        r@.len() == v@.len(),
        measures_sorted(r@),
{
    let mut rest: Vec<Measure> = Vec::new();
    let mut i: usize = 0;
    while i < v.len()
        invariant
            i <= v.len(),
            rest@ == v@.subrange(0, i as int),
        decreases v.len() - i,
    {
        rest.push(v[i]);
        i += 1;
    }
    proof {
        assert(rest@ == v@);
    }
    let ghost full: Seq<Measure> = v@;
    let mut r: Vec<Measure> = Vec::new();
    proof {
        broadcast use vstd::seq_lib::group_to_multiset_ensures;
        broadcast use vstd::multiset::group_multiset_axioms;

        assert forall|x: Measure|
            r@.to_multiset().add(rest@.to_multiset()).count(x) == full.to_multiset().count(
                x,
            ) by {
            assert(!r@.contains(x));
        }
        assert(r@.to_multiset().add(rest@.to_multiset()) =~= full.to_multiset());
    }
    while rest.len() > 0
        invariant
            full.to_multiset() == r@.to_multiset().add(rest@.to_multiset()),
            full.len() == r@.len() + rest@.len(),
            measures_sorted(r@),
            forall|a: int, b: int|
                0 <= a < r@.len() && 0 <= b < rest@.len() ==> measure_le(r@[a], rest@[b]),
        decreases rest.len(),
    {
        let mut min: usize = 0;
        let mut j: usize = 1;
        while j < rest.len()
            invariant
                rest@.len() > 0,
                min < j,
                j <= rest@.len(),
                forall|k: int| 0 <= k < j ==> measure_le(rest@[min as int], rest@[k]),
            decreases rest.len() - j,
        {
            if !le(&rest[min], &rest[j]) {
                min = j;
            }
            j += 1;
        }
        let ghost old_r = r@;
        let ghost old_rest = rest@;
        let m = rest.remove(min);
        r.push(m);
        proof {
            broadcast use vstd::seq_lib::group_to_multiset_ensures;
            broadcast use vstd::multiset::group_multiset_axioms;

            old_rest.remove_ensures(min as int);
            assert(old_rest.contains(m)) by {
                assert(old_rest[min as int] == m);
            }
            assert(old_rest.to_multiset().count(m) > 0);
            assert(rest@.to_multiset() == old_rest.to_multiset().remove(m));
            assert(r@.to_multiset() == old_r.to_multiset().insert(m));
            assert forall|x: Measure|
                r@.to_multiset().add(rest@.to_multiset()).count(x) == old_r.to_multiset().add(
                    old_rest.to_multiset(),
                ).count(x) by {};
            assert(r@.to_multiset().add(rest@.to_multiset()) =~= old_r.to_multiset().add(
                old_rest.to_multiset(),
            ));
            assert forall|a: int, b: int|
                0 <= a < r@.len() && 0 <= b < rest@.len() implies measure_le(r@[a], rest@[b]) by {
                assert(rest@[b] == if b < min as int {
                    old_rest[b]
                } else {
                    old_rest[b + 1]
                });
            }
        }
    }
    proof {
        broadcast use vstd::seq_lib::group_to_multiset_ensures;
        broadcast use vstd::multiset::group_multiset_axioms;

        assert(rest@.to_multiset() =~= Multiset::<Measure>::empty());
        assert(r@.to_multiset() =~= full.to_multiset());
    }
    r
}

/// The identity schedule `[0, 1, …, n-1]` a failover handler starts with,
/// so it is usable before the first probe cycle completes.
pub fn initial_schedule(n: usize) -> (s: Vec<usize>)
    ensures
        s@.len() == n,
        forall|i: int| 0 <= i < n ==> s@[i] == i,
{
    let mut s: Vec<usize> = Vec::new();
    let mut i: usize = 0;
    while i < n
        invariant
            i <= n,
            s@.len() == i,
            forall|k: int| 0 <= k < i ==> s@[k] == k,
        decreases n - i,
    {
        s.push(i);
        i += 1;
    }
    s
}

/// Rewrites the schedule from one probe cycle's measures.  With failover
/// enabled the schedule becomes the full permutation of child indices in
/// ranking order; with it disabled only the best child is scheduled.
pub fn rebuild_schedule(measures: &Vec<Measure>, failover: bool) -> (sched: Vec<usize>)
    requires
        measures@.len() >= 1,
        indexed_by_position(measures@),
    ensures
        forall|k: int| 0 <= k < sched@.len() ==> (#[trigger] sched@[k]) < measures@.len(),
        !failover ==> sched@.len() == 1,
        !failover ==> forall|j: int|
            0 <= j < measures@.len() ==> measure_le(
                measures@[sched@[0] as int],
                #[trigger] measures@[j],
            ),
        failover ==> sched@.len() == measures@.len(),
        failover ==> sched@.no_duplicates(),
        failover ==> forall|i: usize| (i as int) < measures@.len() ==> sched@.contains(i),
        failover ==> forall|k1: int, k2: int|
            0 <= k1 < k2 < sched@.len() ==> measure_le(
                measures@[sched@[k1] as int],
                measures@[sched@[k2] as int],
            ),
{
    let sorted = sort_measures(measures);
    proof {
        broadcast use vstd::seq_lib::group_to_multiset_ensures;
        broadcast use vstd::multiset::group_multiset_axioms;

        assert forall|k: int| 0 <= k < sorted@.len() implies ((#[trigger] sorted@[k]).index
            as int) < measures@.len() && measures@[sorted@[k].index as int] == sorted@[k] by {
            assert(sorted@.contains(sorted@[k]));
            assert(sorted@.to_multiset().count(sorted@[k]) > 0);
            assert(measures@.contains(sorted@[k]));
            let p = choose|p: int| 0 <= p < measures@.len() && measures@[p] == sorted@[k];
            assert(measures@[p].index == p);
        }
        assert forall|x: Measure| measures@.contains(x) implies sorted@.contains(x) by {
            assert(measures@.to_multiset().count(x) > 0);
        }
        assert(measures@.no_duplicates()) by {
            assert forall|i: int, j: int|
                0 <= i < measures@.len() && 0 <= j < measures@.len() && i != j implies measures@[i]
                != measures@[j] by {
                assert(measures@[i].index == i);
                assert(measures@[j].index == j);
            }
        }
        measures@.lemma_multiset_has_no_duplicates();
        sorted@.lemma_multiset_has_no_duplicates_conv();
    }
    let mut sched: Vec<usize> = Vec::new();
    if !failover {
        sched.push(sorted[0].index);
        proof {
            assert forall|k: int| 0 <= k < sched@.len() implies (#[trigger] sched@[k])
                < measures@.len() by {
                assert(k == 0);
                assert(sched@[0] == sorted@[0].index);
            }
            assert(measures@[sched@[0] as int] == sorted@[0]);
            assert forall|j: int| 0 <= j < measures@.len() implies measure_le(
                measures@[sched@[0] as int],
                #[trigger] measures@[j],
            ) by {
                assert(sorted@.contains(measures@[j]));
                let p = choose|p: int|
                    0 <= p < sorted@.len() && sorted@[p] == measures@[j];
                if p > 0 {
                    assert(measure_le(sorted@[0], sorted@[p]));
                }
            }
        }
    } else {
        let mut k: usize = 0;
        while k < sorted.len()
            invariant
                k <= sorted@.len(),
                sched@.len() == k,
                forall|j: int| 0 <= j < k ==> sched@[j] == (#[trigger] sorted@[j]).index,
            decreases sorted.len() - k,
        {
            sched.push(sorted[k].index);
            k += 1;
        }
        proof {
            assert(sched@.no_duplicates()) by {
                assert forall|i: int, j: int|
                    0 <= i < sched@.len() && 0 <= j < sched@.len() && i != j implies sched@[i]
                    != sched@[j] by {
                    if sched@[i] == sched@[j] {
                        assert(measures@[sorted@[i].index as int] == sorted@[i]);
                        assert(measures@[sorted@[j].index as int] == sorted@[j]);
                        assert(sorted@[i] == sorted@[j]);
                    }
                }
            }
            assert forall|k: int| 0 <= k < sched@.len() implies (#[trigger] sched@[k])
                < measures@.len() by {
                assert(sched@[k] == sorted@[k].index);
            }
            assert forall|k1: int, k2: int| 0 <= k1 < k2 < sched@.len() implies measure_le(
                measures@[sched@[k1] as int],
                measures@[sched@[k2] as int],
            ) by {
                assert(sched@[k1] == sorted@[k1].index);
                assert(sched@[k2] == sorted@[k2].index);
                assert(measures@[sorted@[k1].index as int] == sorted@[k1]);
                assert(measures@[sorted@[k2].index as int] == sorted@[k2]);
                assert(measure_le(sorted@[k1], sorted@[k2]));
            }
            assert forall|i: usize| (i as int) < measures@.len() implies sched@.contains(i) by {
                assert(measures@.contains(measures@[i as int]));
                let p = choose|p: int|
                    0 <= p < sorted@.len() && sorted@[p] == measures@[i as int];
                assert(measures@[i as int].index == i as int);
                assert(sched@[p] == i);
            }
        }
    }
    sched
}

} // verus!

