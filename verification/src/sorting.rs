//! Sorting of timed collections by non-decreasing time.

use vstd::prelude::*;

use crate::beatmap::Timed;

verus! {

/// The sequence is ordered by non-decreasing time.
pub open spec fn sorted_by_time<T: Timed>(s: Seq<T>) -> bool {
    forall|a: int, b: int| 0 <= a < b < s.len() ==> #[trigger] s[a].time_of() <= #[trigger] s[b].time_of()
}

/// Sorts the vector by non-decreasing time. The result holds exactly the
/// elements of the input (as a multiset), in sorted order; elements are moved,
/// never changed.
pub fn sort_by_time<T: Timed>(v: &mut Vec<T>)
    ensures
        final(v)@.to_multiset() == old(v)@.to_multiset(),
        final(v)@.len() == old(v)@.len(),
        sorted_by_time(final(v)@),
{
    broadcast use vstd::seq_lib::group_to_multiset_ensures;
    broadcast use vstd::seq_lib::to_multiset_update;
    broadcast use vstd::multiset::group_multiset_axioms;

    let n = v.len();
    if n == 0 {
        return ;
    }
    let mut i: usize = 1;
    while i < n
        invariant
            1 <= i <= n,
            n == v@.len(),
            v@.to_multiset() == old(v)@.to_multiset(),
            sorted_by_time(v@.subrange(0, i as int)),
        decreases n - i,
    {
        proof {
            assert forall|a: int, b: int| 0 <= a < b <= i && b != i implies #[trigger] v@[a].time_of()
                <= #[trigger] v@[b].time_of() by {
                assert(v@.subrange(0, i as int)[a] == v@[a]);
                assert(v@.subrange(0, i as int)[b] == v@[b]);
                assert(v@.subrange(0, i as int)[a].time_of() <= v@.subrange(
                    0,
                    i as int,
                )[b].time_of());
            }
        }
        let mut j: usize = i;
        while j > 0
            invariant
                0 <= j <= i < n,
                n == v@.len(),
                v@.to_multiset() == old(v)@.to_multiset(),
                forall|a: int, b: int|
                    0 <= a < b <= i && b != j ==> #[trigger] v@[a].time_of()
                        <= #[trigger] v@[b].time_of(),
            ensures
                0 <= j <= i < n,
                n == v@.len(),
                v@.to_multiset() == old(v)@.to_multiset(),
                forall|a: int, b: int|
                    0 <= a < b <= i && b != j ==> #[trigger] v@[a].time_of()
                        <= #[trigger] v@[b].time_of(),
                j > 0 ==> v@[j - 1].time_of() <= v@[j as int].time_of(),
            decreases j,
        {
            let prev = v[j - 1].time_val();
            let cur = v[j].time_val();
            if prev <= cur {
                break ;
            }
            let x = v[j - 1];
            let y = v[j];
            let ghost before = v@;
            v.set(j - 1, y);
            v.set(j, x);
            proof {
                let s1 = before.update(j - 1, before[j as int]);
                let s2 = s1.update(j as int, before[j - 1]);
                assert(v@ == s2);
                vstd::seq_lib::to_multiset_update(before, j - 1, before[j as int]);
                vstd::seq_lib::to_multiset_update(s1, j as int, before[j - 1]);
                assert(s1[j as int] == before[j as int]);
                vstd::seq_lib::to_multiset_contains(before, before[j - 1]);
                vstd::seq_lib::to_multiset_contains(before, before[j as int]);
                assert(before.to_multiset().count(before[j - 1]) > 0) by {
                    assert(before.contains(before[j - 1]));
                }
                assert(before.to_multiset().count(before[j as int]) > 0) by {
                    assert(before.contains(before[j as int]));
                }
                assert(s2.to_multiset() =~= before.to_multiset());
            }
            j -= 1;
        }
        proof {
            assert forall|a: int, b: int| 0 <= a < b <= i implies #[trigger] v@[a].time_of()
                <= #[trigger] v@[b].time_of() by {
                if b == j {
                    if j > 0 {
                        assert(v@[j - 1].time_of() <= v@[j as int].time_of());
                    }
                }
            }
            assert(sorted_by_time(v@.subrange(0, i as int + 1)));
        }
        i += 1;
    }
    proof {
        assert(v@.subrange(0, n as int) =~= v@);
    }
}

} // verus!
