//! The order in which group rows are shown.

use vstd::multiset::Multiset;
use vstd::prelude::*;

verus! {

broadcast use vstd::seq_lib::group_to_multiset_ensures;

/// Rows ordered by size, smallest first.
pub open spec fn sorted_by_size(rows: Seq<(String, u64)>) -> bool {
    forall|i: int, j: int| 0 <= i < j < rows.len() ==> rows[i].1 <= rows[j].1
}

/// The rows reordered by size, smallest first; the same rows, each kept once.
pub fn sort_by_size(rows: Vec<(String, u64)>) -> (r: Vec<(String, u64)>)
    ensures
        sorted_by_size(r@),
        r@.to_multiset() == rows@.to_multiset(),
{
    let mut rest = rows;
    let mut out: Vec<(String, u64)> = Vec::new();
    while rest.len() > 0
        invariant
            sorted_by_size(out@),
            out@.to_multiset().add(rest@.to_multiset()) == rows@.to_multiset(),
        decreases rest@.len(),
    {
        let ghost before = rest@;
        let x = rest.pop().unwrap();
        assert(before == rest@.push(x));
        let mut j: usize = 0;
        while j < out.len() && out[j].1 <= x.1
            invariant
                j <= out@.len(),
                forall|k: int| 0 <= k < j ==> out@[k].1 <= x.1,
            decreases out@.len() - j,
        {
            j = j + 1;
        }
        let ghost old_out = out@;
        out.insert(j, x);
        assert(out@ == old_out.insert(j as int, x));
        assert(sorted_by_size(out@)) by {
            assert forall|a: int, b: int| 0 <= a < b < out@.len() implies out@[a].1 <= out@[b].1 by {
                if j < old_out.len() {
                    assert(old_out[j as int].1 > x.1);
                }
                if a < j && b > j {
                    assert(out@[b] == old_out[b - 1]);
                } else if a == j && b > j {
                    assert(out@[b] == old_out[b - 1]);
                    if b - 1 > j {
                        assert(old_out[j as int].1 <= old_out[b - 1].1);
                    }
                } else if a > j {
                    assert(out@[a] == old_out[a - 1]);
                    assert(out@[b] == old_out[b - 1]);
                }
            }
        }
        assert(out@.to_multiset() == old_out.to_multiset().insert(x));
        assert(before.to_multiset() == rest@.to_multiset().insert(x));
        assert(out@.to_multiset().add(rest@.to_multiset()) =~= old_out.to_multiset().add(
            before.to_multiset(),
        ));
    }
    assert(rest@.to_multiset() =~= Multiset::empty());
    assert(out@.to_multiset().add(rest@.to_multiset()) =~= out@.to_multiset());
    out
}

} // verus!
