use crate::header::index::{insert_position, sorted_by_offset, Index};
use vstd::prelude::*;

verus! {

/// `after` is `before` put in ascending order of offset without changing
/// the order of entries of equal offset: position `j` of `after` holds
/// entry `from[j]` of `before`, and entry `k` of `before` went to `to[k]`.
pub open spec fn stable_sorting<T>(
    before: Seq<Index<T>>,
    after: Seq<Index<T>>,
    from: Seq<int>,
    to: Seq<int>,
) -> bool {
    &&& after.len() == before.len()
    &&& from.len() == before.len()
    &&& to.len() == before.len()
    &&& forall|j: int|
        0 <= j < after.len() ==> 0 <= #[trigger] from[j] < before.len() && after[j] == before[from[j]]
            && to[from[j]] == j
    &&& forall|k: int|
        0 <= k < before.len() ==> 0 <= #[trigger] to[k] < after.len() && from[to[k]] == k
    &&& forall|i: int, j: int|
        0 <= i < j < after.len() ==> (#[trigger] after[i]).offset <= (#[trigger] after[j]).offset
    &&& forall|i: int, j: int|
        0 <= i < j < after.len() && after[i].offset == after[j].offset ==> #[trigger] from[i]
            < #[trigger] from[j]
}

/// Behind the place where an entry is inserted stand only greater offsets,
/// and right before it a smaller or equal one.
pub proof fn lemma_insert_position_split<T>(sorted: Seq<Index<T>>, offset: usize)
    ensures
        0 <= insert_position(sorted, offset) <= sorted.len(),
        forall|j: int|
            insert_position(sorted, offset) <= j < sorted.len() ==> (#[trigger] sorted[j]).offset
                > offset,
        insert_position(sorted, offset) > 0 ==> sorted[insert_position(sorted, offset) - 1].offset
            <= offset,
    decreases sorted.len(),
{
    if sorted.len() > 0 && sorted.last().offset > offset {
        let head = sorted.drop_last();
        lemma_insert_position_split(head, offset);
        let pos = insert_position(head, offset);
        assert forall|j: int| pos <= j < sorted.len() implies (#[trigger] sorted[j]).offset
            > offset by {
            if j < head.len() {
                assert(head[j] == sorted[j]);
            }
        }
        if pos > 0 {
            assert(head[pos - 1] == sorted[pos - 1]);
        }
    }
}

/// The sorted table is a stable sorting of the table, and the proof hands
/// out where each entry came from and went to.
pub proof fn lemma_sorted_is_stable<T>(table: Seq<Index<T>>) -> (w: (Seq<int>, Seq<int>))
    ensures
        stable_sorting(table, sorted_by_offset(table), w.0, w.1),
    decreases table.len(),
{
    if table.len() == 0 {
        (Seq::empty(), Seq::empty())
    } else {
        let n = table.len() as int;
        let init = table.drop_last();
        let x = table.last();
        let (from0, to0) = lemma_sorted_is_stable(init);
        let head = sorted_by_offset(init);
        let pos = insert_position(head, x.offset);
        lemma_insert_position_split(head, x.offset);
        let after = head.insert(pos, x);
        assert(after == sorted_by_offset(table));
        let from = from0.insert(pos, n - 1);
        let to = Seq::new(
            n as nat,
            |k: int|
                if k == n - 1 {
                    pos
                } else if to0[k] < pos {
                    to0[k]
                } else {
                    to0[k] + 1
                },
        );
        // Everything before the place of insertion is not greater than `x`.
        assert forall|j: int| 0 <= j < pos implies (#[trigger] head[j]).offset <= x.offset by {
            if j < pos - 1 {
                assert(head[j].offset <= head[pos - 1].offset);
            }
        }
        assert forall|j: int| 0 <= j < after.len() implies 0 <= #[trigger] from[j] < table.len()
            && after[j] == table[from[j]] && to[from[j]] == j by {
            if j < pos {
                assert(from[j] == from0[j]);
                assert(after[j] == head[j]);
                assert(init[from0[j]] == table[from0[j]]);
            } else if j == pos {
            } else {
                assert(from[j] == from0[j - 1]);
                assert(after[j] == head[j - 1]);
                assert(init[from0[j - 1]] == table[from0[j - 1]]);
            }
        }
        assert forall|k: int| 0 <= k < table.len() implies 0 <= #[trigger] to[k] < after.len()
            && from[to[k]] == k by {
            if k < n - 1 {
                assert(from0[to0[k]] == k);
            }
        }
        assert forall|i: int, j: int| 0 <= i < j < after.len() implies (#[trigger] after[i]).offset
            <= (#[trigger] after[j]).offset by {
            let a = if i < pos {
                i
            } else {
                i - 1
            };
            let b = if j < pos {
                j
            } else {
                j - 1
            };
            if i != pos && j != pos {
                assert(after[i] == head[a]);
                assert(after[j] == head[b]);
                assert(head[a].offset <= head[b].offset);
            } else if i == pos {
                assert(after[j] == head[j - 1]);
            } else {
                assert(after[i] == head[i]);
            }
        }
        assert forall|i: int, j: int|
            0 <= i < j < after.len() && after[i].offset == after[j].offset implies #[trigger] from[i]
                < #[trigger] from[j] by {
            let a = if i < pos {
                i
            } else {
                i - 1
            };
            let b = if j < pos {
                j
            } else {
                j - 1
            };
            if i != pos && j != pos {
                assert(after[i] == head[a]);
                assert(after[j] == head[b]);
                assert(from[i] == from0[a]);
                assert(from[j] == from0[b]);
                assert(from0[a] < from0[b]);
            } else if i == pos {
                assert(after[j] == head[j - 1]);
            } else {
                assert(from[i] == from0[i]);
                assert(0 <= from0[i] < init.len());
            }
        }
        (from, to)
    }
}

} // verus!
