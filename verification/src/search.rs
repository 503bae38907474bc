use vstd::prelude::*;

use crate::text::lower_of;
use crate::tree::NodeId;

verus! {

/// `q` is a subsequence of `n`: the characters of `q` all appear in `n`
/// in the same relative order, not necessarily adjacent.
pub open spec fn is_subsequence_of(q: Seq<char>, n: Seq<char>) -> bool
    decreases n.len(),
{
    if q.len() == 0 {
        true
    } else if n.len() == 0 {
        false
    } else {
        (q.first() == n.first() && is_subsequence_of(q.drop_first(), n.drop_first()))
            || is_subsequence_of(q, n.drop_first())
    }
}

/// A subsequence of a suffix is a subsequence of the whole: prepending a
/// character to the target preserves the relation.
proof fn lemma_subseq_extend_target(q: Seq<char>, n: Seq<char>)
    requires
        n.len() > 0,
        is_subsequence_of(q, n.drop_first()),
    ensures
        is_subsequence_of(q, n),
{
    if q.len() == 0 {
    } else {
        assert(is_subsequence_of(q, n.drop_first()));
    }
}

/// Dropping the first query character preserves the relation: whatever
/// embeds the whole query also embeds its tail.
proof fn lemma_subseq_drop_query_first(q: Seq<char>, n: Seq<char>)
    requires
        q.len() > 0,
        is_subsequence_of(q, n),
    ensures
        is_subsequence_of(q.drop_first(), n),
    decreases n.len(),
{
    if n.len() == 0 {
    } else if q.first() == n.first() && is_subsequence_of(q.drop_first(), n.drop_first()) {
        lemma_subseq_extend_target(q.drop_first(), n);
    } else {
        lemma_subseq_drop_query_first(q, n.drop_first());
        lemma_subseq_extend_target(q.drop_first(), n);
    }
}

/// When the first characters agree, matching them greedily loses nothing:
/// the relation holds iff it holds of both tails.
pub proof fn lemma_subseq_match_first(q: Seq<char>, n: Seq<char>)
    requires
        q.len() > 0,
        n.len() > 0,
        q.first() == n.first(),
    ensures
        is_subsequence_of(q, n) <==> is_subsequence_of(q.drop_first(), n.drop_first()),
{
    if is_subsequence_of(q, n) {
        if !is_subsequence_of(q.drop_first(), n.drop_first()) {
            assert(is_subsequence_of(q, n.drop_first()));
            lemma_subseq_drop_query_first(q, n.drop_first());
        }
    }
}

/// The identifiers of the first `n` nodes whose lowered name contains the
/// lowered query as a subsequence, in storage order.
pub open spec fn match_ids_up_to(q: Seq<char>, names: Seq<Seq<char>>, n: int) -> Seq<NodeId>
    decreases n,
{
    if n <= 0 {
        Seq::empty()
    } else if is_subsequence_of(lower_of(q), lower_of(names[n - 1])) {
        match_ids_up_to(q, names, n - 1).push(NodeId((n - 1) as usize))
    } else {
        match_ids_up_to(q, names, n - 1)
    }
}

/// The identifiers of all nodes whose lowered name contains the lowered
/// query as a subsequence, ascending by storage position.
pub open spec fn match_ids(q: Seq<char>, names: Seq<Seq<char>>) -> Seq<NodeId> {
    match_ids_up_to(q, names, names.len() as int)
}

/// Every identifier the search keeps points below the scanned prefix, so
/// all of them name existing nodes.
pub proof fn lemma_match_ids_bounded(q: Seq<char>, names: Seq<Seq<char>>, n: int)
    requires
        0 <= n <= names.len(),
    ensures
        forall|j: int|
            0 <= j < match_ids_up_to(q, names, n).len()
                ==> (#[trigger] match_ids_up_to(q, names, n)[j]).0 < n,
    decreases n,
{
    if n > 0 {
        lemma_match_ids_bounded(q, names, n - 1);
        let prev = match_ids_up_to(q, names, n - 1);
        let cur = match_ids_up_to(q, names, n);
        if is_subsequence_of(lower_of(q), lower_of(names[n - 1])) {
            assert forall|j: int| 0 <= j < cur.len() implies (#[trigger] cur[j]).0 < n by {
                if j < prev.len() {
                    assert(cur[j] == prev[j]);
                } else {
                    assert(cur[j] == NodeId((n - 1) as usize));
                }
            }
        }
    }
}

} // verus!
