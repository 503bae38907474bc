use vstd::arithmetic::div_mod::lemma_mod_add_multiples_vanish;
use vstd::arithmetic::div_mod::lemma_mod_self_0;
use vstd::arithmetic::div_mod::lemma_small_mod;
use vstd::prelude::*;

use crate::input::Key;
use crate::model::advanced_next;
use crate::model::next_index;
use crate::model::recomputed;
use crate::model::step;
use crate::model::Model;

verus! {

/// The model after advancing the match cursor `k` times in a row.
pub open spec fn advanced_next_times(m: Model, k: nat) -> Model
    decreases k,
{
    if k == 0 {
        m
    } else {
        advanced_next(advanced_next_times(m, (k - 1) as nat))
    }
}

/// After `k` forward steps from cursor `i` the cursor stands at
/// `(i + k) % len`, the selection follows it, and nothing else moves.
proof fn lemma_advanced_next_times_cursor(m: Model, i: int, k: nat)
    requires
        m.inv(),
        m.search_results.len() > 0,
        m.search_result_index == Some(i),
        k > 0,
    ensures
        advanced_next_times(m, k) == (Model {
            search_result_index: Some((i + k) % (m.search_results.len() as int)),
            selected: Some(m.search_results[(i + k) % (m.search_results.len() as int)]),
            ..m
        }),
        0 <= (i + k) % (m.search_results.len() as int) < m.search_results.len(),
    decreases k,
{
    let len = m.search_results.len() as int;
    if k == 1 {
        let j = next_index(i, len);
        if i + 1 == len {
            lemma_mod_self_0(len);
        } else {
            lemma_small_mod((i + 1) as nat, len as nat);
        }
        assert(advanced_next_times(m, 1) == advanced_next(m));
        assert(advanced_next(m) == (Model {
            search_result_index: Some(j),
            selected: Some(m.search_results[j]),
            ..m
        }));
    } else {
        lemma_advanced_next_times_cursor(m, i, (k - 1) as nat);
        let a = (i + k - 1) % len;
        let prev = advanced_next_times(m, (k - 1) as nat);
        let j = next_index(a, len);
        assert(advanced_next_times(m, k) == advanced_next(prev));
        assert(advanced_next(prev) == (Model {
            search_result_index: Some(j),
            selected: Some(m.search_results[j]),
            ..m
        }));
        if a + 1 == len {
            lemma_mod_self_0(len);
        } else {
            lemma_small_mod((a + 1) as nat, len as nat);
        }
        assert((a + 1) % len == j);
        lemma_mod_add_multiples_vanish(i + k, len);
        assert((i + k) % len == (a + 1) % len) by {
            lemma_mod_add_multiples_vanish((i + k - 1) % len + 1, len);
            assert((i + k - 1) - a == ((i + k - 1) / len) * len) by (nonlinear_arith)
                requires
                    a == (i + k - 1) % len,
                    len > 0,
            ;
            assert((i + k) % len == (a + 1 + ((i + k - 1) / len) * len) % len);
            lemma_mod_multiples_vanish_helper((i + k - 1) / len, a + 1, len);
        }
    }
}

/// Adding any whole number of full lengths does not move a cursor value
/// modulo the length.
proof fn lemma_mod_multiples_vanish_helper(c: int, x: int, len: int)
    requires
        len > 0,
    ensures
        (x + c * len) % len == x % len,
{
    vstd::arithmetic::div_mod::lemma_mod_multiples_vanish(c, x, len);
    assert(len * c + x == x + c * len) by (nonlinear_arith);
}

/// Cyclic-cursor law: advancing to the next match once per match brings
/// the cursor back to its starting position, for every match list and
/// cursor state of a well-formed model.
pub proof fn lemma_advance_full_cycle(m: Model)
    requires
        m.inv(),
    ensures
        advanced_next_times(
            m,
            m.search_results.len(),
        ).search_result_index == m.search_result_index,
{
    let len = m.search_results.len() as int;
    if len == 0 {
    } else {
        match m.search_result_index {
            Some(i) => {
                lemma_advanced_next_times_cursor(m, i, len as nat);
                lemma_mod_add_multiples_vanish(i, len);
                lemma_small_mod(i as nat, len as nat);
                assert((i + len) % len == i);
            },
            None => {
                lemma_advanced_next_times_none(m, len as nat);
            },
        }
    }
}

/// Empty-query law: recomputing with an empty query always empties the
/// match list and the cursor, whatever the tree holds.
pub proof fn lemma_recompute_empty_query(m: Model)
    requires
        m.search_query.len() == 0,
    ensures
        recomputed(m).search_results.len() == 0,
        recomputed(m).search_result_index is None,
{
}

/// Clearing law: the clear key in normal mode, and Escape while
/// searching, reset all four search fields to their defaults together —
/// never a partial reset.
pub proof fn lemma_clearing_resets_all_fields(m: Model)
    ensures
        !m.search_active ==> ({
            let r = step(m, Key::Char('c'));
            &&& !r.search_active
            &&& r.search_query.len() == 0
            &&& r.search_results.len() == 0
            &&& r.search_result_index is None
        }),
        m.search_active ==> ({
            let r = step(m, Key::Esc);
            &&& !r.search_active
            &&& r.search_query.len() == 0
            &&& r.search_results.len() == 0
            &&& r.search_result_index is None
        }),
{
}

/// Mode-entry law: entering search mode from normal mode keeps the
/// previously computed matches and the widget selection, while the query
/// empties and the cursor resets.
pub proof fn lemma_enter_search_preserves_matches(m: Model)
    requires
        !m.search_active,
    ensures
        step(m, Key::Char('/')).search_active,
        step(m, Key::Char('/')).search_query.len() == 0,
        step(m, Key::Char('/')).search_result_index is None,
        step(m, Key::Char('/')).search_results == m.search_results,
        step(m, Key::Char('/')).selected == m.selected,
{
}

/// Without a cursor, advancing is the identity no matter how often it is
/// applied.
proof fn lemma_advanced_next_times_none(m: Model, k: nat)
    requires
        m.search_result_index is None,
    ensures
        advanced_next_times(m, k) == m,
    decreases k,
{
    if k > 0 {
        lemma_advanced_next_times_none(m, (k - 1) as nat);
    }
}

} // verus!
