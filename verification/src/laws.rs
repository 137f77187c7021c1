//! General laws of the consume operation, stated over the model.
//!
//! `matching` and `remaining` are what a consume call returns and leaves
//! behind; these lemmas relate the two for every collection content `s` and
//! every trimmed pattern `tp`.

use vstd::prelude::*;
use vstd::seq_lib::group_seq_properties;

use crate::collection::lemma_unmatched_all_remain;
use crate::collection::matches_pattern;
use crate::collection::matching;
use crate::collection::remaining;

verus! {

/// A consume call partitions the collection: every record goes either into
/// the returned batch or into what remains, none is duplicated and none is
/// lost.
pub proof fn lemma_consume_partition(s: Seq<Seq<char>>, tp: Seq<char>)
    ensures
        matching(s, tp).len() + remaining(s, tp).len() == s.len(),
        matching(s, tp).to_multiset().add(remaining(s, tp).to_multiset()) =~= s.to_multiset(),
    decreases s.len(),
{
    broadcast use group_seq_properties;

    reveal(Seq::filter);
    if s.len() == 0 {
        assert(matching(s, tp) =~= Seq::<Seq<char>>::empty());
        assert(remaining(s, tp) =~= Seq::<Seq<char>>::empty());
    } else {
        let dl = s.drop_last();
        let x = s.last();
        lemma_consume_partition(dl, tp);
        assert(s =~= dl.push(x));
        assert(s.to_multiset() =~= dl.to_multiset().insert(x));
        if matches_pattern(x, tp) {
            assert(matching(s, tp) == matching(dl, tp).push(x));
            assert(matching(s, tp).to_multiset() =~= matching(dl, tp).to_multiset().insert(x));
        } else {
            assert(remaining(s, tp) == remaining(dl, tp).push(x));
            assert(remaining(s, tp).to_multiset() =~= remaining(dl, tp).to_multiset().insert(x));
        }
    }
}

/// When no record matches, a consume call returns nothing and leaves the
/// collection exactly as it was.
pub proof fn lemma_none_match_leaves_all(s: Seq<Seq<char>>, tp: Seq<char>)
    requires
        forall|i: int| 0 <= i < s.len() ==> !matches_pattern(#[trigger] s[i], tp),
    ensures
        matching(s, tp).len() == 0,
        remaining(s, tp) == s,
    decreases s.len(),
{
    reveal(Seq::filter);
    if s.len() > 0 {
        lemma_none_match_leaves_all(s.drop_last(), tp);
    }
    lemma_unmatched_all_remain(s, tp);
}

/// When every record matches, a consume call drains the collection: the
/// batch is the whole content and nothing remains.
pub proof fn lemma_all_match_drains(s: Seq<Seq<char>>, tp: Seq<char>)
    requires
        forall|i: int| 0 <= i < s.len() ==> matches_pattern(#[trigger] s[i], tp),
    ensures
        matching(s, tp) == s,
        remaining(s, tp).len() == 0,
    decreases s.len(),
{
    reveal(Seq::filter);
    if s.len() > 0 {
        lemma_all_match_drains(s.drop_last(), tp);
        assert(matching(s, tp) =~= s);
    } else {
        assert(matching(s, tp) =~= s);
    }
}

/// The empty pattern matches every record, so consuming with it drains the
/// entire collection.
pub proof fn lemma_empty_pattern_drains(s: Seq<Seq<char>>)
    ensures
        matching(s, Seq::<char>::empty()) == s,
        remaining(s, Seq::<char>::empty()).len() == 0,
{
    assert forall|i: int| 0 <= i < s.len() implies matches_pattern(
        #[trigger] s[i],
        Seq::<char>::empty(),
    ) by {
        assert(crate::text::trim_spec(s[i]).subrange(0, 0) =~= Seq::<char>::empty());
    }
    lemma_all_match_drains(s, Seq::<char>::empty());
}

/// Consuming is idempotent: after a consume call, no remaining record
/// matches the same pattern, so a second call with it returns nothing.
pub proof fn lemma_consume_idempotent(s: Seq<Seq<char>>, tp: Seq<char>)
    ensures
        matching(remaining(s, tp), tp).len() == 0,
        remaining(remaining(s, tp), tp) == remaining(s, tp),
{
    broadcast use vstd::seq_lib::group_filter_ensures;

    let kept = remaining(s, tp);
    assert forall|i: int| 0 <= i < kept.len() implies !matches_pattern(
        #[trigger] kept[i],
        tp,
    ) by {
        assert(kept[i] == remaining(s, tp)[i]);
    }
    lemma_none_match_leaves_all(kept, tp);
}

} // verus!
