//! The single-owner collection and its select-and-remove operation.

use vstd::pervasive::cloned;
use vstd::prelude::*;

use crate::text::trim_spec;
use crate::text::starts_with;
use crate::text::trim;

verus! {

/// The contents of a vector of strings as a sequence of character
/// sequences.
pub open spec fn views_of(s: Seq<String>) -> Seq<Seq<char>> {
    Seq::new(s.len(), |i: int| s[i]@)
}

/// A record matches a pattern when the record's trimmed content starts with
/// the pattern. `tp` is expected to be already trimmed.
pub open spec fn matches_pattern(e: Seq<char>, tp: Seq<char>) -> bool {
    tp.is_prefix_of(trim_spec(e))
}

/// The subsequence of `s` whose records match `tp`, in original order:
/// exactly what a consume call returns.
pub open spec fn matching(s: Seq<Seq<char>>, tp: Seq<char>) -> Seq<Seq<char>> {
    s.filter(|e: Seq<char>| matches_pattern(e, tp))
}

/// The subsequence of `s` whose records do not match `tp`, in original
/// order: exactly what a consume call leaves behind.
pub open spec fn remaining(s: Seq<Seq<char>>, tp: Seq<char>) -> Seq<Seq<char>> {
    s.filter(|e: Seq<char>| !matches_pattern(e, tp))
}

/// Consume content from a data collection.
///
/// A consumer takes out every record that matches the given pattern; the
/// matched records are removed from the collection and handed back as a new
/// one. Each implementation states what consuming means for it through
/// `consume_post`.
pub trait Consumable: Sized {
    type Item;
    type DataType;

    /// Relates the collection before and after a consume call to the
    /// pattern and the returned batch.
    spec fn consume_post(
        pre: Self,
        post: Self,
        pattern: Self::DataType,
        r: Option<Self::Item>,
    ) -> bool;

    /// Remove every record matching `pattern` and return the matched batch,
    /// or `None` when nothing matched.
    fn consume_mut(&mut self, pattern: Self::DataType) -> (r: Option<Self::Item>)
        ensures
            Self::consume_post(*old(self), *final(self), pattern, r),
    ;
}

/// An ordered store of string records with prefix-match extraction.
///
/// Insertion order is preserved and duplicates are allowed. The owner is
/// responsible for synchronization; see `SharedConsumableVec` for a handle
/// that many threads can share.
#[derive(Debug)]
pub struct ConsumableVec {
    data: Vec<String>,
}

impl Clone for ConsumableVec {
    /// A deep copy: an independent collection holding the same records.
    fn clone(&self) -> (r: Self)
        ensures
            r@ == self@,
    {
        let c = ConsumableVec { data: self.data.clone() };
        proof {
            assert forall|i: int| 0 <= i < c.data@.len() implies c.data@[i]@ == self.data@[i]@ by {
                assert(cloned::<String>(self.data@[i], c.data@[i]));
            }
            assert(c@ =~= self@);
        }
        c
    }
}

impl View for ConsumableVec {
    type V = Seq<Seq<char>>;

    closed spec fn view(&self) -> Seq<Seq<char>> {
        views_of(self.data@)
    }
}

impl ConsumableVec {
    /// A collection holding the given records, or an empty one.
    pub fn new(data: Option<Vec<String>>) -> (r: Self)
        ensures
            match data {
                Some(d) => r@ == views_of(d@),
                None => r@ == Seq::<Seq<char>>::empty(),
            },
    {
        let r = ConsumableVec {
            data: match data {
                Some(d) => d,
                None => Vec::new(),
            },
        };
        proof {
            if data is None {
                assert(r@ =~= Seq::<Seq<char>>::empty());
            }
        }
        r
    }

    /// Append one record at the end.
    pub fn add(&mut self, reply: String)
        ensures
            final(self)@ == old(self)@.push(reply@),
    {
        self.data.push(reply);
        proof {
            assert(self@ =~= old(self)@.push(reply@));
        }
    }

    /// Remove all records.
    pub fn clear(&mut self)
        ensures
            final(self)@ == Seq::<Seq<char>>::empty(),
    {
        self.data.clear();
        proof {
            assert(self@ =~= Seq::<Seq<char>>::empty());
        }
    }

    /// Read-only view of the current records.
    pub fn inner(&self) -> (r: &Vec<String>)
        ensures
            views_of(r@) == self@,
    {
        &self.data
    }

    /// Number of records currently held.
    pub fn len(&self) -> (r: usize)
        ensures
            r == self@.len(),
    {
        self.data.len()
    }

    /// Whether no record is currently held.
    pub fn is_empty(&self) -> (r: bool)
        ensures
            r == (self@.len() == 0),
    {
        self.data.is_empty()
    }
}

impl Consumable for ConsumableVec {
    type Item = ConsumableVec;
    type DataType = String;

    /// Consuming with `pattern` removes exactly the records whose trimmed
    /// content starts with the trimmed pattern, keeps the rest in order,
    /// and returns the matched records in order; when nothing matches the
    /// collection is unchanged and the result absent.
    open spec fn consume_post(
        pre: Self,
        post: Self,
        pattern: String,
        r: Option<ConsumableVec>,
    ) -> bool {
        let tp = trim_spec(pattern@);
        &&& post@ == remaining(pre@, tp)
        &&& match r {
            Some(batch) => batch@ == matching(pre@, tp) && batch@.len() > 0,
            None => matching(pre@, tp).len() == 0 && post@ == pre@,
        }
    }

    fn consume_mut(&mut self, pattern: String) -> (r: Option<ConsumableVec>) {
        let ghost s: Seq<Seq<char>> = self@;
        let ghost tp: Seq<char> = trim_spec(pattern@);
        let trimmed_pattern: &str = trim(pattern.as_str());

        let mut val: Vec<String> = Vec::new();
        let mut kept: Vec<String> = Vec::new();
        let n = self.data.len();
        let mut i: usize = 0;
        while i < n
            invariant
                n == s.len(),
                0 <= i <= n,
                *self == *old(self),
                self@ == s,
                n == self.data@.len(),
                tp == trim_spec(pattern@),
                trimmed_pattern@ == tp,
                views_of(val@) =~= matching(s.take(i as int), tp),
                views_of(kept@) =~= remaining(s.take(i as int), tp),
            decreases n - i,
        {
            let e = &self.data[i];
            let trimmed_e: &str = trim(e.as_str());
            proof {
                assert(s.take(i + 1).drop_last() =~= s.take(i as int));
                assert(s.take(i + 1).last() == s[i as int]);
                assert(e@ == s[i as int]);
                reveal(Seq::filter);
            }
            if starts_with(trimmed_e, trimmed_pattern) {
                val.push(e.clone());
                proof {
                    assert(views_of(val@) =~= matching(s.take(i + 1), tp));
                    assert(views_of(kept@) =~= remaining(s.take(i + 1), tp));
                }
            } else {
                kept.push(e.clone());
                proof {
                    assert(views_of(val@) =~= matching(s.take(i + 1), tp));
                    assert(views_of(kept@) =~= remaining(s.take(i + 1), tp));
                }
            }
            i = i + 1;
        }
        proof {
            assert(s.take(n as int) =~= s);
        }
        self.data = kept;
        if val.len() > 0 {
            Some(ConsumableVec { data: val })
        } else {
            proof {
                assert(matching(s, tp).len() == views_of(val@).len());
                lemma_unmatched_all_remain(s, tp);
            }
            None
        }
    }
}

impl Default for ConsumableVec {
    /// An empty collection.
    fn default() -> (r: Self)
        ensures
            r@ == Seq::<Seq<char>>::empty(),
    {
        Self::new(None)
    }
}

/// When no record of `s` matches `tp`, consuming removes nothing: everything
/// remains, in place.
pub proof fn lemma_unmatched_all_remain(s: Seq<Seq<char>>, tp: Seq<char>)
    requires
        matching(s, tp).len() == 0,
    ensures
        remaining(s, tp) == s,
    decreases s.len(),
{
    reveal(Seq::filter);
    if s.len() > 0 {
        if matches_pattern(s.last(), tp) {
            assert(matching(s, tp).len() > 0);
        }
        assert(matching(s.drop_last(), tp).len() == 0);
        lemma_unmatched_all_remain(s.drop_last(), tp);
        assert(remaining(s, tp) =~= s);
    } else {
        assert(remaining(s, tp) =~= s);
    }
}

} // verus!
