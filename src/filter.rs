use vstd::prelude::*;

use crate::level::{allows, LevelFilter};
use crate::record::Metadata;

verus! {

/// A predicate on a record's metadata.
#[derive(Debug)]
pub enum Filter {
    /// Holds always, or never.
    Constant(bool),
    /// Holds when the target is exactly this string.
    TargetIs(String),
    /// Holds when the target differs from this string.
    TargetIsNot(String),
    /// Holds when the target starts with this string.
    TargetStartsWith(String),
    /// Holds when the level is let through by this filter.
    LevelWithin(LevelFilter),
}

/// Whether `p` is a prefix of `s`.
pub open spec fn is_prefix(p: Seq<char>, s: Seq<char>) -> bool {
    p.len() <= s.len() && s.subrange(0, p.len() as int) == p
}

/// Whether a filter holds of a record.
pub open spec fn holds(f: Filter, meta: Metadata) -> bool {
    match f {
        Filter::Constant(b) => b,
        Filter::TargetIs(t) => meta.target@ == t@,
        Filter::TargetIsNot(t) => meta.target@ != t@,
        Filter::TargetStartsWith(p) => is_prefix(p@, meta.target@),
        Filter::LevelWithin(l) => allows(l, meta.level),
    }
}

/// Whether every filter of the list holds of a record.
pub open spec fn all_hold(fs: Seq<Filter>, meta: Metadata) -> bool {
    forall|i: int| 0 <= i < fs.len() ==> #[trigger] holds(fs[i], meta)
}

/// Whether the string `p` is a prefix of the string `s`.
pub fn starts_with(s: &str, p: &str) -> (r: bool)
    ensures
        r == is_prefix(p@, s@),
{
    let n = s.unicode_len();
    let m = p.unicode_len();
    if m > n {
        return false;
    }
    let mut i: usize = 0;
    while i < m
        invariant
            m == p@.len(),
            n == s@.len(),
            m <= n,
            i <= m,
            forall|j: int| 0 <= j < i ==> s@[j] == p@[j],
        decreases m - i,
    {
        if s.get_char(i) != p.get_char(i) {
            assert(s@.subrange(0, m as int)[i as int] != p@[i as int]);
            return false;
        }
        i = i + 1;
    }
    assert(s@.subrange(0, m as int) =~= p@);
    true
}

impl Filter {
    /// Whether this filter holds of the record `meta`.
    pub fn test(&self, meta: &Metadata) -> (r: bool)
        ensures
            r == holds(*self, *meta),
    {
        match self {
            Filter::Constant(b) => *b,
            Filter::TargetIs(t) => meta.target == *t,
            Filter::TargetIsNot(t) => meta.target != *t,
            Filter::TargetStartsWith(p) => starts_with(meta.target.as_str(), p.as_str()),
            Filter::LevelWithin(l) => l.allows(meta.level),
        }
    }
}

/// Tests the filters in order and stops at the first that fails: returns its index, or `None`
/// when all hold. No filter after the first failing one is tested.
pub fn first_rejecting(fs: &Vec<Filter>, meta: &Metadata) -> (r: Option<usize>)
    ensures
        r is None <==> all_hold(fs@, *meta),
        r matches Some(k) ==> k < fs@.len() && !holds(fs@[k as int], *meta) && all_hold(
            fs@.subrange(0, k as int),
            *meta,
        ),
{
    let mut i: usize = 0;
    while i < fs.len()
        invariant
            i <= fs@.len(),
            forall|j: int| 0 <= j < i ==> holds(#[trigger] fs@[j], *meta),
        decreases fs@.len() - i,
    {
        if !fs[i].test(meta) {
            assert(all_hold(fs@.subrange(0, i as int), *meta)) by {
                assert forall|j: int| 0 <= j < i implies #[trigger] holds(fs@.subrange(0, i as int)[j], *meta) by {
                    assert(fs@.subrange(0, i as int)[j] == fs@[j]);
                }
            }
            return Some(i);
        }
        i = i + 1;
    }
    None
}

} // verus!
