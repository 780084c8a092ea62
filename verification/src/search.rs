//! First positions in sequences.

use vstd::prelude::*;

verus! {

/// The first position of a sequence that a predicate holds at.
pub open spec fn first_position<T>(s: Seq<T>, p: spec_fn(T) -> bool) -> Option<int>
    decreases s.len(),
{
    if s.len() == 0 {
        None
    } else {
        match first_position(s.drop_last(), p) {
            Some(i) => Some(i),
            None => if p(s.last()) {
                Some(s.len() - 1)
            } else {
                None
            },
        }
    }
}

/// The first element of a sequence that a predicate holds of.
pub open spec fn first_match<T>(s: Seq<T>, p: spec_fn(T) -> bool) -> Option<T> {
    match first_position(s, p) {
        Some(i) => Some(s[i]),
        None => None,
    }
}

/// A found position satisfies the predicate and no earlier one does; nothing is found exactly
/// when no element satisfies it.
pub proof fn first_position_facts<T>(s: Seq<T>, p: spec_fn(T) -> bool)
    ensures
        match first_position(s, p) {
            Some(i) => 0 <= i < s.len() && p(s[i]) && (forall|j: int|
                0 <= j < i ==> !p(#[trigger] s[j])),
            None => forall|j: int| 0 <= j < s.len() ==> !p(#[trigger] s[j]),
        },
    decreases s.len(),
{
    if s.len() > 0 {
        first_position_facts(s.drop_last(), p);
        assert forall|j: int| 0 <= j < s.len() - 1 implies s.drop_last()[j] == #[trigger] s[j] by {}
        match first_position(s.drop_last(), p) {
            Some(i) => {
                assert(s.drop_last()[i] == s[i]);
            },
            None => {
                assert forall|j: int| 0 <= j < s.len() - 1 implies !p(#[trigger] s[j]) by {
                    assert(!p(s.drop_last()[j]));
                }
            },
        }
    }
}

/// The position that satisfies a predicate, with none before it, is the first one.
pub proof fn first_position_is<T>(s: Seq<T>, p: spec_fn(T) -> bool, i: int)
    requires
        0 <= i < s.len(),
        p(s[i]),
        forall|j: int| 0 <= j < i ==> !p(#[trigger] s[j]),
    ensures
        first_position(s, p) == Some(i),
{
    first_position_facts(s, p);
    match first_position(s, p) {
        Some(k) => {
            assert(k == i) by {
                if k < i {
                    assert(!p(s[k]));
                } else if i < k {
                    assert(!p(s[i]));
                }
            }
        },
        None => {
            assert(!p(s[i]));
        },
    }
}

/// Where no element satisfies a predicate nothing is found.
pub proof fn first_position_is_none<T>(s: Seq<T>, p: spec_fn(T) -> bool)
    requires
        forall|j: int| 0 <= j < s.len() ==> !p(#[trigger] s[j]),
    ensures
        first_position(s, p) is None,
{
    first_position_facts(s, p);
}

} // verus!
