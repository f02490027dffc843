//! The first element that meets a condition.
use vstd::prelude::*;

verus! {

/// The index of the first element that meets `p`.
pub open spec fn first_where<T>(s: Seq<T>, p: spec_fn(T) -> bool) -> Option<int>
    decreases s.len(),
{
    if s.len() == 0 {
        None
    } else if p(s[0]) {
        Some(0)
    } else {
        match first_where(s.drop_first(), p) {
            Some(i) => Some(i + 1),
            None => None,
        }
    }
}

/// The first element that meets `p`.
pub open spec fn found_where<T>(s: Seq<T>, p: spec_fn(T) -> bool) -> Option<T> {
    match first_where(s, p) {
        Some(i) => Some(s[i]),
        None => None,
    }
}

/// Where the element at `i` meets `p` and none before it does, it is the first.
pub proof fn first_where_found<T>(s: Seq<T>, p: spec_fn(T) -> bool, i: int)
    requires
        0 <= i < s.len(),
        p(s[i]),
        forall|k: int| 0 <= k < i ==> !p(#[trigger] s[k]),
    ensures
        first_where(s, p) == Some(i),
    decreases s.len(),
{
    if i > 0 {
        assert(!p(s[0]));
        let rest = s.drop_first();
        assert forall|k: int| 0 <= k < i - 1 implies !p(#[trigger] rest[k]) by {
            assert(rest[k] == s[k + 1]);
        }
        first_where_found(rest, p, i - 1);
    }
}

/// Where no element meets `p`, there is no first.
pub proof fn first_where_absent<T>(s: Seq<T>, p: spec_fn(T) -> bool)
    requires
        forall|k: int| 0 <= k < s.len() ==> !p(#[trigger] s[k]),
    ensures
        first_where(s, p) == None::<int>,
    decreases s.len(),
{
    if s.len() > 0 {
        assert(!p(s[0]));
        let rest = s.drop_first();
        assert forall|k: int| 0 <= k < rest.len() implies !p(#[trigger] rest[k]) by {
            assert(rest[k] == s[k + 1]);
        }
        first_where_absent(rest, p);
    }
}

/// The index found is that of the first element that meets `p`, and there is one
/// if and only if some element meets `p`.
pub proof fn first_where_is_first<T>(s: Seq<T>, p: spec_fn(T) -> bool)
    ensures
        match first_where(s, p) {
            Some(i) => 0 <= i < s.len() && p(s[i]) && forall|k: int|
                0 <= k < i ==> !p(#[trigger] s[k]),
            None => forall|k: int| 0 <= k < s.len() ==> !p(#[trigger] s[k]),
        },
    decreases s.len(),
{
    if s.len() > 0 && !p(s[0]) {
        let rest = s.drop_first();
        first_where_is_first(rest, p);
        assert forall|k: int| 0 < k < s.len() implies s[k] == rest[k - 1] by {}
    }
}

} // verus!
