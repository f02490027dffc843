//! Sorting by a name.
use crate::text::{is_before, precedes};
use vstd::multiset::Multiset;
use vstd::prelude::*;
use vstd::string::*;

verus! {

/// A thing that lists are sorted by the name of.
pub trait Named {
    /// The name.
    spec fn sort_key(self) -> Seq<char>;

    /// The name.
    fn sort_name<'a>(&'a self) -> (r: &'a str)
        ensures
            r@ == self.sort_key(),
    ;
}

/// The sorted list `s` with `x` put in its place, behind all that do not come
/// after it.
pub open spec fn put_in_order<T: Named>(s: Seq<T>, x: T) -> Seq<T>
    decreases s.len(),
{
    if s.len() > 0 && precedes(x.sort_key(), s.last().sort_key()) {
        put_in_order(s.drop_last(), x).push(s.last())
    } else {
        s.push(x)
    }
}

/// `s` sorted by name. Of two with the same name, the one that came first stays
/// first.
pub open spec fn in_order<T: Named>(s: Seq<T>) -> Seq<T>
    decreases s.len(),
{
    if s.len() == 0 {
        s
    } else {
        put_in_order(in_order(s.drop_last()), s.last())
    }
}

/// Puts `x` in its place in the sorted list `s`.
fn insert_in_order<'a, T: Named>(s: &mut Vec<&'a T>, x: &'a T)
    ensures
        refs(final(s)@) == put_in_order(refs(old(s)@), *x),
{
    let ghost all = refs(s@);
    let mut i: usize = s.len();
    assert(all.take(i as int) =~= all);
    assert(put_in_order(all.take(i as int), *x) + all.skip(i as int) =~= put_in_order(all, *x));
    while i > 0 && is_before(x.sort_name(), s[i - 1].sort_name())
        invariant
            i <= s.len(),
            all == refs(s@),
            s@ == old(s)@,
            put_in_order(all.take(i as int), *x) + all.skip(i as int) == put_in_order(all, *x),
        decreases i,
    {
        let ghost part = all.take(i as int);
        assert(part.drop_last() =~= all.take(i - 1));
        assert(part.last() == all[i - 1]);
        assert(put_in_order(part, *x) == put_in_order(all.take(i - 1), *x).push(all[i - 1]));
        assert(put_in_order(all.take(i - 1), *x).push(all[i - 1]) + all.skip(i as int)
            =~= put_in_order(all.take(i - 1), *x) + all.skip(i - 1));
        i = i - 1;
    }
    let ghost part = all.take(i as int);
    assert(i > 0 ==> part.last() == all[i - 1]);
    assert(put_in_order(part, *x) == part.push(*x));
    s.insert(i, x);
    assert(refs(s@) =~= part.push(*x) + all.skip(i as int));
}

/// What a list of references refers to.
pub open spec fn refs<T>(s: Seq<&T>) -> Seq<T> {
    Seq::new(s.len(), |i: int| *s[i])
}

/// References to all of `v`.
pub fn references_to<'a, T>(v: &'a Vec<T>) -> (r: Vec<&'a T>)
    ensures
        refs(r@) == v@,
{
    let mut r: Vec<&'a T> = Vec::new();
    let mut i: usize = 0;
    while i < v.len()
        invariant
            i <= v.len(),
            r.len() == i,
            forall|k: int| 0 <= k < i ==> *(#[trigger] r@[k]) == v@[k],
        decreases v.len() - i,
    {
        r.push(&v[i]);
        i = i + 1;
    }
    assert(refs(r@) =~= v@);
    r
}

/// `s` sorted by name.
pub fn sort_by_name<'a, T: Named>(s: Vec<&'a T>) -> (r: Vec<&'a T>)
    ensures
        refs(r@) == in_order(refs(s@)),
{
    let ghost all = refs(s@);
    let mut r: Vec<&'a T> = Vec::new();
    let mut i: usize = 0;
    assert(refs(r@) =~= in_order(all.take(0)));
    while i < s.len()
        invariant
            i <= s.len(),
            all == refs(s@),
            refs(r@) == in_order(all.take(i as int)),
        decreases s.len() - i,
    {
        assert(all.take(i + 1).drop_last() =~= all.take(i as int));
        insert_in_order(&mut r, s[i]);
        i = i + 1;
    }
    assert(all.take(i as int) =~= all);
    r
}

/// No name comes before one that stands earlier.
pub open spec fn ordered<T: Named>(s: Seq<T>) -> bool {
    forall|i: int, j: int|
        0 <= i < j < s.len() ==> !precedes(
            (#[trigger] s[j]).sort_key(),
            (#[trigger] s[i]).sort_key(),
        )
}

/// What comes before a text also comes before all that do not precede that text.
proof fn precedes_passes_on(a: Seq<char>, b: Seq<char>, c: Seq<char>)
    requires
        precedes(a, b),
        !precedes(c, b),
    ensures
        precedes(a, c),
    decreases a.len(),
{
    if a.len() > 0 && c.len() > 0 && a[0] == b[0] && b[0] == c[0] {
        precedes_passes_on(a.drop_first(), b.drop_first(), c.drop_first());
    }
}

/// No text comes both before and after another.
proof fn precedes_one_way(a: Seq<char>, b: Seq<char>)
    requires
        precedes(a, b),
    ensures
        !precedes(b, a),
    decreases a.len(),
{
    if a.len() > 0 && a[0] == b[0] {
        precedes_one_way(a.drop_first(), b.drop_first());
    }
}

proof fn put_in_order_is_ordered<T: Named>(s: Seq<T>, x: T)
    requires
        ordered(s),
    ensures
        ordered(put_in_order(s, x)),
        put_in_order(s, x).to_multiset() == s.to_multiset().insert(x),
        forall|y: T| put_in_order(s, x).contains(y) ==> s.contains(y) || y == x,
    decreases s.len(),
{
    broadcast use vstd::seq_lib::group_to_multiset_ensures;

    let r = put_in_order(s, x);
    if s.len() > 0 && precedes(x.sort_key(), s.last().sort_key()) {
        let init = s.drop_last();
        let p = put_in_order(init, x);
        assert(ordered(init)) by {
            assert forall|i: int, j: int| 0 <= i < j < init.len() implies !precedes(
                (#[trigger] init[j]).sort_key(),
                (#[trigger] init[i]).sort_key(),
            ) by {
                assert(init[i] == s[i] && init[j] == s[j]);
            }
        }
        put_in_order_is_ordered(init, x);
        assert forall|i: int, j: int| 0 <= i < j < r.len() implies !precedes(
            (#[trigger] r[j]).sort_key(),
            (#[trigger] r[i]).sort_key(),
        ) by {
            if j == r.len() - 1 {
                assert(r[i] == p[i]);
                assert(p.contains(p[i]));
                if r[i] == x {
                    precedes_one_way(x.sort_key(), s.last().sort_key());
                } else {
                    assert(init.contains(r[i]));
                    let k = choose|k: int| 0 <= k < init.len() && init[k] == r[i];
                    assert(s[k] == r[i]);
                    assert(s[s.len() - 1] == s.last());
                }
            } else {
                assert(r[i] == p[i] && r[j] == p[j]);
            }
        }
        assert(s =~= init.push(s.last()));
        assert(r.to_multiset() =~= s.to_multiset().insert(x));
        assert forall|y: T| r.contains(y) implies s.contains(y) || y == x by {
            let k = choose|k: int| 0 <= k < r.len() && r[k] == y;
            if k < p.len() {
                assert(p[k] == y);
                assert(p.contains(y));
                if init.contains(y) {
                    let m = choose|m: int| 0 <= m < init.len() && init[m] == y;
                    assert(s[m] == y);
                }
            } else {
                assert(s[s.len() - 1] == y);
            }
        }
    } else {
        assert forall|i: int, j: int| 0 <= i < j < r.len() implies !precedes(
            (#[trigger] r[j]).sort_key(),
            (#[trigger] r[i]).sort_key(),
        ) by {
            if j == s.len() {
                if precedes(x.sort_key(), s[i].sort_key()) {
                    let last = s.last().sort_key();
                    if i < s.len() - 1 {
                        assert(!precedes(s[s.len() - 1].sort_key(), s[i].sort_key()));
                    } else {
                        assert(precedes(x.sort_key(), last));
                    }
                    precedes_passes_on(x.sort_key(), s[i].sort_key(), last);
                }
            } else {
                assert(r[i] == s[i] && r[j] == s[j]);
            }
        }
        assert forall|y: T| r.contains(y) implies s.contains(y) || y == x by {
            let k = choose|k: int| 0 <= k < r.len() && r[k] == y;
            if k < s.len() {
                assert(s[k] == y);
            }
        }
    }
}

/// A sorted list is in order and holds what the list held.
pub proof fn in_order_is_ordered<T: Named>(s: Seq<T>)
    ensures
        ordered(in_order(s)),
        in_order(s).to_multiset() == s.to_multiset(),
    decreases s.len(),
{
    broadcast use vstd::seq_lib::group_to_multiset_ensures;

    if s.len() > 0 {
        let init = s.drop_last();
        in_order_is_ordered(init);
        put_in_order_is_ordered(in_order(init), s.last());
        assert(s =~= init.push(s.last()));
    }
}

} // verus!
