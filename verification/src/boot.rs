//! Boot orders as lists of references to boot options.
use crate::search::{first_where, first_where_absent, first_where_found, first_where_is_first};
use crate::text::{before_first, head, same};
use vstd::prelude::*;
use vstd::string::*;

verus! {

/// The reference in an entry of a boot order: all of it, or what stands before a
/// colon that starts a description.
pub open spec fn reference_of(entry: Seq<char>) -> Seq<char> {
    before_first(entry, ':')
}

/// The place of the first entry with the reference `target`.
pub open spec fn reference_position(order: Seq<Seq<char>>, target: Seq<char>) -> Option<int> {
    first_where(order, |entry: Seq<char>| reference_of(entry) == target)
}

/// `s` with the element at `i` moved to the front.
pub open spec fn moved_first<T>(s: Seq<T>, i: int) -> Seq<T> {
    seq![s[i]] + s.take(i) + s.skip(i + 1)
}

/// The boot order that boots `target` first: its entry moved to the front, or,
/// where it has none, added there.
pub open spec fn target_first(order: Seq<Seq<char>>, target: Seq<char>) -> Seq<Seq<char>> {
    match reference_position(order, target) {
        Some(i) => moved_first(order, i),
        None => seq![target] + order,
    }
}

/// The reference in an entry of a boot order.
pub fn boot_order_entry_reference<'a>(entry: &'a str) -> (r: &'a str)
    ensures
        r@ == reference_of(entry@),
{
    head(entry, ':')
}

/// Moves the first entry with the reference `target` to the front, and says
/// whether there is one.
pub fn promote_boot_order_entry_first(order: &mut Vec<String>, target: &str) -> (found: bool)
    ensures
        match reference_position(old(order).deep_view(), target@) {
            Some(i) => found && final(order).deep_view() == moved_first(
                old(order).deep_view(),
                i,
            ),
            None => !found && final(order)@ == old(order)@,
        },
{
    let ghost texts = order.deep_view();
    let ghost is_target = |entry: Seq<char>| reference_of(entry) == target@;
    let mut i: usize = 0;
    while i < order.len()
        invariant
            i <= order.len(),
            order@ == old(order)@,
            texts == order.deep_view(),
            is_target == (|entry: Seq<char>| reference_of(entry) == target@),
            forall|k: int| 0 <= k < i ==> !is_target(#[trigger] texts[k]),
        decreases order.len() - i,
    {
        assert(texts[i as int] == order@[i as int]@);
        if same(boot_order_entry_reference(order[i].as_str()), target) {
            proof {
                first_where_found(texts, is_target, i as int);
            }
            let entry = order.remove(i);
            order.insert(0, entry);
            assert(order.deep_view() =~= moved_first(texts, i as int));
            return true;
        }
        i = i + 1;
    }
    proof {
        first_where_absent(texts, is_target);
    }
    false
}

/// `order` with `target` first.
pub fn promote_or_insert(order: Vec<String>, target: &str) -> (r: Vec<String>)
    ensures
        r.deep_view() == target_first(order.deep_view(), target@),
{
    let ghost texts = order.deep_view();
    let mut order = order;
    if !promote_boot_order_entry_first(&mut order, target) {
        order.insert(0, target.to_owned());
        assert(order.deep_view() =~= seq![target@] + texts);
    }
    order
}

/// After a target has been put first, its reference is the first in the order,
/// provided that it has no colon in itself.
pub proof fn target_first_is_first(order: Seq<Seq<char>>, target: Seq<char>)
    requires
        reference_of(target) == target,
    ensures
        target_first(order, target).len() > 0,
        reference_of(target_first(order, target)[0]) == target,
{
    first_where_is_first(order, |entry: Seq<char>| reference_of(entry) == target);
}

/// Putting a target first keeps every entry of the order and adds none but the
/// target itself, where it had no entry.
pub proof fn target_first_keeps_entries(order: Seq<Seq<char>>, target: Seq<char>)
    ensures
        target_first(order, target).to_multiset() == match reference_position(order, target) {
            Some(i) => order.to_multiset(),
            None => order.to_multiset().insert(target),
        },
{
    broadcast use vstd::seq_lib::group_to_multiset_ensures;

    first_where_is_first(order, |entry: Seq<char>| reference_of(entry) == target);
    match reference_position(order, target) {
        Some(i) => {
            moved_first_keeps_elements(order, i);
        },
        None => {
            vstd::seq_lib::lemma_multiset_commutative(seq![target], order);
            assert(seq![target] =~= Seq::empty().push(target));
            assert(seq![target] + order =~= target_first(order, target));
            assert(seq![target].to_multiset() =~= vstd::multiset::Multiset::singleton(target));
            assert(order.to_multiset().insert(target) =~= seq![target].to_multiset().add(
                order.to_multiset(),
            ));
        },
    }
}

/// Moving an element to the front keeps the elements.
pub proof fn moved_first_keeps_elements<T>(s: Seq<T>, i: int)
    requires
        0 <= i < s.len(),
    ensures
        moved_first(s, i).to_multiset() == s.to_multiset(),
{
    broadcast use vstd::seq_lib::group_to_multiset_ensures;

    vstd::seq_lib::lemma_multiset_commutative(seq![s[i]], s.take(i));
    vstd::seq_lib::lemma_multiset_commutative(s.take(i), seq![s[i]]);
    vstd::seq_lib::lemma_multiset_commutative(seq![s[i]] + s.take(i), s.skip(i + 1));
    vstd::seq_lib::lemma_multiset_commutative(s.take(i) + seq![s[i]], s.skip(i + 1));
    assert(s =~= s.take(i) + seq![s[i]] + s.skip(i + 1));
}

} // verus!
