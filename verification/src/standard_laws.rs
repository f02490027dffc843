//! What holds of the standard operations taken together.
use crate::json::{
    extended, extended_is_found, extended_keeps_keys, has_key, last_value, member,
    unique_entry_is_found, unique_keys, value_is_itself, JsonView, ObjectView,
};
use crate::standard::{current_values, differing, has_entry};
use vstd::prelude::*;

verus! {

/// The pending changes are exactly the pending attributes that the current ones do
/// not have in the same way.
pub proof fn pending_is_what_differs(pending: ObjectView, current: JsonView, e: (Seq<char>, JsonView))
    ensures
        differing(pending, current).contains(e) <==> pending.contains(e) && !has_entry(current, e),
{
    let p = |e: (Seq<char>, JsonView)| !has_entry(current, e);
    broadcast use vstd::seq_lib::group_filter_ensures;

    let d = pending.filter(p);
    if d.contains(e) {
        let i = choose|i: int| 0 <= i < d.len() && d[i] == e;
        assert(p(d[i]));
        pending.lemma_filter_contains_rev(p, e);
    }
    if pending.contains(e) && !has_entry(current, e) {
        let i = choose|i: int| 0 <= i < pending.len() && pending[i] == e;
        assert(p(pending[i]));
    }
}

/// Clearing the pending changes leaves none: once a BMC has taken the request that
/// sets them back, nothing differs from the current attributes, provided that the
/// current attributes have each of them.
pub proof fn clearing_leaves_nothing_pending(pending: ObjectView, current: JsonView)
    requires
        unique_keys(pending),
        forall|i: int|
            0 <= i < pending.len() ==> member(current, (#[trigger] pending[i]).0) is Some,
    ensures
        differing(
            extended(pending, current_values(differing(pending, current), current)),
            current,
        ).len() == 0,
{
    let diff = differing(pending, current);
    let reset = current_values(diff, current);
    let after = extended(pending, reset);
    assert forall|i: int| 0 <= i < reset.len() implies has_key(pending, (#[trigger] reset[i]).0)
        && member(current, reset[i].0) == Some(reset[i].1) by {
        assert(reset[i].0 == diff[i].0);
        assert(diff.contains(diff[i]));
        pending_is_what_differs(pending, current, diff[i]);
        let k = choose|k: int| 0 <= k < pending.len() && pending[k] == diff[i];
        assert(pending[k].0 == reset[i].0);
    }
    extended_keeps_keys(pending, reset);
    assert forall|a: int, b: int|
        0 <= a < after.len() && 0 <= b < after.len() && (#[trigger] after[a]).0 == (
        #[trigger] after[b]).0 implies a == b by {
        assert(pending[a].0 == pending[b].0);
    }
    assert forall|i: int| 0 <= i < after.len() implies has_entry(current, #[trigger] after[i]) by {
        let key = after[i].0;
        unique_entry_is_found(after, i);
        extended_is_found(pending, reset, key);
        assert(pending[i].0 == key);
        unique_entry_is_found(pending, i);
        if last_value(reset, key) is None {
            if !has_entry(current, pending[i]) {
                pending_is_what_differs(pending, current, pending[i]);
                assert(pending.contains(pending[i]));
                let k = choose|k: int| 0 <= k < diff.len() && diff[k] == pending[i];
                assert(reset[k].0 == key);
                key_has_last_value(reset, k);
            }
        } else {
            last_value_is_of_current(reset, current, key);
            value_is_itself(after[i].1);
        }
    }
    let left = differing(after, current);
    if left.len() > 0 {
        assert(left.contains(left[0]));
        pending_is_what_differs(after, current, left[0]);
        let k = choose|k: int| 0 <= k < after.len() && after[k] == left[0];
        assert(has_entry(current, after[k]));
    }
}

proof fn key_has_last_value(o: ObjectView, i: int)
    requires
        0 <= i < o.len(),
    ensures
        last_value(o, o[i].0) is Some,
    decreases o.len(),
{
    if o.last().0 != o[i].0 {
        assert(i < o.len() - 1);
        assert(o.drop_last()[i] == o[i]);
        key_has_last_value(o.drop_last(), i);
    }
}

proof fn last_value_is_of_current(o: ObjectView, current: JsonView, key: Seq<char>)
    requires
        forall|i: int|
            0 <= i < o.len() ==> member(current, (#[trigger] o[i]).0) == Some(o[i].1),
        last_value(o, key) is Some,
    ensures
        last_value(o, key) == member(current, key),
    decreases o.len(),
{
    assert(o[o.len() - 1] == o.last());
    if o.last().0 != key {
        let init = o.drop_last();
        assert forall|i: int| 0 <= i < init.len() implies member(current, (#[trigger] init[i]).0)
            == Some(init[i].1) by {
            assert(init[i] == o[i]);
        }
        last_value_is_of_current(init, current, key);
    }
}

} // verus!
