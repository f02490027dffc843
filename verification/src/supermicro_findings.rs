//! What is said of Supermicro machines that are not as they should be.
use crate::boot::{promote_boot_order_entry_first, promote_or_insert, reference_of};
use crate::json::{lookup, rendered, Json, JsonView, Object, ObjectView};
use crate::model::{
    add_status_diff, BootOption, Chassis, DiffView, MachineSetupDiff, Status, StatusInternal,
};
use crate::search::{first_where, first_where_is_first};
use crate::supermicro::{
    fixed_boot_order_diff, has_reference, http_boot_option_matches_mac, is_mgx_c2_processor_module,
    is_supported_uefi_http_boot_option, network_category, option_for_reference, option_matches_mac,
    standard_boot_order_diff,
};
use crate::supermicro_runs::{
    boots_card, boots_dpu, first_for_dpu, is_named, key_has_one_name, puts_first,
    reference_is_of_the_entry, refers_to, target_is_put_first,
};
use crate::supermicro_setup::{
    add_attribute_diffs, attribute_diff, attribute_diffs, canonical_name,
};
use crate::text::{begins, first_of, has, lower, trimmed};
use crate::text_laws::{before_first_is_the_first_part, free_of, text_begins_with_its_head};
use vstd::prelude::*;
use vstd::string::*;

verus! {

/// The canonical name of an attribute is the name that it has.
pub proof fn canonical_name_is_the_name(key: &str, name: &str)
    requires
        call_ensures(canonical_name, (key,), name),
    ensures
        is_named(key@, name@),
{
    key_has_one_name(key@, name@);
}

/// How boot options and processor modules are told by what they are called.
pub proof fn devices_are_told_by_name(
    name: &str,
    mac: &str,
    chassis: &Chassis,
    card: bool,
    dpu: bool,
    mgx_c2: bool,
)
    requires
        call_ensures(is_supported_uefi_http_boot_option, (name,), card),
        call_ensures(http_boot_option_matches_mac, (name, mac), dpu),
        call_ensures(is_mgx_c2_processor_module, (chassis,), mgx_c2),
    ensures
        card <==> boots_card(name@),
        dpu <==> boots_dpu(name@, mac@),
        mgx_c2 <==> (chassis.manufacturer matches Some(m) && lower(m@) == lower("NVIDIA"@)) && ((
        chassis.model matches Some(m) && begins(m@, "PG535"@)) || (chassis.part_number matches Some(
            p,
        ) && has(p@, "2G535"@))),
{
}

/// Whether the option at `i` is the first of the DPU with the MAC address `mac`.
pub open spec fn first_of_dpu(options: Seq<BootOption>, i: int, mac: Seq<char>) -> bool {
    0 <= i < options.len() && boots_dpu(options[i].display_name@, mac) && forall|k: int|
        0 <= k < i ==> !boots_dpu((#[trigger] options[k]).display_name@, mac)
}

/// Whether the option at `i` is the first that an entry of a boot order refers to.
pub open spec fn first_referred_to(options: Seq<BootOption>, i: int, entry: Seq<char>) -> bool {
    0 <= i < options.len() && refers_to(entry, options[i].boot_option_reference@) && forall|k: int|
        0 <= k < i ==> !refers_to(entry, (#[trigger] options[k]).boot_option_reference@)
}

/// What a boot order that does not start with the DPU should start with, and what it does:
/// both by their display names, or as not found.
pub proof fn standard_order_deviation(
    order: &[String],
    options: &[BootOption],
    mac: &str,
    i: int,
    k: int,
    r: Option<MachineSetupDiff>,
)
    requires
        call_ensures(standard_boot_order_diff, (order, options, mac), r),
    ensures
        r is None <==> order@.len() > 0 && exists|j: int| #[trigger]
            first_of_dpu(options@, j, mac@) && refers_to(
                order@[0]@,
                options@[j].boot_option_reference@,
            ),
        r matches Some(d) ==> d.key@ == "boot_first"@,
        r matches Some(d) ==> (first_of_dpu(options@, i, mac@) ==> d.expected@
            == options@[i].display_name@),
        r matches Some(d) ==> ((forall|j: int|
            0 <= j < options@.len() ==> !boots_dpu((#[trigger] options@[j]).display_name@, mac@))
            ==> d.expected@ == "Not found"@),
        r matches Some(d) ==> (order@.len() > 0 && first_referred_to(options@, k, order@[0]@)
            ==> d.actual@ == options@[k].display_name@),
        r matches Some(d) ==> (order@.len() == 0 || (forall|j: int|
            0 <= j < options@.len() ==> !refers_to(
                order@[0]@,
                (#[trigger] options@[j]).boot_option_reference@,
            )) ==> d.actual@ == "Not found"@),
{
    let all = options@;
    let p = |o: BootOption| option_matches_mac(o.display_name@, mac@);
    first_where_is_first(all, p);
    assert(order@.len() > 0 ==> order.deep_view()[0] == order@[0]@);
    assert forall|j: int| 0 <= j < all.len() implies p(#[trigger] all[j]) == boots_dpu(
        all[j].display_name@,
        mac@,
    ) by {}
    if let Some(j) = first_where(all, p) {
        assert(first_of_dpu(all, j, mac@));
        if order@.len() > 0 {
            reference_is_of_the_entry(order@[0]@, all[j].boot_option_reference@);
        }
        assert forall|m: int| #[trigger] first_of_dpu(all, m, mac@) implies m == j by {
            assert(p(all[m]) && p(all[j]));
            if m < j {
                assert(!p(all[m]));
            }
            if j < m {
                assert(!boots_dpu(all[j].display_name@, mac@));
            }
        }
    }
    if order@.len() > 0 {
        referred_option(all, order@[0]@, reference_of(order@[0]@), k);
    }
}

proof fn referred_option(
    all: Seq<BootOption>,
    entry: Seq<char>,
    reference: Seq<char>,
    k: int,
)
    requires
        reference == reference_of(entry),
    ensures
        first_referred_to(all, k, entry) ==> option_for_reference(all, reference) == Some(all[k]),
        (forall|j: int|
            0 <= j < all.len() ==> !refers_to(entry, (#[trigger] all[j]).boot_option_reference@))
            ==> option_for_reference(all, reference) is None,
{
    let q = has_reference(reference);
    first_where_is_first(all, q);
    assert forall|j: int| 0 <= j < all.len() implies q(#[trigger] all[j]) == refers_to(
        entry,
        all[j].boot_option_reference@,
    ) by {
        reference_is_of_the_entry(entry, all[j].boot_option_reference@);
    }
    if first_referred_to(all, k, entry) {
        assert(q(all[k]));
        if let Some(j) = first_where(all, q) {
            if j < k {
                assert(q(all[j]));
            }
            if k < j {
                assert(!q(all[k]));
            }
        }
    }
}

/// Whether an entry of a fixed boot order stands for the network devices.
pub open spec fn is_network(entry: Seq<char>) -> bool {
    entry == "UEFI Network"@ || exists|rest: Seq<char>|
        #![trigger "UEFI Network"@ + seq![':'] + rest]
        entry == "UEFI Network"@ + seq![':'] + rest
}

proof fn network_is_told(entry: Seq<char>)
    ensures
        network_category(entry) <==> is_network(entry),
{
    let p = "UEFI Network"@;
    text_begins_with_its_head(entry, p);
    if network_category(entry) {
        if entry.len() > p.len() {
            let rest = entry.skip((p.len() + 1) as int);
            assert(entry =~= p + seq![':'] + rest);
        } else {
            assert(entry =~= entry.take(p.len() as int));
        }
    }
    if is_network(entry) && entry != p {
        let rest = choose|rest: Seq<char>|
            #![trigger "UEFI Network"@ + seq![':'] + rest]
            entry == p + seq![':'] + rest;
        assert(entry.take(p.len() as int) =~= p);
    }
    if entry == p {
        assert(entry.take(p.len() as int) =~= p);
    }
}

/// A fixed boot order is right if and only if it boots the DPU's device first. Where it
/// starts with the network, that is the first network device. What deviates is said by
/// the devices' names.
pub proof fn fixed_order_deviation(
    fixed: &[String],
    network: &[String],
    mac: &str,
    i: int,
    r: Option<MachineSetupDiff>,
)
    requires
        call_ensures(fixed_boot_order_diff, (fixed, network, mac), r),
        fixed@.len() > 0,
        is_network(fixed@[0]@),
        network@.len() > 0,
    ensures
        first_for_dpu(network.deep_view(), i, mac@) ==> (r is None <==> network@[0]@
            == network@[i]@),
        (forall|j: int|
            0 <= j < network@.len() ==> !boots_dpu(#[trigger] network.deep_view()[j], mac@))
            ==> r is Some,
        r matches Some(d) ==> d.key@ == "boot_first"@ && d.actual@ == network@[0]@,
        r matches Some(d) ==> (first_for_dpu(network.deep_view(), i, mac@) ==> d.expected@
            == network@[i]@),
        r matches Some(d) ==> ((forall|j: int|
            0 <= j < network@.len() ==> !boots_dpu(#[trigger] network.deep_view()[j], mac@))
            ==> d.expected@ == "Not found"@),
{
    let devices = network.deep_view();
    let p = |entry: Seq<char>| option_matches_mac(entry, mac@);
    first_where_is_first(devices, p);
    network_is_told(fixed@[0]@);
    assert(fixed.deep_view()[0] == fixed@[0]@);
    assert(devices[0] == network@[0]@);
    assert forall|j: int| 0 <= j < devices.len() implies p(#[trigger] devices[j]) == boots_dpu(
        devices[j],
        mac@,
    ) by {}
    if first_for_dpu(devices, i, mac@) {
        assert(p(devices[i]));
        assert(devices[i] == network@[i]@);
        if let Some(j) = first_where(devices, p) {
            if j < i {
                assert(p(devices[j]));
            }
            if i < j {
                assert(!p(devices[i]));
            }
        }
    }
}

/// A fixed boot order that does not start with the network boots the device that its first
/// entry names behind a colon.
pub proof fn fixed_order_names_a_device(
    fixed: &[String],
    network: &[String],
    mac: &str,
    category: Seq<char>,
    device: Seq<char>,
    r: Option<MachineSetupDiff>,
)
    requires
        call_ensures(fixed_boot_order_diff, (fixed, network, mac), r),
        fixed@.len() > 0,
        !is_network(fixed@[0]@),
        free_of(category, ':'),
        fixed@[0]@ == category + seq![':'] + device,
    ensures
        r matches Some(d) ==> d.key@ == "boot_first"@ && d.actual@ == trimmed(device),
        r is None <==> exists|i: int| #[trigger]
            first_for_dpu(network.deep_view(), i, mac@) && network@[i]@ == trimmed(device),
{
    let devices = network.deep_view();
    let p = |entry: Seq<char>| option_matches_mac(entry, mac@);
    first_where_is_first(devices, p);
    network_is_told(fixed@[0]@);
    assert(fixed.deep_view()[0] == fixed@[0]@);
    let entry = fixed@[0]@;
    before_first_is_the_first_part(category, ':', device);
    let n = category.len() as int;
    assert(first_of(entry, ':') == Some(n)) by {
        crate::supermicro_laws::first_of_is_first(entry, ':');
        assert(entry[n] == ':');
        if let Some(f) = first_of(entry, ':') {
            if f < n {
                assert(entry[f] == category[f]);
            }
        }
    }
    assert(entry.skip(n + 1) =~= device);
    if let Some(j) = first_where(devices, p) {
        assert(first_for_dpu(devices, j, mac@)) by {
            assert forall|k: int| 0 <= k < j implies !boots_dpu(#[trigger] devices[k], mac@) by {
                assert(!p(devices[k]));
            }
            assert(p(devices[j]));
        }
        assert(devices[j] == network@[j]@);
        assert forall|i: int| #[trigger] first_for_dpu(devices, i, mac@) implies i == j by {
            assert(p(devices[i]));
            if i < j {
                assert(!p(devices[i]));
            }
            if j < i {
                assert(p(devices[j]));
                assert(!boots_dpu(devices[j], mac@));
            }
        }
    } else {
        assert forall|i: int| !(#[trigger] first_for_dpu(devices, i, mac@)) by {
            if 0 <= i < devices.len() {
                assert(!p(devices[i]));
            }
        }
    }
}

proof fn deviation_is_of_an_attribute(bios: JsonView, expected: ObjectView, k: int)
    requires
        0 <= k < attribute_diffs(bios, expected).len(),
    ensures
        exists|i: int|
            0 <= i < expected.len() && attribute_diff(bios, #[trigger] expected[i]).len() == 1
                && attribute_diff(bios, expected[i])[0] == attribute_diffs(bios, expected)[k],
    decreases expected.len(),
{
    let init = expected.drop_last();
    let before = attribute_diffs(bios, init);
    if k < before.len() {
        deviation_is_of_an_attribute(bios, init, k);
        let i = choose|i: int|
            0 <= i < init.len() && attribute_diff(bios, #[trigger] init[i]).len() == 1
                && attribute_diff(bios, init[i])[0] == before[k];
        assert(expected[i] == init[i]);
    } else {
        assert(expected[expected.len() - 1] == expected.last());
    }
}

/// Each deviation of an attribute that is added is said by its key, with the value that was
/// expected and the one that is there, which differs, or as missing.
pub proof fn attribute_deviations(
    diffs: &mut Vec<MachineSetupDiff>,
    bios: &Json,
    attrs: ObjectView,
    expected: &Object,
    r: (),
    k: int,
)
    requires
        call_ensures(add_attribute_diffs, (diffs, bios, expected), r),
        bios@ == JsonView::Object(attrs),
        old(diffs)@.len() <= k < final(diffs).deep_view().len(),
    ensures
        final(diffs).deep_view().take(old(diffs)@.len() as int) == old(diffs).deep_view(),
        ({
            let d = final(diffs).deep_view()[k];
            exists|i: int|
                0 <= i < expected@.len() && d.key == (#[trigger] expected@[i]).0 && d.expected
                    == rendered(expected@[i].1) && match lookup(attrs, expected@[i].0) {
                    Some(value) => d.actual == rendered(value) && d.actual != d.expected,
                    None => d.actual == "_missing_"@,
                }
        }),
{
    let all = attribute_diffs(bios@, expected@);
    let before = old(diffs).deep_view();
    assert((before + all).take(before.len() as int) =~= before);
    deviation_is_of_an_attribute(bios@, expected@, k - before.len());
    let i = choose|i: int|
        0 <= i < expected@.len() && attribute_diff(bios@, #[trigger] expected@[i]).len() == 1
            && attribute_diff(bios@, expected@[i])[0] == all[k - before.len()];
    assert(final(diffs).deep_view()[k] == attribute_diff(bios@, expected@[i])[0]);
}

/// A feature that is not on deviates from one that is.
pub proof fn status_deviations(
    diffs: &mut Vec<MachineSetupDiff>,
    key: &str,
    status: &Status,
    r: (),
)
    requires
        call_ensures(add_status_diff, (diffs, key, status), r),
    ensures
        status.status == StatusInternal::Enabled ==> final(diffs).deep_view()
            == old(diffs).deep_view(),
        status.status == StatusInternal::Disabled ==> final(diffs).deep_view()
            == old(diffs).deep_view().push(
            (DiffView { key: key@, expected: "Enabled"@, actual: "Disabled"@ }),
        ),
        status.status == StatusInternal::Partial ==> final(diffs).deep_view()
            == old(diffs).deep_view().push(
            (DiffView { key: key@, expected: "Enabled"@, actual: "Partial"@ }),
        ),
{
    let before = old(diffs).deep_view();
    assert(before + Seq::<DiffView>::empty() =~= before);
    let off = DiffView { key: key@, expected: "Enabled"@, actual: "Disabled"@ };
    let partial = DiffView { key: key@, expected: "Enabled"@, actual: "Partial"@ };
    assert(before + seq![off] =~= before.push(off));
    assert(before + seq![partial] =~= before.push(partial));
}

/// A boot order with a target put first has the target's entry first.
pub proof fn boot_order_with_target_first(order: Vec<String>, target: &str, r: Vec<String>)
    requires
        call_ensures(promote_or_insert, (order, target), r),
    ensures
        puts_first(r.deep_view(), order.deep_view(), target@),
{
    target_is_put_first(order.deep_view(), target@);
}

/// Promoting an entry says whether there is one, and leaves an order without it alone.
pub proof fn boot_order_with_entry_first(order: &mut Vec<String>, target: &str, found: bool)
    requires
        call_ensures(promote_boot_order_entry_first, (order, target), found),
    ensures
        found <==> exists|i: int|
            0 <= i < old(order)@.len() && refers_to(#[trigger] old(order).deep_view()[i], target@),
        found ==> puts_first(final(order).deep_view(), old(order).deep_view(), target@),
        !found ==> final(order)@ == old(order)@,
{
    let texts = old(order).deep_view();
    let p = |entry: Seq<char>| reference_of(entry) == target@;
    first_where_is_first(texts, p);
    target_is_put_first(texts, target@);
    assert forall|i: int| 0 <= i < texts.len() implies p(#[trigger] texts[i]) == refers_to(
        texts[i],
        target@,
    ) by {
        reference_is_of_the_entry(texts[i], target@);
    }
}

} // verus!
