//! What holds of the operations on Supermicro machines taken together.
use crate::boot::{reference_of, target_first, target_first_is_first};
use crate::error::ErrorView;
use crate::exchange::{fetched, get, patch, sent, Flow, Kind, RequestView, Tape};
use crate::json::{
    extended, extended_is_found, extended_keeps_keys, has_key, last_value, lookup, member, rendered,
    same_keys, JsonView, ObjectView,
};
use crate::model::{
    BootInterfaceRef, BootOption, ComputerSystem, EnabledDisabled, FixedBootOrder, Privilege,
    References, StatusInternal,
};
use crate::search::{first_where, first_where_found, first_where_is_first};
use crate::supermicro::{
    device_position, fixed_diff, network_category, option_for_mac, option_matches_mac,
    standard_diff, Bmc, HARD_DISK, NETWORK,
};
use crate::supermicro_boot::{
    category_entry, dpu_first_body, fixed_order_body, swapped_first, two_enabled,
};
use crate::supermicro_setup::{
    all_ruled, attribute_diffs, clean_key, keys_named, lockdown_report,
    name_map_groups_by_canonical_name, name_map_partitions, ruled, setup_rules, tpm_enabled,
};
use crate::text::{before_first, begins, first_of, last_of, upper, without_trailing};
use vstd::prelude::*;
use vstd::string::*;

verus! {

/// The steps that lock a machine, but for the last.
pub open spec fn before_lock_flow(bmc: Bmc, t: Tape) -> Flow<()> {
    bmc.lock_host_interfaces_flow(t).and_then(
        |done: (), t: Tape| bmc.set_kcs_privilege_flow(Privilege::Callback, t),
    )
}

/// Whether a request is one that changes system lockdown.
pub open spec fn changes_syslockdown(bmc: Bmc, q: RequestView) -> bool {
    ||| q == bmc.syslockdown_request(EnabledDisabled::Enabled)
    ||| q == bmc.syslockdown_request(EnabledDisabled::Disabled)
}

/// A change whose body has one key of another length is not one of system
/// lockdown.
proof fn other_key_is_other_change(bmc: Bmc, url: Seq<char>, key: Seq<char>, value: JsonView)
    requires
        key.len() != "SysLockdownEnabled"@.len(),
    ensures
        !changes_syslockdown(bmc, patch(url, seq![(key, value)])),
{
    let a = patch(url, seq![(key, value)]).payload->Json_0->Object_0;
    let b = bmc.syslockdown_request(EnabledDisabled::Enabled).payload->Json_0->Object_0;
    let c = bmc.syslockdown_request(EnabledDisabled::Disabled).payload->Json_0->Object_0;
    assert(a[0].0 == key);
    assert(b[0].0 == "SysLockdownEnabled"@);
    assert(c[0].0 == "SysLockdownEnabled"@);
}

proof fn host_interfaces_come_before(
    bmc: Bmc,
    ids: Seq<Seq<char>>,
    target: EnabledDisabled,
    t: Tape,
)
    ensures
        bmc.each_host_interface(ids, target, t) matches Flow::Wait(q, _) ==> !changes_syslockdown(
            bmc,
            q,
        ),
    decreases ids.len(),
{
    if ids.len() > 0 {
        reveal_strlit("InterfaceEnabled");
        reveal_strlit("SysLockdownEnabled");
        other_key_is_other_change(
            bmc,
            bmc.host_interface_path(ids[0]),
            "InterfaceEnabled"@,
            JsonView::Bool(target == EnabledDisabled::Enabled),
        );
        if let Flow::Ready(done, u) = sent(bmc.host_interface_request(ids[0], target), t) {
            host_interfaces_come_before(bmc, ids.drop_first(), target, u);
        }
    }
}

proof fn privilege_is_not_lockdown(bmc: Bmc, privilege: Privilege, t: Tape)
    ensures
        bmc.set_kcs_privilege_flow(privilege, t) matches Flow::Wait(q, _) ==> !changes_syslockdown(
            bmc,
            q,
        ),
{
    reveal_strlit("Privilege");
    reveal_strlit("IPMIHostInterface");
    reveal_strlit("SysLockdownEnabled");
    other_key_is_other_change(
        bmc,
        bmc.kcs_path(),
        "Privilege"@,
        JsonView::Text(privilege.text()),
    );
    other_key_is_other_change(
        bmc,
        bmc.system_document(),
        "IPMIHostInterface"@,
        JsonView::Object(
            seq![("ServiceEnabled"@, JsonView::Bool(privilege == Privilege::Administrator))],
        ),
    );
}

/// A machine is locked last: system lockdown is requested only after the host
/// interfaces and the KCS privilege were dealt with.
pub proof fn machine_is_locked_last(bmc: Bmc, t: Tape)
    ensures
        bmc.lock_flow(t) matches Flow::Wait(q, _) && changes_syslockdown(bmc, q)
            ==> before_lock_flow(bmc, t) is Ready,
        bmc.lock_flow(t) is Ready ==> before_lock_flow(bmc, t) is Ready,
{
    if let Flow::Ready(keep, u) = bmc.is_ars_121l_dnr_flow(t) {
        if let Flow::Ready(ids, v) = bmc.s.members_flow(
            get(bmc.s.manager_path("/HostInterfaces"@)),
            u,
        ) {
            host_interfaces_come_before(bmc, ids, EnabledDisabled::Disabled, v);
        }
    }
    if let Flow::Ready(done, u) = bmc.lock_host_interfaces_flow(t) {
        privilege_is_not_lockdown(bmc, Privilege::Callback, u);
    }
}

/// A machine is unlocked first: nothing else is sent before the change of system
/// lockdown was accepted.
pub proof fn machine_is_unlocked_first(bmc: Bmc, t: Tape)
    ensures
        t.pos >= t.replies.len() ==> bmc.unlock_flow(t) == Flow::<()>::Wait(
            bmc.syslockdown_request(EnabledDisabled::Disabled),
            Kind::Written,
        ),
        sent(bmc.syslockdown_request(EnabledDisabled::Disabled), t) !is Ready ==> bmc.unlock_flow(t)
            == sent(bmc.syslockdown_request(EnabledDisabled::Disabled), t),
{
}

/// What was written is read back: a machine on which system lockdown is on, the
/// host interface off, unless it has to be kept, and KCS restricted to callbacks,
/// where it can be had, is locked. One with all of that the other way round is
/// unlocked.
pub proof fn lockdown_is_read_back(host_interface: bool, kcs: Option<Privilege>, keep: bool)
    ensures
        kcs != Some(Privilege::Operator) && kcs != Some(Privilege::User) && kcs != Some(
            Privilege::Administrator,
        ) && (keep || !host_interface) ==> lockdown_report(
            host_interface,
            kcs,
            true,
            keep,
        ).status == StatusInternal::Enabled,
        kcs != Some(Privilege::Operator) && kcs != Some(Privilege::User) && kcs != Some(
            Privilege::Callback,
        ) ==> lockdown_report(true, kcs, false, keep).status == StatusInternal::Disabled,
{
}

/// There is no deviation if and only if every attribute is there and has the value
/// that it should have, by its text.
pub proof fn no_deviation_means_all_set(bios: JsonView, expected: ObjectView)
    ensures
        attribute_diffs(bios, expected).len() == 0 <==> (forall|i: int|
            0 <= i < expected.len() ==> (member(bios, (#[trigger] expected[i]).0) matches Some(v)
                && rendered(v) == rendered(expected[i].1))),
    decreases expected.len(),
{
    if expected.len() > 0 {
        let init = expected.drop_last();
        no_deviation_means_all_set(bios, init);
        assert(expected[expected.len() - 1] == expected.last());
        if attribute_diffs(bios, expected).len() == 0 {
            assert forall|i: int| 0 <= i < expected.len() implies (member(
                bios,
                (#[trigger] expected[i]).0,
            ) matches Some(v) && rendered(v) == rendered(expected[i].1)) by {
                if i < init.len() {
                    assert(init[i] == expected[i]);
                }
            }
        }
        if forall|i: int|
            0 <= i < expected.len() ==> (member(bios, (#[trigger] expected[i]).0) matches Some(v)
                && rendered(v) == rendered(expected[i].1)) {
            assert forall|i: int| 0 <= i < init.len() implies (member(
                bios,
                (#[trigger] init[i]).0,
            ) matches Some(v) && rendered(v) == rendered(init[i].1)) by {
                assert(init[i] == expected[i]);
            }
        }
    }
}

/// The rules for a machine whose TPM is turned on by `word`.
pub open spec fn rules_with_tpm(word: Seq<char>) -> Seq<(Seq<char>, JsonView)> {
    setup_rules().push(("SecurityDeviceSupport"@, JsonView::Text(word)))
}

/// The settings of a machine whose TPM is turned on by `word`.
pub open spec fn settings_with_tpm(attrs: ObjectView, word: Seq<char>) -> ObjectView {
    all_ruled(attrs, setup_rules()) + ruled(
        attrs,
        ("SecurityDeviceSupport"@, JsonView::Text(word)),
    )
}

/// Whether the rules have different names.
pub open spec fn distinct_names(rules: Seq<(Seq<char>, JsonView)>) -> bool {
    forall|i: int, j: int|
        0 <= i < rules.len() && 0 <= j < rules.len() && (#[trigger] rules[i]).0 == (
        #[trigger] rules[j]).0 ==> i == j
}

pub(crate) proof fn rules_are_distinct(word: Seq<char>)
    ensures
        distinct_names(rules_with_tpm(word)),
{
    reveal_strlit("QuietBoot");
    reveal_strlit("Re-tryBoot");
    reveal_strlit("CSMSupport");
    reveal_strlit("SecureBootEnable");
    reveal_strlit("TXTSupport");
    reveal_strlit("DeviceSelect");
    reveal_strlit("IntelVTforDirectedI/O(VT-d)");
    reveal_strlit("IntelVirtualizationTechnology");
    reveal_strlit("SR-IOVSupport");
    reveal_strlit("SR_IOVSupport");
    reveal_strlit("IPv4HTTPSupport");
    reveal_strlit("IPv4PXESupport");
    reveal_strlit("IPv6HTTPSupport");
    reveal_strlit("IPv6PXESupport");
    reveal_strlit("SecurityDeviceSupport");
    let rules = rules_with_tpm(word);
    assert(rules.len() == 15);
    assert(rules[0].0.len() == 9);
    assert(rules[1].0.len() == 10 && rules[1].0[0] == 'R');
    assert(rules[2].0.len() == 10 && rules[2].0[0] == 'C');
    assert(rules[3].0.len() == 16);
    assert(rules[4].0.len() == 10 && rules[4].0[0] == 'T');
    assert(rules[5].0.len() == 12);
    assert(rules[6].0.len() == 27);
    assert(rules[7].0.len() == 29);
    assert(rules[8].0.len() == 13 && rules[8].0[2] == '-');
    assert(rules[9].0.len() == 13 && rules[9].0[2] == '_');
    assert(rules[10].0.len() == 15 && rules[10].0[3] == '4');
    assert(rules[11].0.len() == 14 && rules[11].0[3] == '4');
    assert(rules[12].0.len() == 15 && rules[12].0[3] == '6');
    assert(rules[13].0.len() == 14 && rules[13].0[3] == '6');
    assert(rules[14].0.len() == 21);
}

proof fn keys_have_their_name(attrs: ObjectView, name: Seq<char>, i: int)
    requires
        0 <= i < keys_named(attrs, name).len(),
    ensures
        clean_key(keys_named(attrs, name)[i]) == name,
    decreases attrs.len(),
{
    if attrs.len() > 0 {
        let init = keys_named(attrs.drop_last(), name);
        if i < init.len() {
            keys_have_their_name(attrs.drop_last(), name, i);
        }
    }
}

pub(crate) proof fn settings_follow_a_rule(attrs: ObjectView, rules: Seq<(Seq<char>, JsonView)>, i: int)
    requires
        0 <= i < all_ruled(attrs, rules).len(),
    ensures
        exists|j: int|
            0 <= j < rules.len() && (#[trigger] rules[j]).0 == clean_key(
                all_ruled(attrs, rules)[i].0,
            ) && rules[j].1 == all_ruled(attrs, rules)[i].1,
    decreases rules.len(),
{
    if rules.len() > 0 {
        let init = rules.drop_last();
        let before = all_ruled(attrs, init);
        if i < before.len() {
            settings_follow_a_rule(attrs, init, i);
            let j = choose|j: int|
                0 <= j < init.len() && (#[trigger] init[j]).0 == clean_key(before[i].0)
                    && init[j].1 == before[i].1;
            assert(rules[j] == init[j]);
        } else {
            keys_have_their_name(attrs, rules.last().0, i - before.len());
            assert(rules[rules.len() - 1] == rules.last());
        }
    }
}

pub(crate) proof fn last_value_is_an_entry(o: ObjectView, key: Seq<char>)
    ensures
        last_value(o, key) matches Some(v) ==> exists|i: int|
            0 <= i < o.len() && #[trigger] o[i] == (key, v),
        last_value(o, key) is None ==> forall|i: int|
            0 <= i < o.len() ==> (#[trigger] o[i]).0 != key,
    decreases o.len(),
{
    if o.len() > 0 {
        let init = o.drop_last();
        assert(o[o.len() - 1] == o.last());
        if o.last().0 != key {
            last_value_is_an_entry(init, key);
            if let Some(v) = last_value(init, key) {
                let i = choose|i: int| 0 <= i < init.len() && #[trigger] init[i] == (key, v);
                assert(o[i] == (key, v));
            } else {
                assert forall|i: int| 0 <= i < o.len() implies (#[trigger] o[i]).0 != key by {
                    if i < init.len() {
                        assert(init[i] == o[i]);
                    }
                }
            }
        } else {
            assert(o[o.len() - 1] == (key, o.last().1));
        }
    }
}

/// A machine that has taken the settings of a setup shows no deviation from them.
proof fn settings_are_found(attrs: ObjectView, word: Seq<char>)
    ensures
        attribute_diffs(
            JsonView::Object(extended(attrs, settings_with_tpm(attrs, word))),
            settings_with_tpm(attrs, word),
        ).len() == 0,
{
    let rules = rules_with_tpm(word);
    let settings = settings_with_tpm(attrs, word);
    assert(rules.drop_last() =~= setup_rules());
    assert(settings == all_ruled(attrs, rules));
    rules_are_distinct(word);
    let bios = JsonView::Object(extended(attrs, settings));
    assert forall|i: int| 0 <= i < settings.len() implies (member(
        bios,
        (#[trigger] settings[i]).0,
    ) matches Some(v) && rendered(v) == rendered(settings[i].1)) by {
        let key = settings[i].0;
        extended_is_found(attrs, settings, key);
        last_value_is_an_entry(settings, key);
        let v = last_value(settings, key)->0;
        let k = choose|k: int| 0 <= k < settings.len() && #[trigger] settings[k] == (key, v);
        settings_follow_a_rule(attrs, rules, i);
        settings_follow_a_rule(attrs, rules, k);
        let a = choose|j: int|
            0 <= j < rules.len() && (#[trigger] rules[j]).0 == clean_key(settings[i].0)
                && rules[j].1 == settings[i].1;
        let b = choose|j: int|
            0 <= j < rules.len() && (#[trigger] rules[j]).0 == clean_key(settings[k].0)
                && rules[j].1 == settings[k].1;
        assert(rules[a].0 == rules[b].0);
        assert(a == b);
    }
    no_deviation_means_all_set(bios, settings);
}

proof fn keys_named_by_keys(a: ObjectView, b: ObjectView, name: Seq<char>)
    requires
        same_keys(a, b),
    ensures
        keys_named(a, name) == keys_named(b, name),
    decreases a.len(),
{
    if a.len() > 0 {
        assert(a[a.len() - 1].0 == b[b.len() - 1].0);
        assert forall|i: int| 0 <= i < a.len() - 1 implies (#[trigger] a.drop_last()[i]).0
            == b.drop_last()[i].0 by {
            assert(a[i].0 == b[i].0);
        }
        keys_named_by_keys(a.drop_last(), b.drop_last(), name);
    }
}

proof fn ruled_by_keys(a: ObjectView, b: ObjectView, rules: Seq<(Seq<char>, JsonView)>)
    requires
        same_keys(a, b),
    ensures
        all_ruled(a, rules) == all_ruled(b, rules),
    decreases rules.len(),
{
    if rules.len() > 0 {
        ruled_by_keys(a, b, rules.drop_last());
        keys_named_by_keys(a, b, rules.last().0);
    }
}

pub(crate) proof fn first_of_is_first(s: Seq<char>, c: char)
    ensures
        match first_of(s, c) {
            Some(i) => 0 <= i < s.len() && s[i] == c && forall|k: int|
                0 <= k < i ==> #[trigger] s[k] != c,
            None => forall|k: int| 0 <= k < s.len() ==> #[trigger] s[k] != c,
        },
    decreases s.len(),
{
    if s.len() > 0 && s[0] != c {
        let rest = s.drop_first();
        first_of_is_first(rest, c);
        assert forall|k: int| 0 < k < s.len() implies #[trigger] s[k] == rest[k - 1] by {}
    }
}

pub(crate) proof fn last_of_is_there(s: Seq<char>, c: char)
    ensures
        match last_of(s, c) {
            Some(i) => 0 <= i < s.len() && s[i] == c,
            None => forall|k: int| 0 <= k < s.len() ==> #[trigger] s[k] != c,
        },
    decreases s.len(),
{
    if s.len() > 0 && s.last() != c {
        let init = s.drop_last();
        last_of_is_there(init, c);
        assert forall|k: int| 0 <= k < s.len() - 1 implies #[trigger] s[k] == init[k] by {}
    }
}

proof fn trimming_stops(s: Seq<char>, c: char, n: int)
    requires
        0 < n <= s.len(),
        s[n - 1] != c,
    ensures
        n <= without_trailing(s, c).len() <= s.len(),
        without_trailing(s, c) == s.take(without_trailing(s, c).len() as int),
    decreases s.len(),
{
    if s.last() == c {
        trimming_stops(s.drop_last(), c, n);
        let r = without_trailing(s, c);
        assert(s.drop_last().take(r.len() as int) =~= s.take(r.len() as int));
    } else {
        assert(s.take(s.len() as int) =~= s);
    }
}

/// Whether an attribute is one that can turn the TPM on or off.
pub open spec fn tpm_key(key: Seq<char>) -> bool {
    begins(before_first(key, '_'), "SecurityDeviceSupport"@)
}

proof fn tpm_keys_have_tpm_names(key: Seq<char>)
    requires
        tpm_key(key),
    ensures
        begins(clean_key(key), "SecurityDeviceSupport"@),
{
    let name = "SecurityDeviceSupport"@;
    reveal_strlit("SecurityDeviceSupport");
    assert(name.len() == 21);
    first_of_is_first(key, '_');
    last_of_is_there(key, '_');
    let head = before_first(key, '_');
    assert(head.subrange(0, 21) =~= key.subrange(0, 21));
    if let Some(l) = last_of(key, '_') {
        let f = first_of(key, '_')->0;
        assert(key[f - 1] != '_');
        let start = key.take(l);
        if l < f {
            assert(key[l] != '_');
        }
        assert(start[f - 1] == key[f - 1]);
        trimming_stops(start, '_', f);
        let r = clean_key(key);
        assert(start.take(r.len() as int) =~= key.take(r.len() as int));
        assert(r.subrange(0, 21) =~= key.subrange(0, 21));
    }
}

proof fn only_the_tpm_rule(word: Seq<char>, j: int)
    requires
        0 <= j < rules_with_tpm(word).len(),
        begins(rules_with_tpm(word)[j].0, "SecurityDeviceSupport"@),
    ensures
        rules_with_tpm(word)[j].1 == JsonView::Text(word),
{
    reveal_strlit("QuietBoot");
    reveal_strlit("Re-tryBoot");
    reveal_strlit("CSMSupport");
    reveal_strlit("SecureBootEnable");
    reveal_strlit("TXTSupport");
    reveal_strlit("DeviceSelect");
    reveal_strlit("IntelVTforDirectedI/O(VT-d)");
    reveal_strlit("IntelVirtualizationTechnology");
    reveal_strlit("SR-IOVSupport");
    reveal_strlit("SR_IOVSupport");
    reveal_strlit("IPv4HTTPSupport");
    reveal_strlit("IPv4PXESupport");
    reveal_strlit("IPv6HTTPSupport");
    reveal_strlit("IPv6PXESupport");
    reveal_strlit("SecurityDeviceSupport");
    let name = "SecurityDeviceSupport"@;
    let rules = rules_with_tpm(word);
    assert(name.len() == 21 && name[0] == 'S');
    assert(rules[j].0.subrange(0, 21)[0] == rules[j].0[0]);
    assert(rules.len() == 15);
    assert(rules[6].0[0] == 'I');
    assert(rules[7].0[0] == 'I');
    if j < 14 {
        assert(j == 6 || j == 7 || rules[j].0.len() < 21);
    }
}

proof fn first_with_key_is_found(o: ObjectView, i: int)
    requires
        0 <= i < o.len(),
        forall|k: int| 0 <= k < i ==> (#[trigger] o[k]).0 != o[i].0,
    ensures
        lookup(o, o[i].0) == Some(o[i].1),
    decreases o.len(),
{
    if i > 0 {
        assert(o[0].0 != o[i].0);
        let rest = o.drop_first();
        assert forall|k: int| 0 <= k < i - 1 implies (#[trigger] rest[k]).0 != o[i].0 by {
            assert(rest[k] == o[k + 1]);
        }
        first_with_key_is_found(rest, i - 1);
    }
}

/// The word that turns the TPM on stays the same once the TPM is on.
proof fn tpm_word_stays(attrs: ObjectView, word: Seq<char>)
    requires
        tpm_enabled(JsonView::Object(attrs)) == Ok::<_, ErrorView>(word),
        same_keys(attrs, extended(attrs, settings_with_tpm(attrs, word))),
    ensures
        tpm_enabled(
            JsonView::Object(extended(attrs, settings_with_tpm(attrs, word))),
        ) == Ok::<_, ErrorView>(word),
{
    reveal_strlit("Enabled");
    reveal_strlit("Disabled");
    reveal_strlit("Enable");
    assert("Enabled"@.len() == 7 && "Disabled"@.len() == 8 && "Enable"@.len() == 6);
    let rules = rules_with_tpm(word);
    let settings = settings_with_tpm(attrs, word);
    let after = extended(attrs, settings);
    let p = |e: (Seq<char>, JsonView)|
        begins(before_first(e.0, '_'), "SecurityDeviceSupport"@);
    first_where_is_first(attrs, p);
    let i = first_where(attrs, p)->0;
    let key = attrs[i].0;
    assert(after[i].0 == key);
    assert forall|k: int| 0 <= k < i implies !p(#[trigger] after[k]) && (#[trigger] after[k]).0
        != key && attrs[k].0 != key by {
        assert(!p(attrs[k]));
        assert(attrs[k].0 == after[k].0);
    }
    first_where_found(after, p, i);
    assert forall|k: int| 0 <= k < i implies (#[trigger] attrs[k]).0 != key by {
        assert(!p(after[k]));
    }
    first_with_key_is_found(after, i);
    first_with_key_is_found(attrs, i);
    extended_is_found(attrs, settings, key);
    last_value_is_an_entry(settings, key);
    if let Some(v) = last_value(settings, key) {
        let k = choose|k: int| 0 <= k < settings.len() && #[trigger] settings[k] == (key, v);
        assert(rules.drop_last() =~= setup_rules());
        assert(settings == all_ruled(attrs, rules));
        settings_follow_a_rule(attrs, rules, k);
        let j = choose|j: int|
            0 <= j < rules.len() && (#[trigger] rules[j]).0 == clean_key(settings[k].0)
                && rules[j].1 == settings[k].1;
        tpm_keys_have_tpm_names(key);
        only_the_tpm_rule(word, j);
    }
}

pub(crate) proof fn settings_are_of_the_machine(
    attrs: ObjectView,
    rules: Seq<(Seq<char>, JsonView)>,
    k: int,
)
    requires
        0 <= k < all_ruled(attrs, rules).len(),
    ensures
        has_key(attrs, all_ruled(attrs, rules)[k].0),
    decreases rules.len(),
{
    if rules.len() > 0 {
        let init = rules.drop_last();
        let before = all_ruled(attrs, init);
        if k < before.len() {
            settings_are_of_the_machine(attrs, init, k);
        } else {
            let keys = keys_named(attrs, rules.last().0);
            let key = keys[k - before.len()];
            assert(keys.contains(key));
            name_map_groups_by_canonical_name(attrs, rules.last().0);
            name_map_partitions(attrs, rules.last().0, key);
        }
    }
}

/// What was set up is read back: where a machine with the BIOS attributes `attrs`
/// can be set up, and has taken the settings, the settings that it should have are
/// the same as before, and none deviates.
pub proof fn setup_leaves_no_deviation(attrs: ObjectView, settings: ObjectView)
    requires
        Bmc::setup_attrs(attrs, JsonView::Object(attrs)) == Ok::<_, ErrorView>(settings),
    ensures
        ({
            let after = extended(attrs, settings);
            &&& Bmc::setup_attrs(after, JsonView::Object(after)) == Ok::<_, ErrorView>(settings)
            &&& attribute_diffs(JsonView::Object(after), settings).len() == 0
        }),
{
    let word = tpm_enabled(JsonView::Object(attrs))->Ok_0;
    let rules = rules_with_tpm(word);
    let after = extended(attrs, settings);
    assert(rules.drop_last() =~= setup_rules());
    assert(settings == settings_with_tpm(attrs, word));
    assert(settings == all_ruled(attrs, rules));
    assert forall|k: int| 0 <= k < settings.len() implies has_key(
        attrs,
        (#[trigger] settings[k]).0,
    ) by {
        settings_are_of_the_machine(attrs, rules, k);
    }
    extended_keeps_keys(attrs, settings);
    ruled_by_keys(attrs, after, rules);
    tpm_word_stays(attrs, word);
    assert(all_ruled(after, rules) == settings_with_tpm(after, word));
    settings_are_found(attrs, word);
}

/// A fixed boot order that makes the DPU the first device has no deviation: what
/// `set_boot_order_dpu_first` sets is what `is_boot_order_setup` looks for,
/// provided that the entry for the network names the category.
pub proof fn fixed_order_is_read_back(f: FixedBootOrder, mac: Seq<char>)
    requires
        f.fixed_boot_order@.len() >= 2,
        device_position(f.uefi_network.deep_view(), mac) is Some,
        network_category(category_entry(f.fixed_boot_order.deep_view(), NETWORK@)),
    ensures
        ({
            let entries = f.fixed_boot_order.deep_view();
            let network = f.uefi_network.deep_view();
            let order = two_enabled(
                category_entry(entries, NETWORK@),
                category_entry(entries, HARD_DISK@),
                entries.len(),
            );
            let devices = swapped_first(network, device_position(network, mac)->0);
            &&& dpu_first_body(f, mac) matches Ok(body) && body == fixed_order_body(order, devices)
            &&& fixed_diff(order, devices, mac) is None
        }),
{
    let network = f.uefi_network.deep_view();
    let p = |entry: Seq<char>| option_matches_mac(entry, mac);
    first_where_is_first(network, p);
    let i = device_position(network, mac)->0;
    let devices = swapped_first(network, i);
    assert(devices[0] == network[i]);
    first_where_found(devices, p, 0);
}

/// A standard boot order that starts with the reference of the DPU has no
/// deviation: what `set_boot_order_dpu_first` sets is what `is_boot_order_setup`
/// looks for. References have no colon in them.
pub proof fn standard_order_is_read_back(
    order: Seq<Seq<char>>,
    options: Seq<BootOption>,
    mac: Seq<char>,
)
    requires
        option_for_mac(options, mac) matches Some(option) && reference_of(
            option.boot_option_reference@,
        ) == option.boot_option_reference@,
    ensures
        standard_diff(
            target_first(order, option_for_mac(options, mac)->0.boot_option_reference@),
            options,
            mac,
        ) is None,
{
    target_first_is_first(order, option_for_mac(options, mac)->0.boot_option_reference@);
}

/// A machine without a standard boot order has its fixed one changed instead, and
/// nothing is sent for the standard one.
pub proof fn empty_order_selects_the_fixed_one(
    bmc: Bmc,
    interface: BootInterfaceRef,
    mac: Seq<char>,
    system: ComputerSystem,
    t: Tape,
    u: Tape,
    w: Tape,
)
    requires
        bmc.s.boot_interface_mac_flow(interface, t) == Flow::Ready(mac, u),
        bmc.s.system_flow(u) == Flow::Ready(system, w),
        system.boot.boot_order@.len() == 0,
    ensures
        bmc.set_boot_order_dpu_first_flow(interface, t) == bmc.fixed_dpu_first_flow(mac, w),
{
    assert(system.boot.boot_order.deep_view().len() == 0);
}

/// A standard boot order that boots the DPU first is left alone: nothing is sent.
pub proof fn order_that_is_set_up_is_left_alone(
    bmc: Bmc,
    interface: BootInterfaceRef,
    mac: Seq<char>,
    system: ComputerSystem,
    options: References,
    t: Tape,
    u: Tape,
    w: Tape,
    x: Tape,
    y: Tape,
)
    requires
        bmc.s.boot_interface_mac_flow(interface, t) == Flow::Ready(mac, u),
        bmc.s.system_flow(u) == Flow::Ready(system, w),
        fetched::<References>(get(bmc.s.system_path("/BootOptions"@)), w) == Flow::Ready(
            options,
            x,
        ),
        system.boot.boot_order@.len() > 0,
        bmc.reference_among(options.members@, mac, x) == Flow::Ready(
            reference_of(system.boot.boot_order.deep_view()[0]),
            y,
        ),
    ensures
        bmc.set_boot_order_dpu_first_flow(interface, t) == Flow::<Option<Seq<char>>>::Ready(
            None,
            y,
        ),
{
}

/// A machine that cannot boot without its host interfaces keeps them when it is
/// locked: none is looked at or changed.
pub proof fn needed_host_interfaces_are_kept(bmc: Bmc, t: Tape, u: Tape)
    requires
        bmc.is_ars_121l_dnr_flow(t) == Flow::Ready(true, u),
    ensures
        bmc.lock_flow(t) == bmc.set_kcs_privilege_flow(Privilege::Callback, u).and_then(
            |done: (), t: Tape| sent(bmc.syslockdown_request(EnabledDisabled::Enabled), t),
        ),
{
}

/// Swapping a network device to the front keeps all devices.
pub proof fn swapping_keeps_devices<T>(s: Seq<T>, i: int)
    requires
        0 <= i < s.len(),
    ensures
        swapped_first(s, i).to_multiset() == s.to_multiset(),
{
    broadcast use vstd::seq_lib::group_to_multiset_ensures;

    let once = s.update(0, s[i]);
    vstd::seq_lib::to_multiset_update(s, 0, s[i]);
    vstd::seq_lib::to_multiset_update(once, i, s[0]);
    assert(swapped_first(s, i).to_multiset() =~= s.to_multiset());
}

/// Whether a boot option matches a MAC address does not depend on the case in
/// which the address is written.
pub proof fn mac_matches_in_any_case(display_name: Seq<char>, mac: Seq<char>, other: Seq<char>)
    requires
        upper(mac) == upper(other),
    ensures
        option_matches_mac(display_name, mac) == option_matches_mac(display_name, other),
{
}

} // verus!
