//! How Supermicro machines are set up and locked.
use crate::error::{generic, outcome, ErrorView, RedfishError};
use crate::json::{
    as_text, member, rendered, texts_model, unique_keys, Entry, Json, JsonView, Object, ObjectView,
};
use crate::model::{
    ComponentType, DiffView, EnableDisable, EnabledDisabled, MachineSetupDiff, Privilege, Report,
    Status, StatusInternal, StatusView,
};
use crate::outside::VersionOrder;
use crate::search::{
    first_where, first_where_absent, first_where_found, first_where_is_first, found_where,
};
use crate::text::{
    before_first, begins, cat3, cat4, head, last_of, same, split_last, starts_with, trim_end_char,
    without_trailing,
};
use vstd::prelude::*;
use vstd::string::*;

verus! {

/// Minimum BMC firmware version that exposes `IPMIHostInterface` on
/// `Systems/{id}` for MGX C2 systems.
pub const MIN_BMC_FW_IPMI_HOST_IFACE: &'static str = "01.05.01";

/// The canonical name of a BIOS attribute: `QuietBoot` of `QuietBoot_002E`.
pub open spec fn clean_key(key: Seq<char>) -> Seq<char> {
    match last_of(key, '_') {
        Some(i) => without_trailing(key.take(i), '_'),
        None => key,
    }
}

/// The canonical name of a BIOS attribute.
pub fn canonical_name<'a>(key: &'a str) -> (r: &'a str)
    ensures
        r@ == clean_key(key@),
{
    match split_last(key, '_') {
        Some((name, _suffix)) => trim_end_char(name, '_'),
        None => key,
    }
}

/// Attribute names by their canonical name.
pub type NameMapView = Seq<(Seq<char>, Seq<Seq<char>>)>;

/// Whether a group is that of the canonical name `name`.
pub open spec fn is_group_of(name: Seq<char>) -> spec_fn((Seq<char>, Seq<Seq<char>>)) -> bool {
    |g: (Seq<char>, Seq<Seq<char>>)| g.0 == name
}

/// The attribute names with the canonical name `name`.
pub open spec fn group_of(m: NameMapView, name: Seq<char>) -> Seq<Seq<char>> {
    match found_where(m, is_group_of(name)) {
        Some(g) => g.1,
        None => Seq::empty(),
    }
}

/// `m` with `key` added under the canonical name `name`.
pub open spec fn added(m: NameMapView, name: Seq<char>, key: Seq<char>) -> NameMapView {
    match first_where(m, is_group_of(name)) {
        Some(i) => m.update(i, (name, m[i].1.push(key))),
        None => m.push((name, seq![key])),
    }
}

/// The names of the attributes by their canonical names, such as `QuietBoot` ->
/// `[QuietBoot_002E]` or `TXTSupport` -> `[TXTSupport_0062, TXTSupport_0072]`.
pub open spec fn name_map(attrs: ObjectView) -> NameMapView
    decreases attrs.len(),
{
    if attrs.len() == 0 {
        Seq::empty()
    } else {
        added(name_map(attrs.drop_last()), clean_key(attrs.last().0), attrs.last().0)
    }
}

/// The names of those attributes that have the canonical name `name`, in the order
/// in which they stand.
pub open spec fn keys_named(attrs: ObjectView, name: Seq<char>) -> Seq<Seq<char>>
    decreases attrs.len(),
{
    if attrs.len() == 0 {
        Seq::empty()
    } else if clean_key(attrs.last().0) == name {
        keys_named(attrs.drop_last(), name).push(attrs.last().0)
    } else {
        keys_named(attrs.drop_last(), name)
    }
}

/// Adding a name changes its own group and no other.
proof fn added_to_one_group(m: NameMapView, name: Seq<char>, key: Seq<char>, other: Seq<char>)
    ensures
        group_of(added(m, name, key), other) == (if other == name {
            group_of(m, name).push(key)
        } else {
            group_of(m, other)
        }),
{
    let is_name = is_group_of(name);
    let is_other = is_group_of(other);
    let r = added(m, name, key);
    first_where_is_first(m, is_name);
    first_where_is_first(m, is_other);
    match first_where(m, is_name) {
        Some(i) => {
            assert forall|k: int| 0 <= k < m.len() implies (#[trigger] r[k]).0 == m[k].0 by {}
            match first_where(m, is_other) {
                Some(j) => {
                    assert forall|k: int| 0 <= k < j implies !is_other(#[trigger] r[k]) by {
                        assert(!is_other(m[k]));
                    }
                    first_where_found(r, is_other, j);
                },
                None => {
                    assert forall|k: int| 0 <= k < r.len() implies !is_other(#[trigger] r[k]) by {
                        assert(!is_other(m[k]));
                    }
                    first_where_absent(r, is_other);
                },
            }
        },
        None => {
            assert forall|k: int| 0 <= k < m.len() implies #[trigger] r[k] == m[k] by {}
            match first_where(m, is_other) {
                Some(j) => {
                    first_where_found(r, is_other, j);
                },
                None => {
                    if other == name {
                        assert forall|k: int| 0 <= k < m.len() implies !is_other(
                            #[trigger] r[k],
                        ) by {
                            assert(!is_other(m[k]));
                        }
                        first_where_found(r, is_other, m.len() as int);
                        assert(group_of(m, name).push(key) =~= seq![key]);
                    } else {
                        assert forall|k: int| 0 <= k < r.len() implies !is_other(
                            #[trigger] r[k],
                        ) by {
                            if k < m.len() {
                                assert(!is_other(m[k]));
                            }
                        }
                        first_where_absent(r, is_other);
                    }
                },
            }
        },
    }
}

/// The group of a canonical name holds exactly the attribute names that have it.
pub proof fn name_map_groups_by_canonical_name(attrs: ObjectView, name: Seq<char>)
    ensures
        group_of(name_map(attrs), name) == keys_named(attrs, name),
    decreases attrs.len(),
{
    if attrs.len() > 0 {
        name_map_groups_by_canonical_name(attrs.drop_last(), name);
        name_map_groups_by_canonical_name(attrs.drop_last(), clean_key(attrs.last().0));
        added_to_one_group(
            name_map(attrs.drop_last()),
            clean_key(attrs.last().0),
            attrs.last().0,
            name,
        );
    } else {
        assert(first_where(name_map(attrs), is_group_of(name)) is None);
    }
}

/// Every attribute name stands in the group of its canonical name, and a name in a
/// group is an attribute with that canonical name.
pub proof fn name_map_partitions(attrs: ObjectView, name: Seq<char>, key: Seq<char>)
    ensures
        group_of(name_map(attrs), name).contains(key) <==> clean_key(key) == name && exists|i: int|
            0 <= i < attrs.len() && (#[trigger] attrs[i]).0 == key,
{
    name_map_groups_by_canonical_name(attrs, name);
    keys_named_are_keys(attrs, name, key);
}

proof fn keys_named_are_keys(attrs: ObjectView, name: Seq<char>, key: Seq<char>)
    ensures
        keys_named(attrs, name).contains(key) <==> clean_key(key) == name && exists|i: int|
            0 <= i < attrs.len() && (#[trigger] attrs[i]).0 == key,
    decreases attrs.len(),
{
    if attrs.len() > 0 {
        let init = attrs.drop_last();
        let before = keys_named(init, name);
        keys_named_are_keys(init, name, key);
        if clean_key(attrs.last().0) == name {
            let all = before.push(attrs.last().0);
            if before.contains(key) {
                let k = choose|k: int| 0 <= k < before.len() && before[k] == key;
                assert(all[k] == key);
            }
            if attrs.last().0 == key {
                assert(all[before.len() as int] == key);
            }
            if all.contains(key) {
                let k = choose|k: int| 0 <= k < all.len() && all[k] == key;
                if k < before.len() {
                    assert(before[k] == key);
                }
            }
        }
        if exists|i: int| 0 <= i < attrs.len() && (#[trigger] attrs[i]).0 == key {
            let i = choose|i: int| 0 <= i < attrs.len() && (#[trigger] attrs[i]).0 == key;
            if i < init.len() {
                assert(init[i].0 == key);
            } else {
                assert(attrs.last().0 == key);
            }
        }
        if exists|i: int| 0 <= i < init.len() && (#[trigger] init[i]).0 == key {
            let i = choose|i: int| 0 <= i < init.len() && (#[trigger] init[i]).0 == key;
            assert(attrs[i].0 == key);
        }
        if attrs.last().0 == key {
            assert(attrs[attrs.len() - 1].0 == key);
        }
    }
}

/// Whether a name map has one group for each canonical name, and none without names.
pub open spec fn one_group_each(m: NameMapView) -> bool {
    &&& forall|i: int, j: int|
        0 <= i < m.len() && 0 <= j < m.len() && (#[trigger] m[i]).0 == (#[trigger] m[j]).0 ==> i
            == j
    &&& forall|i: int| 0 <= i < m.len() ==> (#[trigger] m[i]).1.len() > 0
}

/// Whether no name stands twice in a name map, in one group or in two.
pub open spec fn each_name_once(m: NameMapView) -> bool {
    forall|i: int, a: int, j: int, b: int|
        0 <= i < m.len() && 0 <= j < m.len() && 0 <= a < m[i].1.len() && 0 <= b < m[j].1.len()
            && #[trigger] m[i].1[a] == #[trigger] m[j].1[b] ==> i == j && a == b
}

proof fn added_keeps_one_group_each(m: NameMapView, name: Seq<char>, key: Seq<char>)
    requires
        one_group_each(m),
    ensures
        one_group_each(added(m, name, key)),
{
    let r = added(m, name, key);
    let p = is_group_of(name);
    first_where_is_first(m, p);
    assert forall|i: int, j: int|
        0 <= i < r.len() && 0 <= j < r.len() && (#[trigger] r[i]).0 == (
        #[trigger] r[j]).0 implies i == j by {
        if i < m.len() {
            assert(r[i].0 == m[i].0);
            if first_where(m, p) is None {
                assert(!p(m[i]));
            }
        }
        if j < m.len() {
            assert(r[j].0 == m[j].0);
            if first_where(m, p) is None {
                assert(!p(m[j]));
            }
        }
    }
    assert forall|i: int| 0 <= i < r.len() implies (#[trigger] r[i]).1.len() > 0 by {
        if i < m.len() {
            assert(m[i].1.len() > 0);
        }
    }
}

proof fn keys_named_once(attrs: ObjectView, name: Seq<char>)
    requires
        unique_keys(attrs),
    ensures
        keys_named(attrs, name).no_duplicates(),
    decreases attrs.len(),
{
    if attrs.len() > 0 {
        let init = attrs.drop_last();
        assert forall|i: int, j: int|
            0 <= i < init.len() && 0 <= j < init.len() && (#[trigger] init[i]).0 == (
            #[trigger] init[j]).0 implies i == j by {
            assert(attrs[i].0 == attrs[j].0);
        }
        keys_named_once(init, name);
        let last = attrs[attrs.len() - 1].0;
        keys_named_are_keys(init, name, last);
        if keys_named(init, name).contains(last) {
            let i = choose|i: int| 0 <= i < init.len() && (#[trigger] init[i]).0 == last;
            assert(attrs[i].0 == last);
        }
    }
}

/// The groups of a name map are what their names say: there is one for each canonical
/// name that some attribute has, and none without attributes.
pub proof fn name_map_has_one_group_each(attrs: ObjectView)
    ensures
        one_group_each(name_map(attrs)),
        forall|i: int|
            0 <= i < name_map(attrs).len() ==> (#[trigger] name_map(attrs)[i]).1 == keys_named(
                attrs,
                name_map(attrs)[i].0,
            ),
    decreases attrs.len(),
{
    let m = name_map(attrs);
    if attrs.len() > 0 {
        name_map_has_one_group_each(attrs.drop_last());
        added_keeps_one_group_each(
            name_map(attrs.drop_last()),
            clean_key(attrs.last().0),
            attrs.last().0,
        );
    }
    assert forall|i: int| 0 <= i < m.len() implies (#[trigger] m[i]).1 == keys_named(
        attrs,
        m[i].0,
    ) by {
        let p = is_group_of(m[i].0);
        assert forall|k: int| 0 <= k < i implies !p(#[trigger] m[k]) by {
            assert(m[k].0 != m[i].0);
        }
        first_where_found(m, p, i);
        name_map_groups_by_canonical_name(attrs, m[i].0);
    }
}

/// Where no attribute stands twice, none does in the groups of its name map.
pub proof fn name_map_has_each_name_once(attrs: ObjectView)
    requires
        unique_keys(attrs),
    ensures
        each_name_once(name_map(attrs)),
{
    let m = name_map(attrs);
    name_map_has_one_group_each(attrs);
    assert forall|i: int, a: int, j: int, b: int|
        0 <= i < m.len() && 0 <= j < m.len() && 0 <= a < m[i].1.len() && 0 <= b < m[j].1.len()
            && #[trigger] m[i].1[a] == #[trigger] m[j].1[b] implies i == j && a == b by {
        let key = m[i].1[a];
        assert(m[i].1 == keys_named(attrs, m[i].0));
        assert(m[j].1 == keys_named(attrs, m[j].0));
        assert(m[i].1.contains(key) && m[j].1.contains(key));
        keys_named_are_keys(attrs, m[i].0, key);
        keys_named_are_keys(attrs, m[j].0, key);
        assert(m[i].0 == m[j].0);
        keys_named_once(attrs, m[i].0);
    }
}

/// The attribute names with one canonical name.
#[derive(Debug, PartialEq, Eq)]
pub struct Group {
    pub name: String,
    pub keys: Vec<String>,
}

impl DeepView for Group {
    type V = (Seq<char>, Seq<Seq<char>>);

    open spec fn deep_view(&self) -> (Seq<char>, Seq<Seq<char>>) {
        (self.name@, self.keys.deep_view())
    }
}

/// The place of the group with the canonical name `name`.
fn find_group(m: &Vec<Group>, name: &str) -> (r: Option<usize>)
    ensures
        match first_where(m.deep_view(), is_group_of(name@)) {
            Some(i) => (r matches Some(p) && p == i) && 0 <= i < m.len(),
            None => r is None,
        },
{
    let ghost all = m.deep_view();
    let ghost p = is_group_of(name@);
    let mut i: usize = 0;
    while i < m.len()
        invariant
            i <= m.len(),
            all == m.deep_view(),
            p == is_group_of(name@),
            forall|k: int| 0 <= k < i ==> !p(#[trigger] all[k]),
        decreases m.len() - i,
    {
        assert(all[i as int] == m@[i as int].deep_view());
        if same(m[i].name.as_str(), name) {
            proof {
                first_where_found(all, p, i as int);
            }
            return Some(i);
        }
        i = i + 1;
    }
    proof {
        first_where_absent(all, p);
    }
    None
}

/// The names of the attributes by their canonical names.
pub fn group_names(attrs: &Object) -> (r: Vec<Group>)
    ensures
        r.deep_view() == name_map(attrs@),
{
    let ghost all = attrs@;
    let mut m: Vec<Group> = Vec::new();
    let mut i: usize = 0;
    assert(m.deep_view() =~= name_map(all.take(0)));
    while i < attrs.entries.len()
        invariant
            i <= attrs.entries.len(),
            all == attrs@,
            m.deep_view() == name_map(all.take(i as int)),
        decreases attrs.entries.len() - i,
    {
        let ghost before = m.deep_view();
        let key = attrs.entries[i].key.as_str();
        assert(all[i as int].0 == key@);
        assert(all.take(i + 1).drop_last() =~= all.take(i as int));
        let name = canonical_name(key);
        match find_group(&m, name) {
            Some(j) => {
                proof {
                    first_where_is_first(before, is_group_of(name@));
                }
                let ghost groups = m@;
                let mut group = m.remove(j);
                let ghost keys = group.keys.deep_view();
                assert(before[j as int] == group.deep_view());
                group.keys.push(key.to_owned());
                assert(group.keys.deep_view() =~= keys.push(key@));
                m.insert(j, group);
                assert(m@ =~= groups.update(j as int, group));
                assert(m.deep_view() =~= before.update(j as int, (name@, keys.push(key@))));
            },
            None => {
                let mut keys: Vec<String> = Vec::new();
                keys.push(key.to_owned());
                assert(keys.deep_view() =~= seq![key@]);
                m.push(Group { name: name.to_owned(), keys });
                assert(m.deep_view() =~= before.push((name@, seq![key@])));
            },
        }
        assert(m.deep_view() == added(before, name@, key@));
        i = i + 1;
    }
    assert(all.take(i as int) =~= all);
    m
}

/// What the BIOS attributes of a machine that is set up should be, by their
/// canonical names. Not that some are "Enable" and some are "Enabled". Subtle.
pub open spec fn setup_rules() -> Seq<(Seq<char>, JsonView)> {
    seq![
        ("QuietBoot"@, JsonView::Bool(false)),
        ("Re-tryBoot"@, JsonView::Text("EFI Boot"@)),
        ("CSMSupport"@, JsonView::Text("Disabled"@)),
        ("SecureBootEnable"@, JsonView::Bool(false)),
        ("TXTSupport"@, JsonView::Text(EnabledDisabled::Enabled.text())),
        ("DeviceSelect"@, JsonView::Text("TPM 2.0"@)),
        ("IntelVTforDirectedI/O(VT-d)"@, JsonView::Text(EnableDisable::Enable.text())),
        ("IntelVirtualizationTechnology"@, JsonView::Text(EnableDisable::Enable.text())),
        ("SR-IOVSupport"@, JsonView::Text(EnabledDisabled::Enabled.text())),
        ("SR_IOVSupport"@, JsonView::Text(EnabledDisabled::Enabled.text())),
        ("IPv4HTTPSupport"@, JsonView::Text(EnabledDisabled::Enabled.text())),
        ("IPv4PXESupport"@, JsonView::Text(EnabledDisabled::Disabled.text())),
        ("IPv6HTTPSupport"@, JsonView::Text(EnabledDisabled::Disabled.text())),
        ("IPv6PXESupport"@, JsonView::Text(EnabledDisabled::Disabled.text())),
    ]
}

/// The attributes that have the canonical name of a rule, each with the value of
/// the rule.
pub open spec fn ruled(attrs: ObjectView, rule: (Seq<char>, JsonView)) -> ObjectView {
    keys_named(attrs, rule.0).map_values(|key: Seq<char>| (key, rule.1))
}

/// The attributes that the rules speak of, each with the value that it should
/// have.
pub open spec fn all_ruled(attrs: ObjectView, rules: Seq<(Seq<char>, JsonView)>) -> ObjectView
    decreases rules.len(),
{
    if rules.len() == 0 {
        Seq::empty()
    } else {
        all_ruled(attrs, rules.drop_last()) + ruled(attrs, rules.last())
    }
}

/// The value of the attribute that turns the TPM on or off, where it is a string.
pub open spec fn tpm_value(current: JsonView) -> Option<Seq<char>> {
    match current {
        JsonView::Object(o) => match found_where(
            o,
            |e: (Seq<char>, JsonView)|
                begins(before_first(e.0, '_'), "SecurityDeviceSupport"@),
        ) {
            Some(e) => as_text(Some(e.1)),
            None => None,
        },
        _ => None,
    }
}

/// The value that turns the TPM on, in the words in which the machine now says
/// whether it is on.
pub open spec fn tpm_enabled(current: JsonView) -> Result<Seq<char>, ErrorView> {
    match tpm_value(current) {
        Some(value) => if value == EnabledDisabled::Enabled.text() || value
            == EnabledDisabled::Disabled.text() {
            Ok(EnabledDisabled::Enabled.text())
        } else if value == EnableDisable::Enable.text() || value == EnableDisable::Disable.text() {
            Ok(EnableDisable::Enable.text())
        } else {
            Err(ErrorView::GenericError { error: "Unexpected SecurityDeviceSupport value"@ })
        },
        None => Err(ErrorView::GenericError { error: "Missing SecurityDeviceSupport value"@ }),
    }
}

/// The value of the attribute that turns the TPM on or off, where it is a string.
fn find_tpm_value<'a>(current: &'a Json) -> (r: Option<&'a str>)
    ensures
        r.deep_view() == tpm_value(current@),
{
    let Some(attrs) = current.as_object() else {
        return None;
    };
    let ghost all = attrs@;
    let ghost p = |e: (Seq<char>, JsonView)|
        begins(before_first(e.0, '_'), "SecurityDeviceSupport"@);
    let mut i: usize = 0;
    while i < attrs.entries.len()
        invariant
            i <= attrs.entries.len(),
            all == attrs@,
            current@ == JsonView::Object(all),
            p == (|e: (Seq<char>, JsonView)|
                begins(before_first(e.0, '_'), "SecurityDeviceSupport"@)),
            forall|k: int| 0 <= k < i ==> !p(#[trigger] all[k]),
        decreases attrs.entries.len() - i,
    {
        let entry = &attrs.entries[i];
        assert(all[i as int] == (entry.key@, entry.value@));
        if starts_with(head(entry.key.as_str(), '_'), "SecurityDeviceSupport") {
            proof {
                first_where_found(all, p, i as int);
            }
            return entry.value.as_str();
        }
        i = i + 1;
    }
    proof {
        first_where_absent(all, p);
    }
    None
}

/// The value that turns the TPM on, in the words of the machine.
pub fn tpm_on(current: &Json) -> (r: Result<&'static str, RedfishError>)
    ensures
        outcome(r) == tpm_enabled(current@),
{
    match find_tpm_value(current) {
        Some(value) => if same(value, EnabledDisabled::Enabled.name()) || same(
            value,
            EnabledDisabled::Disabled.name(),
        ) {
            Ok(EnabledDisabled::Enabled.name())
        } else if same(value, EnableDisable::Enable.name()) || same(
            value,
            EnableDisable::Disable.name(),
        ) {
            Ok(EnableDisable::Enable.name())
        } else {
            Err(generic("Unexpected SecurityDeviceSupport value"))
        },
        None => Err(generic("Missing SecurityDeviceSupport value")),
    }
}

/// Adds the attributes of the group `name`, each with the value `value`.
pub fn add_keys(m: &Vec<Group>, name: &str, value: &Json, attrs: Object) -> (r: Object)
    ensures
        r@ == attrs@ + group_of(m.deep_view(), name@).map_values(
            |key: Seq<char>| (key, value@),
        ),
{
    let ghost before = attrs@;
    match find_group(m, name) {
        Some(j) => {
            let keys = &m[j].keys;
            assert(m.deep_view()[j as int] == m@[j as int].deep_view());
            let ghost more = keys.deep_view().map_values(|key: Seq<char>| (key, value@));
            let mut r = attrs;
            let mut i: usize = 0;
            assert(r@ =~= before + more.take(0));
            while i < keys.len()
                invariant
                    i <= keys.len(),
                    more == keys.deep_view().map_values(|key: Seq<char>| (key, value@)),
                    r@ == before + more.take(i as int),
                decreases keys.len() - i,
            {
                let ghost now = r@;
                r = r.with(keys[i].as_str(), value.copy());
                assert(keys.deep_view()[i as int] == keys@[i as int]@);
                assert(r@ =~= before + more.take(i + 1));
                i = i + 1;
            }
            assert(more.take(i as int) =~= more);
            r
        },
        None => {
            assert(attrs@ =~= before + Seq::<Seq<char>>::empty().map_values(
                |key: Seq<char>| (key, value@),
            ));
            attrs
        },
    }
}

/// The rules, with their values.
fn rule_list() -> (r: Vec<Entry>)
    ensures
        crate::json::entries_model(r@) == setup_rules(),
{
    let o = Object::new().with("QuietBoot", Json::Bool(false)).with_text(
        "Re-tryBoot",
        "EFI Boot",
    ).with_text("CSMSupport", "Disabled").with("SecureBootEnable", Json::Bool(false));
    // Trusted Computing / Provision Support / TXT Support
    let o = o.with_text("TXTSupport", EnabledDisabled::Enabled.name());
    // registries/BiosAttributeRegistry.1.0.0.json/index.json
    let o = o.with_text("DeviceSelect", "TPM 2.0");
    // Attributes to enable CPU virtualization support for faster VMs
    let o = o.with_text("IntelVTforDirectedI/O(VT-d)", EnableDisable::Enable.name()).with_text(
        "IntelVirtualizationTechnology",
        EnableDisable::Enable.name(),
    ).with_text("SR-IOVSupport", EnabledDisabled::Enabled.name()).with_text(
        "SR_IOVSupport",
        EnabledDisabled::Enabled.name(),
    );
    // UEFI NIC boot
    let o = o.with_text("IPv4HTTPSupport", EnabledDisabled::Enabled.name()).with_text(
        "IPv4PXESupport",
        EnabledDisabled::Disabled.name(),
    ).with_text("IPv6HTTPSupport", EnabledDisabled::Disabled.name()).with_text(
        "IPv6PXESupport",
        EnabledDisabled::Disabled.name(),
    );
    assert(o@ =~= setup_rules());
    o.entries
}

/// The attributes that the rules speak of, each with the value that it should
/// have.
pub(crate) fn apply_rules(m: &Vec<Group>, Ghost(attrs): Ghost<ObjectView>) -> (r: Object)
    requires
        m.deep_view() == name_map(attrs),
    ensures
        r@ == all_ruled(attrs, setup_rules()),
{
    let list = rule_list();
    let ghost rules = setup_rules();
    let mut r = Object::new();
    let mut i: usize = 0;
    assert(r@ =~= all_ruled(attrs, rules.take(0)));
    while i < list.len()
        invariant
            i <= list.len(),
            m.deep_view() == name_map(attrs),
            rules == crate::json::entries_model(list@),
            r@ == all_ruled(attrs, rules.take(i as int)),
        decreases list.len() - i,
    {
        assert(rules[i as int] == (list@[i as int].key@, list@[i as int].value@));
        assert(rules.take(i + 1).drop_last() =~= rules.take(i as int));
        proof {
            name_map_groups_by_canonical_name(attrs, list@[i as int].key@);
        }
        r = add_keys(m, list[i].key.as_str(), &list[i].value, r);
        i = i + 1;
    }
    assert(rules.take(i as int) =~= rules);
    r
}

/// How one attribute deviates, if it does. Values are compared by their text.
pub open spec fn attribute_diff(bios: JsonView, e: (Seq<char>, JsonView)) -> Seq<DiffView> {
    match member(bios, e.0) {
        None => seq![
            DiffView { key: e.0, expected: rendered(e.1), actual: "_missing_"@ },
        ],
        Some(actual) => if rendered(actual) == rendered(e.1) {
            Seq::empty()
        } else {
            seq![DiffView { key: e.0, expected: rendered(e.1), actual: rendered(actual) }]
        },
    }
}

/// How attributes deviate.
pub open spec fn attribute_diffs(bios: JsonView, expected: ObjectView) -> Seq<DiffView>
    decreases expected.len(),
{
    if expected.len() == 0 {
        Seq::empty()
    } else {
        attribute_diffs(bios, expected.drop_last()) + attribute_diff(bios, expected.last())
    }
}

/// Adds how attributes deviate.
pub fn add_attribute_diffs(diffs: &mut Vec<MachineSetupDiff>, bios: &Json, expected: &Object)
    ensures
        final(diffs).deep_view() == old(diffs).deep_view() + attribute_diffs(
            bios@,
            expected@,
        ),
{
    let ghost before = diffs.deep_view();
    let ghost all = expected@;
    let mut i: usize = 0;
    assert(diffs.deep_view() =~= before + attribute_diffs(bios@, all.take(0)));
    while i < expected.entries.len()
        invariant
            i <= expected.entries.len(),
            all == expected@,
            diffs.deep_view() == before + attribute_diffs(bios@, all.take(i as int)),
        decreases expected.entries.len() - i,
    {
        let ghost now = diffs.deep_view();
        let entry = &expected.entries[i];
        assert(all[i as int] == (entry.key@, entry.value@));
        assert(all.take(i + 1).drop_last() =~= all.take(i as int));
        let exp = entry.value.render();
        match bios.get(entry.key.as_str()) {
            None => {
                diffs.push(
                    MachineSetupDiff::new(entry.key.as_str(), exp.as_str(), "_missing_"),
                );
            },
            Some(actual) => {
                // expected and actual are JSON values of any type, so compare their text
                let act = actual.render();
                if !same(act.as_str(), exp.as_str()) {
                    diffs.push(
                        MachineSetupDiff::new(entry.key.as_str(), exp.as_str(), act.as_str()),
                    );
                }
            },
        }
        assert(diffs.deep_view() =~= now + attribute_diff(bios@, all[i as int]));
        assert(diffs.deep_view() =~= before + attribute_diffs(bios@, all.take(i + 1)));
        i = i + 1;
    }
    assert(all.take(i as int) =~= all);
}

/// Whether firmware that compares so to the first that has it has the host
/// interface.
pub open spec fn not_older(order: Option<VersionOrder>) -> bool {
    order matches Some(o) && o != VersionOrder::Lt
}

/// Whether firmware that compares so to the first that has it has the host
/// interface.
pub fn is_not_older(order: Option<VersionOrder>) -> (r: bool)
    ensures
        r == not_older(order),
{
    match order {
        Some(VersionOrder::Lt) => false,
        Some(_) => true,
        None => false,
    }
}

/// The text of a truth value.
pub open spec fn truth_text(b: bool) -> Seq<char> {
    if b {
        "true"@
    } else {
        "false"@
    }
}

/// The text of a truth value.
fn truth_name(b: bool) -> (r: &'static str)
    ensures
        r@ == truth_text(b),
{
    if b {
        "true"
    } else {
        "false"
    }
}

/// A privilege that may be missing, printed in full.
pub open spec fn privilege_text(p: Option<Privilege>) -> Seq<char> {
    match p {
        Some(p) => "Some(\n    "@ + p.text() + ",\n)"@,
        None => "None"@,
    }
}

/// A privilege that may be missing, printed in full.
fn privilege_name(p: Option<Privilege>) -> (r: String)
    ensures
        r@ == privilege_text(p),
{
    match p {
        Some(p) => cat3("Some(\n    ", p.name(), ",\n)"),
        None => "None".to_owned(),
    }
}

/// Whether a machine is locked: system lockdown is on, KCS takes nothing more than
/// callbacks, and the host interface is off, unless the machine has to keep it. It
/// is unlocked where system lockdown is off, KCS takes all, and the host interface
/// is on. Where KCS cannot be had, it counts for neither.
pub open spec fn lockdown_report(
    host_interface: bool,
    kcs: Option<Privilege>,
    syslockdown: bool,
    keep_host_interface: bool,
) -> StatusView {
    Report {
        message: "SysLockdownEnabled="@ + truth_text(syslockdown) + ", kcs_privilege="@
            + privilege_text(kcs) + ", host_interface_enabled="@ + truth_text(host_interface),
        status: if syslockdown && (kcs is None || kcs == Some(Privilege::Callback)) && (
        keep_host_interface || !host_interface) {
            StatusInternal::Enabled
        } else if !syslockdown && (kcs is None || kcs == Some(Privilege::Administrator))
            && host_interface {
            StatusInternal::Disabled
        } else {
            StatusInternal::Partial
        },
    }
}

/// Whether a machine is locked.
pub fn lockdown_status_of(
    host_interface: bool,
    kcs: Option<Privilege>,
    syslockdown: bool,
    keep_host_interface: bool,
) -> (r: Status)
    ensures
        r.deep_view() == lockdown_report(host_interface, kcs, syslockdown, keep_host_interface),
{
    let privilege = privilege_name(kcs);
    let start = cat4(
        "SysLockdownEnabled=",
        truth_name(syslockdown),
        ", kcs_privilege=",
        privilege.as_str(),
    );
    let message = cat3(start.as_str(), ", host_interface_enabled=", truth_name(host_interface));
    let kcs_locked = match kcs {
        None => true,
        Some(p) => p == Privilege::Callback,
    };
    let kcs_unlocked = match kcs {
        None => true,
        Some(p) => p == Privilege::Administrator,
    };
    let status = if syslockdown && kcs_locked && (keep_host_interface || !host_interface) {
        StatusInternal::Enabled
    } else if !syslockdown && kcs_unlocked && host_interface {
        StatusInternal::Disabled
    } else {
        StatusInternal::Partial
    };
    Report { message, status }
}

/// The metadata of a multipart firmware upload.
#[derive(Debug, PartialEq, Eq)]
pub struct UpdateParameters {
    pub targets: Vec<String>,
    pub apply_time: String,
    pub oem: Option<Object>,
}

/// The component that an image is for.
pub open spec fn update_target(component_type: ComponentType) -> Seq<char> {
    match component_type {
        ComponentType::UEFI => "/redfish/v1/Systems/1/Bios"@,
        ComponentType::BMC => "/redfish/v1/Managers/1"@,
        ComponentType::CPLDMB => "/redfish/v1/UpdateService/FirmwareInventory/CPLD_Motherboard"@,
        ComponentType::CPLDMID => "/redfish/v1/UpdateService/FirmwareInventory/CPLD_Backplane_1"@,
        _ => "Unrecognized component type"@,
    }
}

/// Switches, under the name of what they are for, in the vendor's part.
pub open spec fn vendor_switches(what: Seq<char>, switches: ObjectView) -> ObjectView {
    seq![("Supermicro"@, JsonView::Object(seq![(what, JsonView::Object(switches))]))]
}

/// What an update of the UEFI keeps.
pub open spec fn bios_switches() -> ObjectView {
    seq![
        ("PreserveME"@, JsonView::Bool(true)),
        ("PreserveNVRAM"@, JsonView::Bool(true)),
        ("PreserveSMBIOS"@, JsonView::Bool(true)),
        ("BackupBIOS"@, JsonView::Bool(false)),
    ]
}

/// What an update of the BMC keeps.
pub open spec fn bmc_switches() -> ObjectView {
    seq![
        ("PreserveCfg"@, JsonView::Bool(true)),
        ("PreserveSdr"@, JsonView::Bool(true)),
        ("PreserveSsl"@, JsonView::Bool(true)),
        ("BackupBMC"@, JsonView::Bool(true)),
    ]
}

/// What an update keeps, where the vendor wants it said.
pub open spec fn update_oem(component_type: ComponentType) -> Option<ObjectView> {
    match component_type {
        ComponentType::UEFI => Some(vendor_switches("BIOS"@, bios_switches())),
        ComponentType::BMC => Some(vendor_switches("BMC"@, bmc_switches())),
        _ => None,
    }
}

/// The metadata of a multipart firmware upload, as JSON.
pub open spec fn update_object(
    targets: Seq<Seq<char>>,
    apply_time: Seq<char>,
    oem: Option<ObjectView>,
) -> ObjectView {
    seq![
        ("Targets"@, texts_model(targets)),
        ("@Redfish.OperationApplyTime"@, JsonView::Text(apply_time)),
    ] + (match oem {
        Some(oem) => seq![("Oem"@, JsonView::Object(oem))],
        None => Seq::empty(),
    })
}

/// The metadata of an upload for a component, as JSON.
pub open spec fn update_parameters(component_type: ComponentType) -> ObjectView {
    update_object(seq![update_target(component_type)], "Immediate"@, update_oem(component_type))
}

impl UpdateParameters {
    /// The parameters of an upload for a component.
    pub fn new(component_type: ComponentType) -> (r: UpdateParameters)
        ensures
            r.targets.deep_view() == seq![update_target(component_type)],
            r.apply_time@ == "Immediate"@,
            r.oem.deep_view() == update_oem(component_type),
    {
        let target = match component_type {
            ComponentType::UEFI => "/redfish/v1/Systems/1/Bios",
            ComponentType::BMC => "/redfish/v1/Managers/1",
            ComponentType::CPLDMB => {
                "/redfish/v1/UpdateService/FirmwareInventory/CPLD_Motherboard"
            },
            ComponentType::CPLDMID => {
                "/redfish/v1/UpdateService/FirmwareInventory/CPLD_Backplane_1"
            },
            _ => "Unrecognized component type",
        };
        let oem = match component_type {
            ComponentType::UEFI => {
                let switches = Object::new().with("PreserveME", Json::Bool(true)).with(
                    "PreserveNVRAM",
                    Json::Bool(true),
                ).with("PreserveSMBIOS", Json::Bool(true)).with("BackupBIOS", Json::Bool(false));
                assert(switches@ =~= bios_switches());
                Some(
                    Object::new().with(
                        "Supermicro",
                        Object::new().with("BIOS", switches.into_json()).into_json(),
                    ),
                )
            },
            ComponentType::BMC => {
                let switches = Object::new().with("PreserveCfg", Json::Bool(true)).with(
                    "PreserveSdr",
                    Json::Bool(true),
                ).with("PreserveSsl", Json::Bool(true)).with("BackupBMC", Json::Bool(true));
                assert(switches@ =~= bmc_switches());
                Some(
                    Object::new().with(
                        "Supermicro",
                        Object::new().with("BMC", switches.into_json()).into_json(),
                    ),
                )
            },
            _ => None,
        };
        let mut targets: Vec<String> = Vec::new();
        targets.push(target.to_owned());
        assert(targets.deep_view() =~= seq![update_target(component_type)]);
        UpdateParameters { targets, apply_time: "Immediate".to_owned(), oem }
    }

    /// The parameters as an object.
    pub fn to_object(&self) -> (r: Object)
        ensures
            r@ == update_object(
                self.targets.deep_view(),
                self.apply_time@,
                self.oem.deep_view(),
            ),
    {
        let mut r = Object::new().with("Targets", Json::texts(&self.targets)).with_text(
            "@Redfish.OperationApplyTime",
            self.apply_time.as_str(),
        );
        if let Some(oem) = &self.oem {
            r = r.with("Oem", oem.copy().into_json());
        }
        assert(r@ =~= update_object(
            self.targets.deep_view(),
            self.apply_time@,
            self.oem.deep_view(),
        ));
        r
    }
}

} // verus!
