//! Supermicro machines, and how they boot.
use crate::boot::{boot_order_entry_reference, reference_of};
use crate::model::{BootOption, Chassis, DiffView, MachineSetupDiff};
use crate::order::refs;
use crate::search::{first_where, first_where_absent, first_where_found, found_where};
use crate::standard::RedfishStandard;
use crate::text::{
    begins, contains, contains_ignore_case, first_of, has, lower, same, same_ignore_case,
    split_first, starts_with, trim, trimmed, upper,
};
use vstd::prelude::*;
use vstd::string::*;

verus! {

/// How the boot options of Mellanox cards begin.
pub const MELLANOX_UEFI_HTTP_IPV4: &'static str = "UEFI HTTP IPv4 Mellanox Network Adapter";

/// How the boot options of NVIDIA cards begin.
pub const NVIDIA_UEFI_HTTP_IPV4: &'static str = "UEFI HTTP IPv4 Nvidia Network Adapter";

/// MGX C2 systems use SSIF instead of x86 KCS for in-band BMC communication,
/// so the KCSInterface endpoint doesn't exist. These models require the
/// IPMIHostInterface fallback on Systems/{id}.
pub const MGX_C2_PROCESSOR_MODULE_MODEL_PREFIX: &'static str = "PG535";

/// What the part numbers of those models hold.
pub const MGX_C2_PROCESSOR_MODULE_PART_NUMBER_FRAGMENT: &'static str = "2G535";

/// The boot category of hard disks.
pub const HARD_DISK: &'static str = "UEFI Hard Disk";

/// The boot category of network devices.
pub const NETWORK: &'static str = "UEFI Network";

/// A Supermicro machine.
#[derive(Debug, PartialEq, Eq)]
pub struct Bmc {
    pub s: RedfishStandard,
}

/// `boot_order`, unless it is empty.
pub fn usable_standard_boot_order(boot_order: Vec<String>) -> (r: Option<Vec<String>>)
    ensures
        r == (if boot_order@.len() == 0 {
            None
        } else {
            Some(boot_order)
        }),
{
    if boot_order.len() == 0 {
        None
    } else {
        Some(boot_order)
    }
}

/// Whether a boot option is that of a DPU: HTTP over IPv4 on a Mellanox or NVIDIA
/// card.
pub open spec fn supported_http_option(display_name: Seq<char>) -> bool {
    has(display_name, MELLANOX_UEFI_HTTP_IPV4@) || has(display_name, NVIDIA_UEFI_HTTP_IPV4@)
}

/// Whether a boot option is that of a DPU.
pub fn is_supported_uefi_http_boot_option(display_name: &str) -> (r: bool)
    ensures
        r == supported_http_option(display_name@),
{
    contains(display_name, MELLANOX_UEFI_HTTP_IPV4) || contains(
        display_name,
        NVIDIA_UEFI_HTTP_IPV4,
    )
}

/// Whether a boot option is that of the DPU with the MAC address `mac`, in any
/// case.
pub open spec fn option_matches_mac(display_name: Seq<char>, mac: Seq<char>) -> bool {
    supported_http_option(display_name) && has(upper(display_name), upper(mac))
}

/// Whether a boot option is that of the DPU with the MAC address
/// `boot_interface_mac`, in any case.
pub fn http_boot_option_matches_mac(display_name: &str, boot_interface_mac: &str) -> (r: bool)
    ensures
        r == option_matches_mac(display_name@, boot_interface_mac@),
{
    is_supported_uefi_http_boot_option(display_name) && contains_ignore_case(
        display_name,
        boot_interface_mac,
    )
}

/// The first of `options` that is that of the DPU with the MAC address `mac`.
pub open spec fn option_for_mac(options: Seq<BootOption>, mac: Seq<char>) -> Option<BootOption> {
    found_where(options, |o: BootOption| option_matches_mac(o.display_name@, mac))
}

/// Whether a boot option has the reference `reference`.
pub open spec fn has_reference(reference: Seq<char>) -> spec_fn(BootOption) -> bool {
    |o: BootOption| o.boot_option_reference@ == reference
}

/// The first of `options` with the reference `reference`.
pub open spec fn option_for_reference(options: Seq<BootOption>, reference: Seq<char>) -> Option<
    BootOption,
> {
    found_where(options, has_reference(reference))
}

/// The reference that a boot order starts with.
pub open spec fn first_reference(order: Seq<Seq<char>>) -> Option<Seq<char>> {
    if order.len() == 0 {
        None
    } else {
        Some(reference_of(order[0]))
    }
}

/// A deviation of the first boot option. What is not there is called so.
pub open spec fn boot_first_diff(expected: Option<Seq<char>>, actual: Option<Seq<char>>) -> DiffView {
    DiffView {
        key: "boot_first"@,
        expected: match expected {
            Some(name) => name,
            None => "Not found"@,
        },
        actual: match actual {
            Some(name) => name,
            None => "Not found"@,
        },
    }
}

/// A deviation of the first boot option.
fn boot_deviation(expected: Option<&str>, actual: Option<&str>) -> (r: MachineSetupDiff)
    ensures
        r.deep_view() == boot_first_diff(expected.deep_view(), actual.deep_view()),
{
    let wanted = match expected {
        Some(name) => name,
        None => "Not found",
    };
    let found = match actual {
        Some(name) => name,
        None => "Not found",
    };
    MachineSetupDiff::new("boot_first", wanted, found)
}

/// How a boot order deviates from one that starts with the DPU with the MAC
/// address `mac`, if it does. The order in which the boot options are listed
/// counts for nothing.
pub open spec fn standard_diff(
    order: Seq<Seq<char>>,
    options: Seq<BootOption>,
    mac: Seq<char>,
) -> Option<DiffView> {
    let target = option_for_mac(options, mac);
    let first = first_reference(order);
    if target matches Some(option) && first == Some(option.boot_option_reference@) {
        None
    } else {
        Some(
            boot_first_diff(
                match target {
                    Some(option) => Some(option.display_name@),
                    None => None,
                },
                match first {
                    Some(reference) => match option_for_reference(options, reference) {
                        Some(option) => Some(option.display_name@),
                        None => None,
                    },
                    None => None,
                },
            ),
        )
    }
}

/// The first of `options` that is that of the DPU with the MAC address `mac`.
fn find_for_mac<'a>(options: &Vec<&'a BootOption>, mac: &str) -> (r: Option<&'a BootOption>)
    ensures
        r.deep_view() == option_for_mac(refs(options@), mac@),
{
    let ghost all = refs(options@);
    let ghost p = |o: BootOption| option_matches_mac(o.display_name@, mac@);
    let mut i: usize = 0;
    while i < options.len()
        invariant
            i <= options.len(),
            all == refs(options@),
            p == (|o: BootOption| option_matches_mac(o.display_name@, mac@)),
            forall|k: int| 0 <= k < i ==> !p(#[trigger] all[k]),
        decreases options.len() - i,
    {
        assert(all[i as int] == *options@[i as int]);
        if http_boot_option_matches_mac(options[i].display_name.as_str(), mac) {
            proof {
                first_where_found(all, p, i as int);
            }
            return Some(options[i]);
        }
        i = i + 1;
    }
    proof {
        first_where_absent(all, p);
    }
    None
}

/// The first of `options` with the reference `reference`.
fn find_for_reference<'a>(options: &Vec<&'a BootOption>, reference: &str) -> (r: Option<
    &'a BootOption,
>)
    ensures
        r.deep_view() == option_for_reference(refs(options@), reference@),
{
    let ghost all = refs(options@);
    let ghost p = has_reference(reference@);
    let mut i: usize = 0;
    while i < options.len()
        invariant
            i <= options.len(),
            all == refs(options@),
            p == has_reference(reference@),
            forall|k: int| 0 <= k < i ==> !p(#[trigger] all[k]),
        decreases options.len() - i,
    {
        assert(all[i as int] == *options@[i as int]);
        if same(options[i].boot_option_reference.as_str(), reference) {
            proof {
                first_where_found(all, p, i as int);
            }
            return Some(options[i]);
        }
        i = i + 1;
    }
    proof {
        first_where_absent(all, p);
    }
    None
}

/// How a boot order deviates from one that starts with the DPU with the MAC
/// address `mac`, if it does.
pub fn diff_standard_order(order: &[String], options: &Vec<&BootOption>, mac: &str) -> (r: Option<
    MachineSetupDiff,
>)
    ensures
        r.deep_view() == standard_diff(order.deep_view(), refs(options@), mac@),
{
    let target = find_for_mac(options, mac);
    let first: Option<&str> = if order.len() == 0 {
        None
    } else {
        assert(order.deep_view()[0] == order@[0]@);
        Some(boot_order_entry_reference(order[0].as_str()))
    };
    if let (Some(option), Some(reference)) = (target, first) {
        if same(reference, option.boot_option_reference.as_str()) {
            return None;
        }
    }
    let expected = match target {
        Some(option) => Some(option.display_name.as_str()),
        None => None,
    };
    let actual = match first {
        Some(reference) => match find_for_reference(options, reference) {
            Some(option) => Some(option.display_name.as_str()),
            None => None,
        },
        None => None,
    };
    Some(boot_deviation(expected, actual))
}

/// How a boot order deviates from one that starts with the DPU with the MAC
/// address `boot_interface_mac`, if it does.
pub fn standard_boot_order_diff(
    boot_order: &[String],
    boot_options: &[BootOption],
    boot_interface_mac: &str,
) -> (r: Option<MachineSetupDiff>)
    ensures
        r.deep_view() == standard_diff(
            boot_order.deep_view(),
            boot_options@,
            boot_interface_mac@,
        ),
{
    let mut options: Vec<&BootOption> = Vec::new();
    let mut i: usize = 0;
    while i < boot_options.len()
        invariant
            i <= boot_options.len(),
            options.len() == i,
            forall|k: int| 0 <= k < i ==> *(#[trigger] options@[k]) == boot_options@[k],
        decreases boot_options.len() - i,
    {
        options.push(&boot_options[i]);
        i = i + 1;
    }
    assert(refs(options@) =~= boot_options@);
    diff_standard_order(boot_order, &options, boot_interface_mac)
}

/// Whether an entry of a fixed boot order is the network category: it alone, or
/// with a device behind a colon.
pub open spec fn network_category(entry: Seq<char>) -> bool {
    begins(entry, NETWORK@) && (entry.len() == NETWORK@.len() || entry[NETWORK@.len() as int]
        == ':')
}

/// Whether an entry of a fixed boot order is the network category.
fn is_network_category(entry: &str) -> (r: bool)
    ensures
        r == network_category(entry@),
{
    if !starts_with(entry, NETWORK) {
        return false;
    }
    let n: usize = NETWORK.unicode_len();
    entry.unicode_len() == n || entry.get_char(n) == ':'
}

/// The device that a fixed boot order boots first: the first network device, where
/// the order starts with the network category, or else the device that its first
/// entry names.
pub open spec fn selected_device(fixed: Seq<Seq<char>>, network: Seq<Seq<char>>) -> Option<
    Seq<char>,
> {
    if fixed.len() == 0 {
        None
    } else if network_category(fixed[0]) {
        Some(
            if network.len() == 0 {
                fixed[0]
            } else {
                network[0]
            },
        )
    } else {
        match first_of(fixed[0], ':') {
            Some(i) => Some(trimmed(fixed[0].skip(i + 1))),
            None => Some(fixed[0]),
        }
    }
}

/// The first network device that is that of the DPU with the MAC address `mac`.
pub open spec fn device_position(network: Seq<Seq<char>>, mac: Seq<char>) -> Option<int> {
    first_where(network, |entry: Seq<char>| option_matches_mac(entry, mac))
}

/// How a fixed boot order deviates from one that boots the DPU with the MAC
/// address `mac` first, if it does.
pub open spec fn fixed_diff(fixed: Seq<Seq<char>>, network: Seq<Seq<char>>, mac: Seq<char>) -> Option<
    DiffView,
> {
    let expected = match device_position(network, mac) {
        Some(i) => Some(network[i]),
        None => None,
    };
    let actual = selected_device(fixed, network);
    if expected is Some && expected == actual {
        None
    } else {
        Some(boot_first_diff(expected, actual))
    }
}

/// The place of the first network device that is that of the DPU with the MAC
/// address `mac`.
pub fn find_device(network: &[String], mac: &str) -> (r: Option<usize>)
    ensures
        match device_position(network.deep_view(), mac@) {
            Some(i) => (r matches Some(p) && p == i) && 0 <= i < network@.len(),
            None => r is None,
        },
{
    let ghost all = network.deep_view();
    let ghost p = |entry: Seq<char>| option_matches_mac(entry, mac@);
    let mut i: usize = 0;
    while i < network.len()
        invariant
            i <= network.len(),
            all == network.deep_view(),
            p == (|entry: Seq<char>| option_matches_mac(entry, mac@)),
            forall|k: int| 0 <= k < i ==> !p(#[trigger] all[k]),
        decreases network.len() - i,
    {
        assert(all[i as int] == network@[i as int]@);
        if http_boot_option_matches_mac(network[i].as_str(), mac) {
            proof {
                first_where_found(all, p, i as int);
            }
            return Some(i);
        }
        i = i + 1;
    }
    proof {
        first_where_absent(all, p);
    }
    None
}

/// How a fixed boot order deviates from one that boots the DPU with the MAC
/// address `boot_interface_mac` first, if it does.
pub fn fixed_boot_order_diff(
    fixed_boot_order: &[String],
    uefi_network: &[String],
    boot_interface_mac: &str,
) -> (r: Option<MachineSetupDiff>)
    ensures
        r.deep_view() == fixed_diff(
            fixed_boot_order.deep_view(),
            uefi_network.deep_view(),
            boot_interface_mac@,
        ),
{
    let ghost fixed = fixed_boot_order.deep_view();
    let ghost network = uefi_network.deep_view();
    assert(fixed.len() > 0 ==> fixed[0] == fixed_boot_order@[0]@);
    assert(network.len() > 0 ==> network[0] == uefi_network@[0]@);
    let expected: Option<&str> = match find_device(uefi_network, boot_interface_mac) {
        Some(i) => {
            assert(network[i as int] == uefi_network@[i as int]@);
            Some(uefi_network[i].as_str())
        },
        None => None,
    };
    let actual: Option<&str> = if fixed_boot_order.len() == 0 {
        None
    } else {
        let entry = fixed_boot_order[0].as_str();
        if is_network_category(entry) {
            if uefi_network.len() == 0 {
                Some(entry)
            } else {
                Some(uefi_network[0].as_str())
            }
        } else {
            match split_first(entry, ':') {
                Some((_, option)) => Some(trim(option)),
                None => Some(entry),
            }
        }
    };
    if let (Some(wanted), Some(found)) = (expected, actual) {
        if same(wanted, found) {
            return None;
        }
    }
    Some(boot_deviation(expected, actual))
}

/// Whether a chassis is a processor module of an MGX C2 system: an NVIDIA one with
/// the model or the part number of those.
pub open spec fn mgx_c2_module(chassis: Chassis) -> bool {
    (chassis.manufacturer matches Some(m) && lower(m@) == lower("NVIDIA"@)) && ((
    chassis.model matches Some(m) && begins(m@, MGX_C2_PROCESSOR_MODULE_MODEL_PREFIX@)) || (
    chassis.part_number matches Some(p) && has(
        p@,
        MGX_C2_PROCESSOR_MODULE_PART_NUMBER_FRAGMENT@,
    )))
}

/// Whether a chassis is a processor module of an MGX C2 system.
pub fn is_mgx_c2_processor_module(chassis: &Chassis) -> (r: bool)
    ensures
        r == mgx_c2_module(*chassis),
{
    let nvidia = match &chassis.manufacturer {
        Some(m) => same_ignore_case(m.as_str(), "NVIDIA"),
        None => false,
    };
    let by_model = match &chassis.model {
        Some(m) => starts_with(m.as_str(), MGX_C2_PROCESSOR_MODULE_MODEL_PREFIX),
        None => false,
    };
    let by_part = match &chassis.part_number {
        Some(p) => contains(p.as_str(), MGX_C2_PROCESSOR_MODULE_PART_NUMBER_FRAGMENT),
        None => false,
    };
    nvidia && (by_model || by_part)
}

} // verus!
