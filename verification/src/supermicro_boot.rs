//! What Supermicro machines are made to boot from.
use crate::boot::{boot_order_entry_reference, promote_or_insert, reference_of, target_first};
use crate::error::{is_not_found, not_found, not_supported, ErrorView, Fault, RedfishError};
use crate::exchange::{
    fetched, flow, get, patch, sent, Exchange, Flow, Request, RequestView, Response, Stop, Tape,
};
use crate::json::{texts_model, Json, JsonView, Object, ObjectView};
use crate::model::{
    Boot, BootInterfaceRef, BootOption, BootOverride, BootSourceOverrideEnabled,
    BootSourceOverrideMode, BootSourceOverrideTarget, ComputerSystem, DiffView, FixedBootOrder,
    MachineSetupDiff, ODataId, References,
};
use crate::order::refs;
use crate::search::{first_where, first_where_absent, first_where_found, found_where};
use crate::supermicro::{
    device_position, diff_standard_order, find_device, fixed_boot_order_diff, fixed_diff,
    http_boot_option_matches_mac, is_supported_uefi_http_boot_option, option_matches_mac,
    standard_diff, supported_http_option, Bmc, HARD_DISK, NETWORK,
};
use crate::text::{after_last, begins, cat3, contains, has, same, starts_with};
use vstd::prelude::*;
use vstd::string::*;

verus! {

/// The first of `entries` that begins with `category`, or else `category` itself.
/// The names of the categories include their devices, so they are not consistent.
pub open spec fn category_entry(entries: Seq<Seq<char>>, category: Seq<char>) -> Seq<char> {
    match found_where(entries, |entry: Seq<char>| begins(entry, category)) {
        Some(entry) => entry,
        None => category,
    }
}

/// The first of `entries` that begins with `category`, or else `category` itself.
fn find_category<'a>(entries: &'a Vec<String>, category: &'a str) -> (r: &'a str)
    ensures
        r@ == category_entry(entries.deep_view(), category@),
{
    let ghost all = entries.deep_view();
    let ghost p = |entry: Seq<char>| begins(entry, category@);
    let mut i: usize = 0;
    while i < entries.len()
        invariant
            i <= entries.len(),
            all == entries.deep_view(),
            p == (|entry: Seq<char>| begins(entry, category@)),
            forall|k: int| 0 <= k < i ==> !p(#[trigger] all[k]),
        decreases entries.len() - i,
    {
        assert(all[i as int] == entries@[i as int]@);
        if starts_with(entries[i].as_str(), category) {
            proof {
                first_where_found(all, p, i as int);
            }
            return entries[i].as_str();
        }
        i = i + 1;
    }
    proof {
        first_where_absent(all, p);
    }
    category
}

/// A fixed boot order of `n` places with `first` and `second` and everything else
/// disabled.
pub open spec fn two_enabled(first: Seq<char>, second: Seq<char>, n: nat) -> Seq<Seq<char>> {
    Seq::new(
        n,
        |i: int|
            if i == 0 {
                first
            } else if i == 1 {
                second
            } else {
                "Disabled"@
            },
    )
}

/// A fixed boot order of `n` places with `first` and `second` and everything else
/// disabled.
fn enable_two(first: &str, second: &str, n: usize) -> (r: Vec<String>)
    requires
        n >= 2,
    ensures
        r.deep_view() == two_enabled(first@, second@, n as nat),
{
    let mut r: Vec<String> = Vec::new();
    r.push(first.to_owned());
    r.push(second.to_owned());
    while r.len() < n
        invariant
            2 <= r.len() <= n,
            r@[0]@ == first@,
            r@[1]@ == second@,
            forall|k: int| 2 <= k < r.len() ==> (#[trigger] r@[k])@ == "Disabled"@,
        decreases n - r.len(),
    {
        r.push("Disabled".to_owned());
    }
    assert(r.deep_view() =~= two_enabled(first@, second@, n as nat));
    r
}

/// `s` with the elements at 0 and `i` swapped.
pub open spec fn swapped_first<T>(s: Seq<T>, i: int) -> Seq<T> {
    s.update(0, s[i]).update(i, s[0])
}

/// `v` with the elements at 0 and `i` swapped.
fn swap_first(v: &Vec<String>, i: usize) -> (r: Vec<String>)
    requires
        i < v.len(),
    ensures
        r.deep_view() == swapped_first(v.deep_view(), i as int),
{
    let mut r: Vec<String> = Vec::new();
    let mut k: usize = 0;
    while k < v.len()
        invariant
            k <= v.len(),
            r.len() == k,
            i < v.len(),
            forall|j: int|
                0 <= j < k ==> (#[trigger] r@[j])@ == (if j == i {
                    v@[0]@
                } else if j == 0 {
                    v@[i as int]@
                } else {
                    v@[j]@
                }),
        decreases v.len() - k,
    {
        if k == i {
            r.push(v[0].clone());
        } else if k == 0 {
            r.push(v[i].clone());
        } else {
            r.push(v[k].clone());
        }
        k = k + 1;
    }
    assert(r.deep_view() =~= swapped_first(v.deep_view(), i as int));
    r
}

/// The body that sets a fixed boot order.
pub open spec fn fixed_order_body(order: Seq<Seq<char>>, network: Seq<Seq<char>>) -> ObjectView {
    seq![
        ("FixedBootOrder"@, texts_model(order)),
        ("UEFINetwork"@, texts_model(network)),
    ]
}

/// Whether every fixed boot order on the tape has the two places that are set.
pub open spec fn fixed_orders_usable(t: Tape) -> bool {
    forall|i: int|
        0 <= i < t.replies.len() ==> (#[trigger] t.replies[i] matches Ok(Response::FixedBootOrder(f))
            ==> f.fixed_boot_order@.len() >= 2)
}

/// The fixed boot order that makes the DPU with the MAC address `mac` the first
/// device: the network first, the hard disk second, and the DPU the first network
/// device.
pub open spec fn dpu_first_body(f: FixedBootOrder, mac: Seq<char>) -> Result<ObjectView, ErrorView> {
    let entries = f.fixed_boot_order.deep_view();
    let network = f.uefi_network.deep_view();
    match device_position(network, mac) {
        Some(i) => Ok(
            fixed_order_body(
                two_enabled(
                    category_entry(entries, NETWORK@),
                    category_entry(entries, HARD_DISK@),
                    entries.len(),
                ),
                swapped_first(network, i),
            ),
        ),
        None => Err(
            ErrorView::NotSupported(
                "No match for Mellanox/Nvidia HTTP adapter with MAC address "@ + mac
                    + " in network boot order"@,
            ),
        ),
    }
}

/// The place of the first network device that is that of a DPU.
pub open spec fn any_device_position(network: Seq<Seq<char>>) -> Option<int> {
    first_where(network, |entry: Seq<char>| supported_http_option(entry))
}

/// The place of the first network device that is that of a DPU.
fn find_any_device(network: &Vec<String>) -> (r: Option<usize>)
    ensures
        match any_device_position(network.deep_view()) {
            Some(i) => (r matches Some(p) && p == i) && 0 <= i < network@.len(),
            None => r is None,
        },
{
    let ghost all = network.deep_view();
    let ghost p = |entry: Seq<char>| supported_http_option(entry);
    let mut i: usize = 0;
    while i < network.len()
        invariant
            i <= network.len(),
            all == network.deep_view(),
            p == (|entry: Seq<char>| supported_http_option(entry)),
            forall|k: int| 0 <= k < i ==> !p(#[trigger] all[k]),
        decreases network.len() - i,
    {
        assert(all[i as int] == network@[i as int]@);
        if is_supported_uefi_http_boot_option(network[i].as_str()) {
            proof {
                first_where_found(all, p, i as int);
            }
            return Some(i);
        }
        i = i + 1;
    }
    proof {
        first_where_absent(all, p);
    }
    None
}

/// The fixed boot order that boots `target` first. A DPU becomes the first network
/// device, for faster boots, unless the machine is to boot from its disk.
pub open spec fn boot_first_body(f: FixedBootOrder, target: Boot) -> Result<ObjectView, ErrorView> {
    let entries = f.fixed_boot_order.deep_view();
    let network = f.uefi_network.deep_view();
    let category = category_entry(entries, NETWORK@);
    if target == Boot::HardDisk {
        Ok(fixed_order_body(two_enabled(HARD_DISK@, category, entries.len()), network))
    } else {
        match any_device_position(network) {
            Some(i) => Ok(
                fixed_order_body(
                    two_enabled(category, HARD_DISK@, entries.len()),
                    swapped_first(network, i),
                ),
            ),
            None => Err(
                ErrorView::NotSupported(
                    "No match for a Mellanox/NVIDIA UEFI HTTP IPv4 adapter in network boot order"@,
                ),
            ),
        }
    }
}

/// Whether a failure says that the machine has no standard boot order: HTTP 400 -
/// "The property BootOrder is not in the list of valid properties for the
/// resource"
pub open spec fn boot_order_unknown(e: ErrorView) -> bool {
    e matches Fault::HTTPErrorCode { status_code, response_body, .. } && status_code == 400 && has(
        response_body,
        "PropertyUnknown"@,
    ) && has(response_body, "BootOrder"@)
}

/// Whether a failure says that the machine has no standard boot order.
fn is_boot_order_unknown(e: &RedfishError) -> (r: bool)
    ensures
        r == boot_order_unknown(e@),
{
    match e {
        Fault::HTTPErrorCode { status_code, response_body, .. } => *status_code == 400 && contains(
            response_body.as_str(),
            "PropertyUnknown",
        ) && contains(response_body.as_str(), "BootOrder"),
        _ => false,
    }
}

/// The body that overrides the boot order. Supermicro BMCs default to UEFI mode
/// when the caller doesn't specify one.
pub open spec fn override_body(
    target: BootSourceOverrideTarget,
    enabled: BootSourceOverrideEnabled,
    mode: Option<BootSourceOverrideMode>,
    http_boot_uri: Option<Seq<char>>,
) -> ObjectView {
    seq![
        ("BootSourceOverrideTarget"@, JsonView::Text(target.text())),
        ("BootSourceOverrideEnabled"@, JsonView::Text(enabled.text())),
        (
            "BootSourceOverrideMode"@,
            JsonView::Text(
                match mode {
                    Some(mode) => mode.text(),
                    None => BootSourceOverrideMode::UEFI.text(),
                },
            ),
        ),
    ] + (match http_boot_uri {
        Some(uri) => seq![("HttpBootUri"@, JsonView::Text(uri))],
        None => Seq::empty(),
    })
}

impl Bmc {
    /// A Supermicro machine.
    pub fn new(s: crate::standard::RedfishStandard) -> (r: Result<Bmc, RedfishError>)
        ensures
            r matches Ok(bmc) && bmc.s == s,
    {
        Ok(Bmc { s })
    }

    /// The document that describes the system.
    pub open spec fn system_document(&self) -> Seq<char> {
        "Systems/"@ + self.s.system()
    }

    /// The document that describes the system.
    pub fn system_document_url(&self) -> (r: String)
        ensures
            r@ == self.system_document(),
    {
        crate::text::cat2("Systems/", self.s.system_id())
    }

    /// The request that overrides the boot order.
    pub open spec fn override_request(
        &self,
        target: BootSourceOverrideTarget,
        enabled: BootSourceOverrideEnabled,
        mode: Option<BootSourceOverrideMode>,
        http_boot_uri: Option<Seq<char>>,
    ) -> RequestView {
        patch(
            self.system_document(),
            seq![("Boot"@, JsonView::Object(override_body(target, enabled, mode, http_boot_uri)))],
        )
    }

    /// Overrides the boot order.
    pub fn set_boot_override(&self, settings: &BootOverride) -> (r: Request)
        ensures
            r@ == self.override_request(
                settings.target,
                settings.enabled,
                settings.mode,
                settings.http_boot_uri.deep_view(),
            ),
    {
        // Supermicro BMCs default to UEFI mode when the caller doesn't specify one.
        let mode = match settings.mode {
            Some(mode) => mode,
            None => BootSourceOverrideMode::UEFI,
        };
        let mut boot = Object::new().with_text(
            "BootSourceOverrideTarget",
            settings.target.name(),
        ).with_text("BootSourceOverrideEnabled", settings.enabled.name()).with_text(
            "BootSourceOverrideMode",
            mode.name(),
        );
        if let Some(uri) = &settings.http_boot_uri {
            boot = boot.with_text("HttpBootUri", uri.as_str());
        }
        assert(boot@ =~= override_body(
            settings.target,
            settings.enabled,
            settings.mode,
            settings.http_boot_uri.deep_view(),
        ));
        Request::patch(self.system_document_url(), Object::new().with("Boot", boot.into_json()))
    }

    /// Boot from this device once then go back to the normal boot order
    pub fn boot_once(&self, target: Boot) -> (r: Request)
        ensures
            r@ == self.override_request(
                BootSourceOverrideTarget::of(target),
                BootSourceOverrideEnabled::Once,
                None,
                None,
            ),
    {
        self.set_boot_override(
            &BootOverride {
                target: BootSourceOverrideTarget::from_boot(target),
                enabled: BootSourceOverrideEnabled::Once,
                mode: None,
                http_boot_uri: None,
            },
        )
    }

    /// The request that sets the standard boot order.
    pub open spec fn boot_order_request(&self, order: Seq<Seq<char>>) -> RequestView {
        patch(
            self.system_document(),
            seq![("Boot"@, JsonView::Object(seq![("BootOrder"@, texts_model(order))]))],
        )
    }

    /// Sets the standard boot order.
    pub fn change_boot_order(&self, boot_array: &Vec<String>) -> (r: Request)
        ensures
            r@ == self.boot_order_request(boot_array.deep_view()),
    {
        Request::patch(
            self.system_document_url(),
            Object::new().with(
                "Boot",
                Object::new().with("BootOrder", Json::texts(boot_array)).into_json(),
            ),
        )
    }

    /// Where the fixed boot order is.
    pub open spec fn fixed_order_path(&self) -> Seq<char> {
        self.s.system_path("/Oem/Supermicro/FixedBootOrder"@)
    }

    /// The fixed boot order.
    pub fn get_boot_order(&self) -> (r: Request)
        ensures
            r@ == get(self.fixed_order_path()),
    {
        Request::get(self.s.system_url("/Oem/Supermicro/FixedBootOrder"))
    }

    /// The request that sets the fixed boot order.
    fn change_fixed_order(&self, order: &Vec<String>, network: &Vec<String>) -> (r: Request)
        ensures
            r@ == patch(
                self.fixed_order_path(),
                fixed_order_body(order.deep_view(), network.deep_view()),
            ),
    {
        let body = Object::new().with("FixedBootOrder", Json::texts(order)).with(
            "UEFINetwork",
            Json::texts(network),
        );
        assert(body@ =~= fixed_order_body(order.deep_view(), network.deep_view()));
        Request::patch(self.s.system_url("/Oem/Supermicro/FixedBootOrder"), body)
    }

    /// Makes the machine boot from `target` first, by its fixed boot order.
    pub open spec fn set_boot_order_flow(&self, target: Boot, t: Tape) -> Flow<()> {
        fetched::<FixedBootOrder>(get(self.fixed_order_path()), t).and_then(
            |f: FixedBootOrder, t: Tape|
                match boot_first_body(f, target) {
                    Ok(body) => sent(patch(self.fixed_order_path(), body), t),
                    Err(e) => Flow::Fail(e, t),
                },
        )
    }

    /// Makes the machine boot from `target` first, by its fixed boot order.
    pub fn set_boot_order<'a>(&self, target: Boot, io: &mut Exchange<'a>) -> (r: Result<(), Stop>)
        requires
            fixed_orders_usable(old(io)@),
        ensures
            flow(r, final(io)@) == self.set_boot_order_flow(target, old(io)@),
    {
        let f: &'a FixedBootOrder = io.fetch::<FixedBootOrder>(self.get_boot_order())?;
        // The network name is not consistent because it includes the interface name.
        // Falls back to 'UEFI Network' if no specific entry is found to enable network boot options.
        let network = find_category(&f.fixed_boot_order, NETWORK);
        let n: usize = f.fixed_boot_order.len();
        // Make our option the first option, the other one second, and everything else (CD/ROM,
        // USB, etc) disabled.
        if target == Boot::HardDisk {
            let order = enable_two(HARD_DISK, network, n);
            return io.send(self.change_fixed_order(&order, &f.uefi_network));
        }
        let order = enable_two(network, HARD_DISK, n);
        // Set the DPU to be the first network device to boot from, for faster boots
        match find_any_device(&f.uefi_network) {
            Some(pos) => {
                let devices = swap_first(&f.uefi_network, pos);
                io.send(self.change_fixed_order(&order, &devices))
            },
            None => Err(
                Stop::Fail(
                    not_supported(
                        "No match for a Mellanox/NVIDIA UEFI HTTP IPv4 adapter in network boot order",
                    ),
                ),
            ),
        }
    }

    /// Makes the machine boot from `target` first: by its fixed boot order, or,
    /// where it has none, by an override that stays.
    pub open spec fn boot_first_flow(&self, target: Boot, t: Tape) -> Flow<()> {
        match self.set_boot_order_flow(target, t) {
            Flow::Fail(e, t) => if not_found(e) {
                sent(
                    self.override_request(
                        BootSourceOverrideTarget::of(target),
                        BootSourceOverrideEnabled::Continuous,
                        None,
                        None,
                    ),
                    t,
                )
            } else {
                Flow::Fail(e, t)
            },
            other => other,
        }
    }

    /// Set which device we should boot from first.
    pub fn boot_first<'a>(&self, target: Boot, io: &mut Exchange<'a>) -> (r: Result<(), Stop>)
        requires
            fixed_orders_usable(old(io)@),
        ensures
            flow(r, final(io)@) == self.boot_first_flow(target, old(io)@),
    {
        // Try with FixedBootOptions and fallback to BootOptions if fails
        match self.set_boot_order(target, io) {
            Err(Stop::Fail(e)) => if is_not_found(&e) {
                io.send(
                    self.set_boot_override(
                        &BootOverride {
                            target: BootSourceOverrideTarget::from_boot(target),
                            enabled: BootSourceOverrideEnabled::Continuous,
                            mode: None,
                            http_boot_uri: None,
                        },
                    ),
                )
            } else {
                Err(Stop::Fail(e))
            },
            other => other,
        }
    }

    /// The reference of the first boot option that is that of the DPU with the MAC
    /// address `mac`, among those that `links` lead to.
    pub open spec fn reference_among(&self, links: Seq<ODataId>, mac: Seq<char>, t: Tape) -> Flow<
        Seq<char>,
    >
        decreases links.len(),
    {
        if links.len() == 0 {
            // This happens if IPv4HTTPSupport#00F7 is disabled in the bios
            Flow::Fail(Fault::NotSupported("No match for Mellanox HTTP adapter boot"@), t)
        } else {
            match fetched::<BootOption>(
                self.s.boot_option_request(after_last(links[0].odata_id@, '/')),
                t,
            ) {
                Flow::Ready(option, t) => if option_matches_mac(option.display_name@, mac) {
                    Flow::Ready(option.boot_option_reference@, t)
                } else {
                    self.reference_among(links.drop_first(), mac, t)
                },
                Flow::Fail(e, t) => Flow::Fail(e, t),
                Flow::Wait(q, k) => Flow::Wait(q, k),
            }
        }
    }

    /// The reference of the first boot option that is that of the DPU with the MAC
    /// address `mac`.
    fn find_reference<'a>(&self, options: &References, mac: &str, io: &mut Exchange<'a>) -> (r:
        Result<&'a str, Stop>)
        ensures
            flow(r, final(io)@) == self.reference_among(options.members@, mac@, old(io)@),
            final(io)@.replies == old(io)@.replies,
    {
        let ghost all = options.members@;
        let mut i: usize = 0;
        assert(all.skip(0) =~= all);
        while i < options.members.len()
            invariant
                i <= options.members.len(),
                all == options.members@,
                self.reference_among(all, mac@, old(io)@) == self.reference_among(
                    all.skip(i as int),
                    mac@,
                    io@,
                ),
                io@.replies == old(io)@.replies,
            decreases options.members.len() - i,
        {
            assert(all.skip(i as int).drop_first() =~= all.skip(i + 1));
            assert(all.skip(i as int)[0] == all[i as int]);
            let option: &'a BootOption = io.fetch::<BootOption>(
                self.s.get_boot_option(options.members[i].odata_id_get()),
            )?;
            if http_boot_option_matches_mac(option.display_name.as_str(), mac) {
                // Here are the patterns we have seen so far:
                // UEFI HTTP IPv4 Mellanox Network Adapter - A0:88:C2:EA:84:D0(MAC:A088C2EA84D0)
                // UEFI HTTP IPv4 Nvidia Network Adapter - C4:70:BD:F0:40:AA - C470BDF040AA"
                return Ok(option.boot_option_reference.as_str());
            }
            i = i + 1;
        }
        Err(Stop::Fail(not_supported("No match for Mellanox HTTP adapter boot")))
    }

    /// Makes the DPU with the MAC address `mac` the first in the standard boot
    /// order. An empty standard boot order selects the OEM fixed-order fallback.
    pub open spec fn try_standard_order_flow(&self, mac: Seq<char>, t: Tape) -> Flow<bool> {
        self.s.system_flow(t).and_then(
            |system: ComputerSystem, t: Tape|
                {
                    let order = system.boot.boot_order.deep_view();
                    if order.len() == 0 {
                        Flow::Ready(false, t)
                    } else {
                        fetched::<References>(
                            get(self.s.system_path("/BootOptions"@)),
                            t,
                        ).and_then(
                            |options: References, t: Tape|
                                self.reference_among(options.members@, mac, t).and_then(
                                    |target: Seq<char>, t: Tape|
                                        if reference_of(order[0]) == target {
                                            Flow::Ready(true, t)
                                        } else {
                                            sent(
                                                self.boot_order_request(
                                                    target_first(order, target),
                                                ),
                                                t,
                                            ).map(|done: ()| true)
                                        },
                                ),
                        )
                    }
                },
        )
    }

    /// Try to select the DPU through the standard Redfish boot order.
    ///
    /// An empty standard boot order selects the OEM fixed-order fallback.
    pub fn try_set_standard_boot_order_dpu_first<'a>(
        &self,
        boot_interface: &str,
        io: &mut Exchange<'a>,
    ) -> (r: Result<bool, Stop>)
        ensures
            flow(r, final(io)@) == self.try_standard_order_flow(boot_interface@, old(io)@),
            final(io)@.replies == old(io)@.replies,
    {
        let system: &'a ComputerSystem = io.fetch::<ComputerSystem>(self.s.get_system())?;
        let order = &system.boot.boot_order;
        if order.len() == 0 {
            return Ok(false);
        }
        let options: &'a References = io.fetch::<References>(self.s.get_boot_options())?;
        let target: &'a str = self.find_reference(options, boot_interface, io)?;
        assert(order.deep_view()[0] == order@[0]@);
        if same(boot_order_entry_reference(order[0].as_str()), target) {
            return Ok(true);
        }
        let order = promote_or_insert(copy_texts(order), target);
        io.send(self.change_boot_order(&order))?;
        Ok(true)
    }

    /// Makes the DPU with the MAC address `mac` the first device, by the fixed boot
    /// order.
    pub open spec fn fixed_dpu_first_flow(&self, mac: Seq<char>, t: Tape) -> Flow<
        Option<Seq<char>>,
    > {
        fetched::<FixedBootOrder>(get(self.fixed_order_path()), t).and_then(
            |f: FixedBootOrder, t: Tape|
                match dpu_first_body(f, mac) {
                    Ok(body) => sent(patch(self.fixed_order_path(), body), t).map(
                        |done: ()| None,
                    ),
                    Err(e) => Flow::Fail(e, t),
                },
        )
    }

    /// Makes the DPU the first device, by the fixed boot order.
    fn set_fixed_boot_order_dpu_first<'a>(&self, mac_address: &str, io: &mut Exchange<'a>) -> (r:
        Result<Option<String>, Stop>)
        requires
            fixed_orders_usable(old(io)@),
        ensures
            flow(r, final(io)@) == self.fixed_dpu_first_flow(mac_address@, old(io)@),
    {
        // Some Supermicro models only expose the OEM fixed boot order.
        let f: &'a FixedBootOrder = io.fetch::<FixedBootOrder>(self.get_boot_order())?;
        // The network name is not consistent because it includes the interface name.
        // Falls back to 'UEFI Network' if no specific entry is found to enable network boot options.
        let network = find_category(&f.fixed_boot_order, NETWORK);
        // The hard disk name is also not consistent because it includes the device specifics.
        // Falls back to 'UEFI Hard Disk' if no specific entry is found to enable hard disk boot options.
        let hard_disk = find_category(&f.fixed_boot_order, HARD_DISK);
        // Make network the first option, hard disk second, and everything else disabled
        let order = enable_two(network, hard_disk, f.fixed_boot_order.len());
        // Set the DPU to be the first network device to boot from
        let devices = f.uefi_network.as_slice();
        assert(devices.deep_view() =~= f.uefi_network.deep_view());
        match find_device(devices, mac_address) {
            Some(pos) => {
                let devices = swap_first(&f.uefi_network, pos);
                io.send(self.change_fixed_order(&order, &devices))?;
                Ok(None)
            },
            None => {
                let what = cat3(
                    "No match for Mellanox/Nvidia HTTP adapter with MAC address ",
                    mac_address,
                    " in network boot order",
                );
                Err(Stop::Fail(not_supported(what.as_str())))
            },
        }
    }

    /// Makes a DPU the first netboot device: by the standard boot order, or, where
    /// the machine has none, by the fixed one.
    pub open spec fn set_boot_order_dpu_first_flow(&self, interface: BootInterfaceRef, t: Tape) -> Flow<
        Option<Seq<char>>,
    > {
        self.s.boot_interface_mac_flow(interface, t).and_then(
            |mac: Seq<char>, t: Tape|
                match self.try_standard_order_flow(mac, t) {
                    Flow::Ready(done, t) => if done {
                        Flow::Ready(None, t)
                    } else {
                        self.fixed_dpu_first_flow(mac, t)
                    },
                    Flow::Fail(e, t) => if boot_order_unknown(e) {
                        self.fixed_dpu_first_flow(mac, t)
                    } else {
                        Flow::Fail(e, t)
                    },
                    Flow::Wait(q, k) => Flow::Wait(q, k),
                },
        )
    }

    /// Set the DPU to be our first netboot device.
    /// The HTTP adapter will only appear after IPv4HTTPSupport bios setting is enabled and the host rebooted.
    pub fn set_boot_order_dpu_first<'a>(
        &self,
        boot_interface: BootInterfaceRef<'_>,
        io: &mut Exchange<'a>,
    ) -> (r: Result<Option<String>, Stop>)
        requires
            fixed_orders_usable(old(io)@),
        ensures
            flow(r, final(io)@) == self.set_boot_order_dpu_first_flow(boot_interface, old(io)@),
    {
        let mac: String = self.s.resolve_boot_interface_mac(boot_interface, io)?;
        match self.try_set_standard_boot_order_dpu_first(mac.as_str(), io) {
            Ok(true) => {
                return Ok(None);
            },
            Ok(false) => {},
            Err(Stop::Fail(e)) => {
                // Fall back to the following method if we get this error:
                // HTTP 400 - "The property BootOrder is not in the list of valid properties for the resource"
                if !is_boot_order_unknown(&e) {
                    return Err(Stop::Fail(e));
                }
            },
            Err(stop) => {
                return Err(stop);
            },
        }
        self.set_fixed_boot_order_dpu_first(mac.as_str(), io)
    }

    /// How the fixed boot order deviates, if it does.
    pub open spec fn fixed_diff_flow(&self, mac: Seq<char>, t: Tape) -> Flow<Option<DiffView>> {
        fetched::<FixedBootOrder>(get(self.fixed_order_path()), t).map(
            |f: FixedBootOrder|
                fixed_diff(f.fixed_boot_order.deep_view(), f.uefi_network.deep_view(), mac),
        )
    }

    /// How the fixed boot order deviates, if it does.
    pub fn load_fixed_boot_order_diff<'a>(&self, boot_interface_mac: &str, io: &mut Exchange<'a>) -> (r:
        Result<Option<MachineSetupDiff>, Stop>)
        ensures
            flow(r, final(io)@) == self.fixed_diff_flow(boot_interface_mac@, old(io)@),
    {
        let f: &'a FixedBootOrder = io.fetch::<FixedBootOrder>(self.get_boot_order())?;
        let fixed = f.fixed_boot_order.as_slice();
        let network = f.uefi_network.as_slice();
        assert(fixed.deep_view() =~= f.fixed_boot_order.deep_view());
        assert(network.deep_view() =~= f.uefi_network.deep_view());
        Ok(fixed_boot_order_diff(fixed, network, boot_interface_mac))
    }

    /// How the boot order deviates from one that boots the DPU with the MAC address
    /// `mac` first, if it does.
    pub open spec fn boot_order_diff_flow(&self, mac: Seq<char>, t: Tape) -> Flow<
        Option<DiffView>,
    > {
        match fetched::<References>(get(self.s.system_path("/BootOptions"@)), t) {
            Flow::Ready(options, t) => self.s.system_flow(t).and_then(
                |system: ComputerSystem, t: Tape|
                    if system.boot.boot_order@.len() == 0 {
                        self.fixed_diff_flow(mac, t)
                    } else {
                        self.s.boot_options_at(options.members@, Seq::empty(), t).map(
                            |found: Seq<BootOption>|
                                standard_diff(system.boot.boot_order.deep_view(), found, mac),
                        )
                    },
            ),
            Flow::Fail(e, t) => if boot_order_unknown(e) {
                self.fixed_diff_flow(mac, t)
            } else {
                Flow::Fail(e, t)
            },
            Flow::Wait(q, k) => Flow::Wait(q, k),
        }
    }

    /// How the boot order deviates from one that boots the DPU first, if it does.
    pub fn boot_order_diff<'a>(&self, boot_interface_mac: &str, io: &mut Exchange<'a>) -> (r: Result<
        Option<MachineSetupDiff>,
        Stop,
    >)
        ensures
            flow(r, final(io)@) == self.boot_order_diff_flow(boot_interface_mac@, old(io)@),
    {
        // Try using standard BootOptions first
        let all: &'a References = match io.fetch::<References>(self.s.get_boot_options()) {
            Ok(all) => all,
            Err(Stop::Fail(e)) => {
                if is_boot_order_unknown(&e) {
                    // Fall back to FixedBootOrder for platforms that don't support standard BootOptions
                    return self.load_fixed_boot_order_diff(boot_interface_mac, io);
                }
                return Err(Stop::Fail(e));
            },
            Err(stop) => {
                return Err(stop);
            },
        };
        let system: &'a ComputerSystem = io.fetch::<ComputerSystem>(self.s.get_system())?;
        if system.boot.boot_order.len() == 0 {
            return self.load_fixed_boot_order_diff(boot_interface_mac, io);
        }
        let options: Vec<&'a BootOption> = self.s.follow_boot_options(all, io)?;
        assert(refs(options@) =~= options.deep_view());
        let order = system.boot.boot_order.as_slice();
        assert(order.deep_view() =~= system.boot.boot_order.deep_view());
        Ok(diff_standard_order(order, &options, boot_interface_mac))
    }

    /// Whether the boot order is set up.
    pub open spec fn is_boot_order_setup_flow(&self, interface: BootInterfaceRef, t: Tape) -> Flow<
        bool,
    > {
        self.s.boot_interface_mac_flow(interface, t).and_then(
            |mac: Seq<char>, t: Tape|
                self.boot_order_diff_flow(mac, t).map(|diff: Option<DiffView>| diff is None),
        )
    }

    /// Whether the boot order is set up.
    pub fn is_boot_order_setup<'a>(
        &self,
        boot_interface: BootInterfaceRef<'_>,
        io: &mut Exchange<'a>,
    ) -> (r: Result<bool, Stop>)
        ensures
            flow(r, final(io)@) == self.is_boot_order_setup_flow(boot_interface, old(io)@),
    {
        let mac: String = self.s.resolve_boot_interface_mac(boot_interface, io)?;
        let diff: Option<MachineSetupDiff> = self.boot_order_diff(mac.as_str(), io)?;
        Ok(diff.is_none())
    }
}

/// A copy of `v`.
fn copy_texts(v: &Vec<String>) -> (r: Vec<String>)
    ensures
        r.deep_view() == v.deep_view(),
{
    let mut r: Vec<String> = Vec::new();
    let mut i: usize = 0;
    while i < v.len()
        invariant
            i <= v.len(),
            r.len() == i,
            forall|k: int| 0 <= k < i ==> #[trigger] r@[k] == v@[k],
        decreases v.len() - i,
    {
        r.push(v[i].clone());
        i = i + 1;
    }
    assert(r.deep_view() =~= v.deep_view());
    r
}

} // verus!
