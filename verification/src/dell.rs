//! Dell machines with an iDRAC.
use crate::dell_bios::{
    all_checked, bios_expectations, bios_serial_report, bios_serial_status, check_bios, check_oem,
    joined, lockdown_report, lockdown_status_of, machine_bios_attrs, oem_all_checked,
    remote_access_report, remote_access_status, setup_attrs,
};
use crate::dell_settings::{BiosAttrs, MachineBiosAttrs};
use crate::error::{generic, invalid_value, missing_key, outcome, ErrorView, Fault, RedfishError};
use crate::exchange::{
    fetched, flow, get, settle, settled, Exchange, Flow, Request, RequestView, Stop, Tape,
};
use crate::json::{as_entries, as_text, lookup, Json, JsonView, Object, ObjectView};
use crate::jsonmap::{entries_of, get_object, get_str, get_value, text_of, value_of};
use crate::model::{
    add_status_diff, status_diff, BiosProfileType, BiosSerial, Chassis, DiffView, Location,
    MachineSetupDiff, Members, NetworkAdapter, NetworkDeviceFunction, RedfishVendor, Report, Status,
    StatusInternal, StatusView, Written,
};
use crate::outside::{lowercased, to_lowercase};
use crate::requests::collection_request;
use crate::search::{first_where_absent, first_where_found, found_where};
use crate::standard::RedfishStandard;
use crate::text::{after_last, cat2, cat4, cat5, contains, has, last_segment, same};
use vstd::prelude::*;
use vstd::string::*;
use vstd::utf8::encode_utf8;

verus! {

/// The name of the password that guards the UEFI settings.
pub const UEFI_PASSWORD_NAME: &'static str = "SetupPassword";

/// The last of the accounts that an iDRAC has.
pub const MAX_ACCOUNT_ID: u8 = 16;

/// A Dell machine.
#[derive(Debug, PartialEq, Eq)]
pub struct Bmc {
    pub s: RedfishStandard,
}

/// Whether a network function has the MAC address `mac`, in any case.
pub open spec fn has_mac(f: NetworkDeviceFunction, mac: Seq<char>) -> bool {
    f.ethernet matches Some(ethernet) && (ethernet.mac_address matches Some(m) && lowercased(m@)
        == lowercased(mac))
}

/// Whether a network function has the MAC address `mac`, in any case.
pub fn function_has_mac(f: &NetworkDeviceFunction, mac: &str) -> (r: bool)
    ensures
        r == has_mac(*f, mac@),
{
    match &f.ethernet {
        Some(ethernet) => match &ethernet.mac_address {
            Some(m) => {
                let a = to_lowercase(m.as_str());
                let b = to_lowercase(mac);
                same(a.as_str(), b.as_str())
            },
            None => false,
        },
        None => false,
    }
}

/// The first of `functions` with the MAC address `mac`.
pub open spec fn function_with_mac(functions: Seq<NetworkDeviceFunction>, mac: Seq<char>) -> Option<
    NetworkDeviceFunction,
> {
    found_where(functions, |f: NetworkDeviceFunction| has_mac(f, mac))
}

/// The first of `functions` with the MAC address `mac`.
fn find_function<'a>(functions: &'a Vec<NetworkDeviceFunction>, mac: &str) -> (r: Option<
    &'a NetworkDeviceFunction,
>)
    ensures
        r.deep_view() == function_with_mac(functions@, mac@),
{
    let ghost p = |f: NetworkDeviceFunction| has_mac(f, mac@);
    let mut i: usize = 0;
    while i < functions.len()
        invariant
            i <= functions.len(),
            p == (|f: NetworkDeviceFunction| has_mac(f, mac@)),
            forall|k: int| 0 <= k < i ==> !p(#[trigger] functions@[k]),
        decreases functions.len() - i,
    {
        if function_has_mac(&functions[i], mac) {
            proof {
                first_where_found(functions@, p, i as int);
            }
            return Some(&functions[i]);
        }
        i = i + 1;
    }
    proof {
        first_where_absent(functions@, p);
    }
    None
}

/// The first function with the MAC address `mac` of the network adapters in
/// `adapters`.
pub open spec fn function_among(adapters: Seq<NetworkAdapter>, mac: Seq<char>, t: Tape) -> Flow<
    NetworkDeviceFunction,
>
    decreases adapters.len(),
{
    if adapters.len() == 0 {
        Flow::Fail(
            Fault::GenericError { error: "could not find network device function for "@ + mac },
            t,
        )
    } else {
        match adapters[0].network_device_functions {
            None => function_among(adapters.drop_first(), mac, t),
            Some(link) => match fetched::<Members<NetworkDeviceFunction>>(
                collection_request(link.odata_id@),
                t,
            ) {
                Flow::Ready(functions, t) => match function_with_mac(functions.members@, mac) {
                    Some(f) => Flow::Ready(f, t),
                    None => function_among(adapters.drop_first(), mac, t),
                },
                Flow::Fail(e, t) => Flow::Fail(e, t),
                Flow::Wait(q, k) => Flow::Wait(q, k),
            },
        }
    }
}

/// What Dell says of a network function.
pub open spec fn dell_nic(f: NetworkDeviceFunction) -> Result<ObjectView, ErrorView> {
    match f.oem {
        None => Err(ErrorView::GenericError { error: "OEM information is missing"@ }),
        Some(oem) => match lookup(oem@, "Dell"@) {
            None => Err(ErrorView::GenericError { error: "Dell OEM information is missing"@ }),
            Some(JsonView::Object(dell)) => match as_entries(lookup(dell, "DellNIC"@)) {
                Some(nic) => Ok(nic),
                None => Err(
                    ErrorView::GenericError {
                        error: "DellNIC information is not a valid object or is missing"@,
                    },
                ),
            },
            Some(_) => Err(
                ErrorView::GenericError { error: "Dell OEM information is not a valid object"@ },
            ),
        },
    }
}

/// What Dell says of a network function.
pub fn dell_nic_of<'a>(f: &'a NetworkDeviceFunction) -> (r: Result<&'a Object, RedfishError>)
    ensures
        outcome(r) == dell_nic(*f),
{
    let Some(oem) = &f.oem else {
        return Err(generic("OEM information is missing"));
    };
    let Some(dell) = oem.get("Dell") else {
        return Err(generic("Dell OEM information is missing"));
    };
    let Some(map) = dell.as_object() else {
        return Err(generic("Dell OEM information is not a valid object"));
    };
    match map.get("DellNIC") {
        Some(nic) => match nic.as_object() {
            Some(o) => Ok(o),
            None => Err(generic("DellNIC information is not a valid object or is missing")),
        },
        None => Err(generic("DellNIC information is not a valid object or is missing")),
    }
}

/// The id of the job that an answer from `url` names in its headers.
pub open spec fn job_id(url: Seq<char>, headers: Option<Location>) -> Result<Seq<char>, ErrorView> {
    match headers {
        None => Err(ErrorView::NoHeader),
        Some(Location::Missing) => Err(ErrorView::MissingKey { key: "location"@, url }),
        Some(Location::NotText(err)) => Err(
            ErrorView::InvalidValue { url, field: "location"@, err: err@ },
        ),
        Some(Location::Text(location)) => Ok(after_last(location@, '/')),
    }
}

/// The id of the job that an answer from `url` names in its headers.
pub fn parse_job_id_from_response_headers(url: &str, headers: &Option<Location>) -> (r: Result<
    String,
    RedfishError,
>)
    ensures
        outcome(r) == job_id(url@, *headers),
{
    match headers {
        None => Err(Fault::NoHeader),
        Some(Location::Missing) => Err(missing_key("location", url)),
        Some(Location::NotText(err)) => Err(invalid_value(url, "location", err.as_str())),
        Some(Location::Text(location)) => Ok(last_segment(location.as_str(), '/').to_owned()),
    }
}

/// What comes of a request that starts a job: its id.
pub open spec fn job_flow(request: RequestView, t: Tape) -> Flow<Seq<char>> {
    fetched::<Written>(request, t).and_then(
        |w: Written, t: Tape| settled(job_id(request.url, w.headers), t),
    )
}

/// Sends a request that starts a job.
pub fn start_job<'a>(request: Request, io: &mut Exchange<'a>) -> (r: Result<String, Stop>)
    ensures
        flow(r, final(io)@) == job_flow(request@, old(io)@),
{
    let url = request.url.clone();
    let written: &'a Written = io.fetch::<Written>(request)?;
    settle(parse_job_id_from_response_headers(url.as_str(), &written.headers))
}

/// Whether a failure says that a setting is read-only.
pub open spec fn read_only(e: ErrorView) -> bool {
    e matches Fault::HTTPErrorCode { status_code, response_body, .. } && status_code == 400 && has(
        response_body,
        "read-only"@,
    )
}

/// Whether a failure says that a setting is read-only.
pub fn is_read_only(e: &RedfishError) -> (r: bool)
    ensures
        r == read_only(e@),
{
    match e {
        Fault::HTTPErrorCode { status_code, response_body, .. } => *status_code == 400 && contains(
            response_body.as_str(),
            "read-only",
        ),
        _ => false,
    }
}

/// The extra BIOS values of one profile.
#[derive(Debug, PartialEq, Eq)]
pub struct Profile {
    pub profile: BiosProfileType,
    pub values: Object,
}

/// The profiles of one model.
#[derive(Debug, PartialEq, Eq)]
pub struct ModelProfiles {
    pub model: String,
    pub profiles: Vec<Profile>,
}

/// The profiles of one vendor.
#[derive(Debug, PartialEq, Eq)]
pub struct VendorProfiles {
    pub vendor: RedfishVendor,
    pub models: Vec<ModelProfiles>,
}

/// Whether profiles are those of Dell.
pub open spec fn for_dell() -> spec_fn(VendorProfiles) -> bool {
    |v: VendorProfiles| v.vendor == RedfishVendor::Dell
}

/// Whether profiles are those of `model`.
pub open spec fn for_model(model: Seq<char>) -> spec_fn(ModelProfiles) -> bool {
    |m: ModelProfiles| m.model@ == model
}

/// Whether a profile is `profile`.
pub open spec fn for_profile(profile: BiosProfileType) -> spec_fn(Profile) -> bool {
    |p: Profile| p.profile == profile
}

/// The models of which there are profiles for Dell.
pub open spec fn dell_models(profiles: Seq<VendorProfiles>) -> Option<Seq<ModelProfiles>> {
    match found_where(profiles, for_dell()) {
        Some(v) => Some(v.models@),
        None => None,
    }
}

/// The extra BIOS values for a model, in a profile.
pub open spec fn extra_values(
    models: Seq<ModelProfiles>,
    model: Seq<char>,
    profile: BiosProfileType,
) -> Option<ObjectView> {
    match found_where(models, for_model(model)) {
        Some(m) => match found_where(m.profiles@, for_profile(profile)) {
            Some(p) => Some(p.values@),
            None => None,
        },
        None => None,
    }
}

/// The models of which there are profiles for Dell.
pub fn find_dell_models<'a>(profiles: &'a Vec<VendorProfiles>) -> (r: Option<&'a Vec<ModelProfiles>>)
    ensures
        dell_models(profiles@) == (match r {
            Some(models) => Some(models@),
            None => None,
        }),
{
    let ghost p = for_dell();
    let mut i: usize = 0;
    while i < profiles.len()
        invariant
            i <= profiles.len(),
            p == for_dell(),
            forall|k: int| 0 <= k < i ==> !p(#[trigger] profiles@[k]),
        decreases profiles.len() - i,
    {
        if profiles[i].vendor == RedfishVendor::Dell {
            proof {
                first_where_found(profiles@, p, i as int);
            }
            return Some(&profiles[i].models);
        }
        i = i + 1;
    }
    proof {
        first_where_absent(profiles@, p);
    }
    None
}

/// The extra BIOS values of a profile.
fn find_profile<'a>(profiles: &'a Vec<Profile>, profile: BiosProfileType) -> (r: Option<
    &'a Object,
>)
    ensures
        r.deep_view() == (match found_where(profiles@, for_profile(profile)) {
            Some(p) => Some(p.values@),
            None => None,
        }),
{
    let ghost is_it = for_profile(profile);
    let mut i: usize = 0;
    while i < profiles.len()
        invariant
            i <= profiles.len(),
            is_it == for_profile(profile),
            forall|k: int| 0 <= k < i ==> !is_it(#[trigger] profiles@[k]),
        decreases profiles.len() - i,
    {
        if profiles[i].profile == profile {
            proof {
                first_where_found(profiles@, is_it, i as int);
            }
            return Some(&profiles[i].values);
        }
        i = i + 1;
    }
    proof {
        first_where_absent(profiles@, is_it);
    }
    None
}

/// The extra BIOS values for a model, in a profile.
pub fn find_extra_values<'a>(
    models: &'a Vec<ModelProfiles>,
    model: &str,
    profile: BiosProfileType,
) -> (r: Option<&'a Object>)
    ensures
        r.deep_view() == extra_values(models@, model@, profile),
{
    let ghost is_it = for_model(model@);
    let mut i: usize = 0;
    while i < models.len()
        invariant
            i <= models.len(),
            is_it == for_model(model@),
            forall|k: int| 0 <= k < i ==> !is_it(#[trigger] models@[k]),
        decreases models.len() - i,
    {
        if same(models[i].model.as_str(), model) {
            proof {
                first_where_found(models@, is_it, i as int);
            }
            return find_profile(&models[i].profiles, profile);
        }
        i = i + 1;
    }
    proof {
        first_where_absent(models@, is_it);
    }
    None
}

impl Bmc {
    /// A Dell machine.
    pub fn new(s: RedfishStandard) -> (r: Result<Bmc, RedfishError>)
        ensures
            r matches Ok(bmc) && bmc.s == s,
    {
        Ok(Bmc { s })
    }

    /// Where the attributes of the manager are.
    pub open spec fn attributes_path(&self) -> Seq<char> {
        "Managers/"@ + self.s.manager() + "/Oem/Dell/DellAttributes/"@ + self.s.manager()
    }

    /// Where the attributes of the manager are.
    pub fn attributes_url(&self) -> (r: String)
        ensures
            r@ == self.attributes_path(),
    {
        cat4("Managers/", self.s.manager_id(), "/Oem/Dell/DellAttributes/", self.s.manager_id())
    }

    /// Where BIOS attributes are changed.
    pub open spec fn bios_settings_path(&self) -> Seq<char> {
        self.s.system_path("/Bios/Settings/"@)
    }

    /// The attributes of the manager, and where they are, for diagnostics.
    pub open spec fn manager_attributes_flow(&self, t: Tape) -> Flow<(ObjectView, Seq<char>)> {
        let url = self.attributes_path();
        fetched::<Object>(get(url), t).and_then(
            |body: ObjectView, t: Tape| settled(entries_of(body, "Attributes"@, url), t),
        ).map(|attrs: ObjectView| (attrs, url))
    }

    /// The attributes of the manager, and where they are, for diagnostics.
    pub fn manager_attributes<'a>(&self, io: &mut Exchange<'a>) -> (r: Result<
        (&'a Object, String),
        Stop,
    >)
        ensures
            flow(r, final(io)@) == self.manager_attributes_flow(old(io)@),
    {
        let url = self.attributes_url();
        let body: &'a Object = io.fetch::<Object>(Request::get(url.clone()))?;
        let attrs: &'a Object = settle(get_object(body, "Attributes", url.as_str()))?;
        Ok((attrs, url))
    }

    /// The attributes of the manager, as one value.
    pub open spec fn manager_dell_oem_attributes_flow(&self, t: Tape) -> Flow<JsonView> {
        let url = self.attributes_path();
        fetched::<Object>(get(url), t).and_then(
            |body: ObjectView, t: Tape| settled(value_of(body, "Attributes"@, url), t),
        )
    }

    /// The attributes of the manager, as one value.
    pub fn manager_dell_oem_attributes<'a>(&self, io: &mut Exchange<'a>) -> (r: Result<
        &'a Json,
        Stop,
    >)
        ensures
            flow(r, final(io)@) == self.manager_dell_oem_attributes_flow(old(io)@),
    {
        let url = self.attributes_url();
        let body: &'a Object = io.fetch::<Object>(Request::get(url.clone()))?;
        settle(get_value(body, "Attributes", url.as_str()))
    }

    /// Whether system lockdown is enabled.
    pub open spec fn is_lockdown_flow(&self, t: Tape) -> Flow<bool> {
        self.manager_attributes_flow(t).and_then(
            |found: (ObjectView, Seq<char>), t: Tape|
                settled(text_of(found.0, "Lockdown.1.SystemLockdown"@, found.1), t).map(
                    |lockdown: Seq<char>| lockdown == "Enabled"@,
                ),
        )
    }

    /// Whether system lockdown is enabled.
    pub fn is_lockdown<'a>(&self, io: &mut Exchange<'a>) -> (r: Result<bool, Stop>)
        ensures
            flow(r, final(io)@) == self.is_lockdown_flow(old(io)@),
    {
        let (attrs, url): (&'a Object, String) = self.manager_attributes(io)?;
        let lockdown: &'a str = settle(get_str(attrs, "Lockdown.1.SystemLockdown", url.as_str()))?;
        Ok(same(lockdown, "Enabled"))
    }

    /// Whether the BMC is locked.
    pub open spec fn lockdown_status_flow(&self, t: Tape) -> Flow<StatusView> {
        self.manager_attributes_flow(t).and_then(
            |found: (ObjectView, Seq<char>), t: Tape|
                settled(lockdown_report(found.0, found.1), t),
        )
    }

    /// Whether the BMC is locked.
    pub fn lockdown_status<'a>(&self, io: &mut Exchange<'a>) -> (r: Result<Status, Stop>)
        ensures
            flow(r, final(io)@) == self.lockdown_status_flow(old(io)@),
    {
        let (attrs, url): (&'a Object, String) = self.manager_attributes(io)?;
        settle(lockdown_status_of(attrs, url.as_str()))
    }

    /// Whether remote access is set up.
    pub open spec fn bmc_remote_access_status_flow(&self, t: Tape) -> Flow<StatusView> {
        self.manager_attributes_flow(t).and_then(
            |found: (ObjectView, Seq<char>), t: Tape|
                settled(remote_access_report(found.0, self.attributes_path()), t),
        )
    }

    /// Whether remote access is set up.
    pub fn bmc_remote_access_status<'a>(&self, io: &mut Exchange<'a>) -> (r: Result<Status, Stop>)
        ensures
            flow(r, final(io)@) == self.bmc_remote_access_status_flow(old(io)@),
    {
        let (attrs, _): (&'a Object, String) = self.manager_attributes(io)?;
        // url is for error messages only
        let url = self.attributes_url();
        settle(remote_access_status(attrs, url.as_str()))
    }

    /// Whether the BIOS is set up for a serial console.
    pub open spec fn bios_serial_console_status_flow(&self, t: Tape) -> Flow<StatusView> {
        let url = self.s.system_path("/Bios"@);
        fetched::<BiosSerial>(get(url), t).and_then(
            |bios: BiosSerial, t: Tape| settled(bios_serial_report(bios, url), t),
        )
    }

    /// Whether the BIOS is set up for a serial console.
    pub fn bios_serial_console_status<'a>(&self, io: &mut Exchange<'a>) -> (r: Result<Status, Stop>)
        ensures
            flow(r, final(io)@) == self.bios_serial_console_status_flow(old(io)@),
    {
        let url = self.s.system_url("/Bios");
        let bios: &'a BiosSerial = io.fetch::<BiosSerial>(Request::get(url.clone()))?;
        settle(bios_serial_status(bios, url.as_str()))
    }

    /// The status of the serial console, of which the BMC and the BIOS each have a
    /// side.
    pub open spec fn both_sides(bmc: StatusView, bios: StatusView) -> StatusView {
        Report {
            message: "BMC: "@ + bmc.message + ". BIOS: "@ + bios.message + "."@,
            status: match (bmc.status, bios.status) {
                (StatusInternal::Enabled, StatusInternal::Enabled) => StatusInternal::Enabled,
                (StatusInternal::Disabled, StatusInternal::Disabled) => StatusInternal::Disabled,
                _ => StatusInternal::Partial,
            },
        }
    }

    /// Whether the serial console is set up.
    pub open spec fn serial_console_status_flow(&self, t: Tape) -> Flow<StatusView> {
        self.bmc_remote_access_status_flow(t).and_then(
            |bmc: StatusView, t: Tape|
                self.bios_serial_console_status_flow(t).map(
                    |bios: StatusView| Self::both_sides(bmc, bios),
                ),
        )
    }

    /// Whether the serial console is set up.
    pub fn serial_console_status<'a>(&self, io: &mut Exchange<'a>) -> (r: Result<Status, Stop>)
        ensures
            flow(r, final(io)@) == self.serial_console_status_flow(old(io)@),
    {
        let bmc: Status = self.bmc_remote_access_status(io)?;
        let bios: Status = self.bios_serial_console_status(io)?;
        let status = match (bmc.status, bios.status) {
            (StatusInternal::Enabled, StatusInternal::Enabled) => StatusInternal::Enabled,
            (StatusInternal::Disabled, StatusInternal::Disabled) => StatusInternal::Disabled,
            _ => StatusInternal::Partial,
        };
        let message = cat5(
            "BMC: ",
            bmc.message.as_str(),
            ". BIOS: ",
            bios.message.as_str(),
            ".",
        );
        Ok(Report { message, status })
    }

    /// The network function with the MAC address `mac`.
    pub open spec fn dpu_nw_device_function_flow(&self, mac: Seq<char>, t: Tape) -> Flow<
        NetworkDeviceFunction,
    > {
        fetched::<Chassis>(get("Chassis/"@ + self.s.system()), t).and_then(
            |chassis: Chassis, t: Tape|
                match chassis.network_adapters {
                    None => Flow::Fail(
                        Fault::MissingKey {
                            key: "network_adapters"@,
                            url: match chassis.odata {
                                Some(link) => link.odata_id@,
                                None => "empty_odata_id_url"@,
                            },
                        },
                        t,
                    ),
                    Some(link) => fetched::<Members<NetworkAdapter>>(
                        collection_request(link.odata_id@),
                        t,
                    ).and_then(
                        |adapters: Members<NetworkAdapter>, t: Tape|
                            function_among(adapters.members@, mac, t),
                    ),
                },
        )
    }

    /// The network function with the MAC address `boot_interface_mac_address`.
    pub fn get_dpu_nw_device_function<'a>(
        &self,
        boot_interface_mac_address: &str,
        io: &mut Exchange<'a>,
    ) -> (r: Result<&'a NetworkDeviceFunction, Stop>)
        ensures
            flow(r, final(io)@) == self.dpu_nw_device_function_flow(
                boot_interface_mac_address@,
                old(io)@,
            ),
    {
        let mac = boot_interface_mac_address;
        let chassis: &'a Chassis = io.fetch::<Chassis>(self.s.get_chassis(self.s.system_id()))?;
        let Some(link) = &chassis.network_adapters else {
            let url = match &chassis.odata {
                Some(link) => link.odata_id.as_str(),
                None => "empty_odata_id_url",
            };
            return Err(Stop::Fail(missing_key("network_adapters", url)));
        };
        let adapters: &'a Members<NetworkAdapter> = io.fetch::<Members<NetworkAdapter>>(
            self.s.get_collection(link),
        )?;
        let ghost all = adapters.members@;
        let mut i: usize = 0;
        assert(all.skip(0) =~= all);
        while i < adapters.members.len()
            invariant
                i <= adapters.members.len(),
                all == adapters.members@,
                mac == boot_interface_mac_address,
                self.dpu_nw_device_function_flow(mac@, old(io)@) == function_among(
                    all.skip(i as int),
                    mac@,
                    io@,
                ),
            decreases adapters.members.len() - i,
        {
            assert(all.skip(i as int).drop_first() =~= all.skip(i + 1));
            assert(all.skip(i as int)[0] == all[i as int]);
            if let Some(link) = &adapters.members[i].network_device_functions {
                let functions: &'a Members<NetworkDeviceFunction> = io.fetch::<
                    Members<NetworkDeviceFunction>,
                >(self.s.get_collection(link))?;
                if let Some(f) = find_function(&functions.members, mac) {
                    return Ok(f);
                }
            }
            i = i + 1;
        }
        let error = cat2("could not find network device function for ", mac);
        Err(Stop::Fail(generic(error.as_str())))
    }

    /// What Dell says of the network function with the MAC address `mac`.
    pub open spec fn dell_nic_info_flow(&self, mac: Seq<char>, t: Tape) -> Flow<ObjectView> {
        self.dpu_nw_device_function_flow(mac, t).and_then(
            |f: NetworkDeviceFunction, t: Tape| settled(dell_nic(f), t),
        )
    }

    /// What Dell says of the network function with the MAC address `mac_address`.
    pub fn get_dell_nic_info<'a>(&self, mac_address: &str, io: &mut Exchange<'a>) -> (r: Result<
        &'a Object,
        Stop,
    >)
        ensures
            flow(r, final(io)@) == self.dell_nic_info_flow(mac_address@, old(io)@),
    {
        let f: &'a NetworkDeviceFunction = self.get_dpu_nw_device_function(mac_address, io)?;
        settle(dell_nic_of(f))
    }

    /// The slot of a network card, such as `NIC.Slot.5-1`.
    pub open spec fn dpu_nic_slot_flow(&self, mac: Seq<char>, t: Tape) -> Flow<Seq<char>> {
        self.dell_nic_info_flow(mac, t).and_then(
            |nic: ObjectView, t: Tape|
                match as_text(lookup(nic, "Id"@)) {
                    Some(id) => Flow::Ready(id, t),
                    None => Flow::Fail(
                        Fault::GenericError {
                            error: "NIC slot ID is missing or not a valid string"@,
                        },
                        t,
                    ),
                },
        )
    }

    /// Returns a string like "NIC.Slot.5-1"
    pub fn dpu_nic_slot<'a>(&self, mac_address: &str, io: &mut Exchange<'a>) -> (r: Result<
        &'a str,
        Stop,
    >)
        ensures
            flow(r, final(io)@) == self.dpu_nic_slot_flow(mac_address@, old(io)@),
    {
        let nic: &'a Object = self.get_dell_nic_info(mac_address, io)?;
        if let Some(v) = nic.get("Id") {
            if let Some(id) = v.as_str() {
                return Ok(id);
            }
        }
        Err(Stop::Fail(generic("NIC slot ID is missing or not a valid string")))
    }

    /// The slot of the network card to boot from; where there is none, nothing.
    pub open spec fn nic_slot_flow(&self, mac: Option<Seq<char>>, t: Tape) -> Flow<Seq<char>> {
        match mac {
            Some(mac) => self.dpu_nic_slot_flow(mac, t),
            None => Flow::Ready(""@, t),
        }
    }

    /// The slot of the network card to boot from; where there is none, nothing.
    pub fn nic_slot<'a>(&self, mac: Option<&str>, io: &mut Exchange<'a>) -> (r: Result<&'a str, Stop>)
        ensures
            flow(r, final(io)@) == self.nic_slot_flow(mac.deep_view(), old(io)@),
    {
        match mac {
            Some(mac) => self.dpu_nic_slot(mac, io),
            None => Ok(""),
        }
    }

    /// The BIOS attributes of a machine that is set up to boot from `nic_slot`.
    pub open spec fn machine_setup_attrs_flow(&self, nic_slot: Seq<char>, t: Tape) -> Flow<
        BiosAttrs<Seq<char>>,
    > {
        self.s.bios_attributes_flow(t).map(|bios: JsonView| setup_attrs(bios, nic_slot))
    }

    /// The BIOS attributes of a machine that is set up to boot from `nic_slot`.
    pub fn machine_setup_attrs<'a>(&self, nic_slot: &str, io: &mut Exchange<'a>) -> (r: Result<
        MachineBiosAttrs,
        Stop,
    >)
        ensures
            flow(r, final(io)@) == self.machine_setup_attrs_flow(nic_slot@, old(io)@),
    {
        let bios: &'a Json = self.s.bios_attributes(io)?;
        Ok(machine_bios_attrs(bios, nic_slot))
    }

    /// How the BIOS and BMC attributes deviate from those of a machine that is set
    /// up.
    pub open spec fn diff_bios_bmc_attr_flow(&self, mac: Option<Seq<char>>, t: Tape) -> Flow<
        Seq<DiffView>,
    > {
        self.s.bios_attributes_flow(t).and_then(
            |bios: JsonView, t: Tape|
                self.nic_slot_flow(mac, t).and_then(
                    |slot: Seq<char>, t: Tape|
                        self.machine_setup_attrs_flow(slot, t).and_then(
                            |attrs: BiosAttrs<Seq<char>>, t: Tape|
                                settled(
                                    all_checked(bios, bios_expectations(attrs, bios)),
                                    t,
                                ).and_then(
                                    |diffs: Seq<DiffView>, t: Tape| self.diff_bmc_flow(diffs, t),
                                ),
                        ),
                ),
        )
    }

    /// How the BMC attributes deviate, after the deviations `diffs`.
    pub open spec fn diff_bmc_flow(&self, diffs: Seq<DiffView>, t: Tape) -> Flow<Seq<DiffView>> {
        self.manager_dell_oem_attributes_flow(t).and_then(
            |attrs: JsonView, t: Tape|
                settled(joined(Ok(diffs), oem_all_checked(attrs)), t).and_then(
                    |diffs: Seq<DiffView>, t: Tape|
                        self.bmc_remote_access_status_flow(t).map(
                            |status: StatusView|
                                diffs + status_diff("bmc_remote_access"@, status),
                        ),
                ),
        )
    }

    /// Check BIOS and BMC attributes and return differences
    pub fn diff_bios_bmc_attr<'a>(&self, boot_interface_mac: Option<&str>, io: &mut Exchange<'a>) -> (r:
        Result<Vec<MachineSetupDiff>, Stop>)
        ensures
            flow(r, final(io)@) == self.diff_bios_bmc_attr_flow(
                boot_interface_mac.deep_view(),
                old(io)@,
            ),
    {
        let bios: &'a Json = self.s.bios_attributes(io)?;
        let nic_slot: &'a str = self.nic_slot(boot_interface_mac, io)?;
        let expected: MachineBiosAttrs = self.machine_setup_attrs(nic_slot, io)?;
        let mut diffs: Vec<MachineSetupDiff> = settle(check_bios(bios, &expected))?;
        let attrs: &'a Json = self.manager_dell_oem_attributes(io)?;
        if let Err(e) = check_oem(attrs, &mut diffs) {
            return Err(Stop::Fail(e));
        }
        let remote_access: Status = self.bmc_remote_access_status(io)?;
        add_status_diff(&mut diffs, "bmc_remote_access", &remote_access);
        Ok(diffs)
    }
}

} // verus!
