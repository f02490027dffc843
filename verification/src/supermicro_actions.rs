//! What is asked of and done to Supermicro machines.
use crate::error::{
    invalid_key_type, invalid_value, missing_key, not_supported, outcome, ErrorView, Fault,
    RedfishError,
};
use crate::exchange::{
    fetched, flow, get, patch, plain, post, sent, settle, settled, Exchange, Flow, Method, Payload,
    PayloadView, Request, RequestView, Stop, Tape, Timeout,
};
use crate::json::{extended, rendered, Json, JsonView, Object, ObjectView};
use crate::jsonmap::{get_bool, get_str, text_of, truth_of};
use crate::model::{
    add_status_diff, setup_status, status_diff, BootInterfaceRef, Chassis, ComponentType,
    ComputerSystem, DiffView, EnabledDisabled, MachineSetupDiff, MachineSetupStatus, Manager,
    Members, PCIeDevice, Privilege, Report, SerialInterface, SetupView, Status, StatusInternal,
    StatusView, SystemPowerControl, UpdateService, Upload,
};
use crate::outside::{compare_versions, version_order};
use crate::requests::{collection_request, expanded_collection, no_lockout};
use crate::search::{first_where_absent, first_where_found, found_where};
use crate::supermicro::{is_mgx_c2_processor_module, mgx_c2_module, Bmc};
use crate::supermicro_setup::{
    add_attribute_diffs, add_keys, all_ruled, apply_rules, attribute_diffs, group_names,
    is_not_older, lockdown_report, lockdown_status_of, name_map, name_map_groups_by_canonical_name,
    not_older, ruled, setup_rules, tpm_enabled, tpm_on, update_parameters, Group, NameMapView,
    UpdateParameters, MIN_BMC_FW_IPMI_HOST_IFACE,
};
use crate::text::{begins, cat2, cat3, cat4, contains, decimal, has, numeral, starts_with};
use vstd::prelude::*;
use vstd::string::*;

verus! {

/// The first attribute that clears the TPM. Yes, it is called
/// "PendingOperation<something>".
pub open spec fn tpm_operation(attrs: ObjectView) -> Option<Seq<char>> {
    match found_where(attrs, |e: (Seq<char>, JsonView)| begins(e.0, "PendingOperation"@)) {
        Some(e) => Some(e.0),
        None => None,
    }
}

/// The first attribute that clears the TPM.
fn find_tpm_operation<'a>(attrs: &'a Object) -> (r: Option<&'a str>)
    ensures
        r.deep_view() == tpm_operation(attrs@),
{
    let ghost all = attrs@;
    let ghost p = |e: (Seq<char>, JsonView)| begins(e.0, "PendingOperation"@);
    let mut i: usize = 0;
    while i < attrs.entries.len()
        invariant
            i <= attrs.entries.len(),
            all == attrs@,
            p == (|e: (Seq<char>, JsonView)| begins(e.0, "PendingOperation"@)),
            forall|k: int| 0 <= k < i ==> !p(#[trigger] all[k]),
        decreases attrs.entries.len() - i,
    {
        let key = attrs.entries[i].key.as_str();
        assert(all[i as int] == (key@, attrs.entries@[i as int].value@));
        if starts_with(key, "PendingOperation") {
            proof {
                first_where_found(all, p, i as int);
            }
            return Some(key);
        }
        i = i + 1;
    }
    proof {
        first_where_absent(all, p);
    }
    None
}

/// Whether the serial console is set up, as the system and a serial interface of
/// the BMC say.
pub open spec fn serial_console_report(interface: SerialInterface, system: ComputerSystem) -> Result<
    StatusView,
    ErrorView,
> {
    match system.serial_console {
        None => Err(
            ErrorView::NotSupported(
                "No SerialConsole in System object. Maybe it's in Manager and you have old firmware?"@,
            ),
        ),
        Some(console) => Ok(
            Report {
                message: ""@,
                status: if console.ssh.service_enabled && console.max_concurrent_sessions != Some(
                    0i64,
                ) && interface.supermicro_default() {
                    StatusInternal::Enabled
                } else {
                    StatusInternal::Disabled
                },
            },
        ),
    }
}

/// Whether the serial console is set up.
pub fn serial_console_status_of(interface: &SerialInterface, system: &ComputerSystem) -> (r: Result<
    Status,
    RedfishError,
>)
    ensures
        outcome(r) == serial_console_report(*interface, *system),
{
    let Some(console) = &system.serial_console else {
        return Err(
            not_supported(
                "No SerialConsole in System object. Maybe it's in Manager and you have old firmware?",
            ),
        );
    };
    let has_sessions = match console.max_concurrent_sessions {
        Some(n) => n != 0,
        None => true,
    };
    let enabled = console.ssh.service_enabled && has_sessions
        && interface.is_supermicro_default();
    let status = if enabled {
        StatusInternal::Enabled
    } else {
        StatusInternal::Disabled
    };
    Ok(Report { message: "".to_owned(), status })
}

/// The PCIe devices of a chassis with the ids `ids`, after those that are already
/// there.
pub open spec fn devices_by_id(
    chassis: Seq<char>,
    ids: Seq<Seq<char>>,
    found: Seq<PCIeDevice>,
    t: Tape,
) -> Flow<Seq<PCIeDevice>>
    decreases ids.len(),
{
    if ids.len() == 0 {
        Flow::Ready(found, t)
    } else {
        match fetched::<PCIeDevice>(
            get("Chassis/"@ + chassis + "/PCIeDevices/"@ + ids[0]),
            t,
        ) {
            Flow::Ready(device, t) => devices_by_id(
                chassis,
                ids.drop_first(),
                found.push(device),
                t,
            ),
            Flow::Fail(e, t) => Flow::Fail(e, t),
            Flow::Wait(q, k) => Flow::Wait(q, k),
        }
    }
}

/// Whether one of the chassis is a processor module of an MGX C2 system.
pub open spec fn any_mgx_c2(chassis: Seq<Chassis>) -> bool {
    exists|i: int| 0 <= i < chassis.len() && mgx_c2_module(#[trigger] chassis[i])
}

/// Whether one of the chassis is a processor module of an MGX C2 system.
fn has_mgx_c2(chassis: &Vec<Chassis>) -> (r: bool)
    ensures
        r == any_mgx_c2(chassis@),
{
    let mut i: usize = 0;
    while i < chassis.len()
        invariant
            i <= chassis.len(),
            forall|k: int| 0 <= k < i ==> !mgx_c2_module(#[trigger] chassis@[k]),
        decreases chassis.len() - i,
    {
        if is_mgx_c2_processor_module(&chassis[i]) {
            return true;
        }
        i = i + 1;
    }
    false
}

/// The privilege under `Privilege` in a KCS document.
pub open spec fn kcs_privilege_of(body: ObjectView, url: Seq<char>) -> Result<
    Option<Privilege>,
    ErrorView,
> {
    match text_of(body, "Privilege"@, url) {
        Err(e) => Err(e),
        Ok(s) => match Privilege::parsed(s) {
            Some(p) => Ok(Some(p)),
            None => Err(
                ErrorView::InvalidKeyType {
                    key: "Privilege"@,
                    expected_type: "oem::supermicro::Privilege"@,
                    url,
                },
            ),
        },
    }
}

/// The privilege under `Privilege` in a KCS document.
pub fn read_kcs_privilege(body: &Object, url: &str) -> (r: Result<Option<Privilege>, RedfishError>)
    ensures
        outcome(r) == kcs_privilege_of(body@, url@),
{
    let s = get_str(body, "Privilege", url)?;
    match Privilege::parse(s) {
        Some(p) => Ok(Some(p)),
        None => Err(invalid_key_type("Privilege", "oem::supermicro::Privilege", url)),
    }
}

impl Bmc {
    /// Changes the power state. An AC power cycle is an action of the vendor's own.
    pub open spec fn power_request(&self, action: SystemPowerControl) -> RequestView {
        if action == SystemPowerControl::ACPowercycle {
            post(
                self.s.system_path("/Actions/Oem/OemSystemExtensions.Reset"@),
                seq![("ResetType"@, JsonView::Text("ACCycle"@))],
            )
        } else {
            self.s.power_request(action)
        }
    }

    /// Changes the power state.
    pub fn power(&self, action: SystemPowerControl) -> (r: Result<Request, RedfishError>)
        ensures
            outcome(r) == Ok::<_, ErrorView>(self.power_request(action)),
    {
        if action == SystemPowerControl::ACPowercycle {
            return Ok(
                Request::post(
                    self.s.system_url("/Actions/Oem/OemSystemExtensions.Reset"),
                    Object::new().with_text("ResetType", "ACCycle"),
                ),
            );
        }
        self.s.power(action)
    }

    /// Whether `power` can do an AC power cycle.
    pub fn ac_powercycle_supported_by_power(&self) -> (r: bool)
        ensures
            r,
    {
        true
    }

    /// Sets the BIOS back to its factory settings.
    pub fn reset_bios(&self) -> (r: Request)
        ensures
            r@ == plain(
                Method::Post,
                self.s.system_path("/Bios/Actions/Bios.ResetBios"@),
                PayloadView::Empty,
            ),
    {
        self.s.factory_reset_bios()
    }

    /// Puts no limit on failed logins.
    pub fn set_machine_password_policy(&self) -> (r: Request)
        ensures
            r@ == patch("AccountService"@, no_lockout()),
    {
        self.s.set_machine_password_policy()
    }

    /// Clears the UEFI password.
    pub fn clear_uefi_password(&self, current_uefi_password: &str) -> (r: Request)
        ensures
            r@ == self.s.bios_password_change(
                "AdministratorPassword"@,
                current_uefi_password@,
                ""@,
            ),
    {
        self.s.change_uefi_password(current_uefi_password, "")
    }

    /// Wipes the configuration of the BMC and restores the factory password.
    ///
    /// Supermicro uses an OEM action whose `Option` parameter selects one
    /// of three resets: `PreserveUser` keeps existing accounts,
    /// `ResetToADMIN` restores the legacy ADMIN/ADMIN credentials, and
    /// `ClearConfig` wipes the config and restores the unique factory
    /// password printed on the chassis label.
    pub fn bmc_reset_to_defaults(&self) -> (r: Request)
        ensures
            r@ == post(
                self.s.manager_path("/Actions/Oem/SmcManagerConfig.Reset"@),
                seq![("Option"@, JsonView::Text("ClearConfig"@))],
            ),
    {
        Request::post(
            self.s.manager_url("/Actions/Oem/SmcManagerConfig.Reset"),
            Object::new().with_text("Option", "ClearConfig"),
        )
    }

    /// On Supermicro this does nothing. Serial Console is on by default and can't be disabled
    /// or enabled via redfish. The properties under Systems/1, key SerialConsole are read only.
    pub fn setup_serial_console(&self) -> (r: Result<(), RedfishError>)
        ensures
            r is Ok,
    {
        Ok(())
    }

    /// The attributes of the BIOS as an object.
    pub open spec fn bios_entries(bios: JsonView) -> Result<ObjectView, ErrorView> {
        match bios {
            JsonView::Object(o) => Ok(o),
            _ => Err(
                ErrorView::InvalidKeyType { key: "Attributes"@, expected_type: "Map"@, url: ""@ },
            ),
        }
    }

    /// The attributes of the BIOS as an object.
    fn bios_map<'a>(bios: &'a Json) -> (r: Result<&'a Object, RedfishError>)
        ensures
            outcome(r) == Self::bios_entries(bios@),
    {
        match bios.as_object() {
            Some(o) => Ok(o),
            None => Err(invalid_key_type("Attributes", "Map", "")),
        }
    }

    /// BIOS attribute names by their canonical name.
    pub open spec fn name_map_flow(&self, t: Tape) -> Flow<NameMapView> {
        self.s.bios_attributes_flow(t).and_then(
            |bios: JsonView, t: Tape|
                settled(Self::bios_entries(bios), t).map(|attrs: ObjectView| name_map(attrs)),
        )
    }

    /// BIOS attribute names by their canonical name.
    /// e.g. QuietBoot -> [QuietBoot_002E]
    ///      TXTSupport -> [TXTSupport_0062, TXTSupport_0072]
    pub fn bios_attributes_name_map<'a>(&self, io: &mut Exchange<'a>) -> (r: Result<
        Vec<Group>,
        Stop,
    >)
        ensures
            flow(r, final(io)@) == self.name_map_flow(old(io)@),
    {
        let bios: &'a Json = self.s.bios_attributes(io)?;
        let attrs: &'a Object = settle(Self::bios_map(bios))?;
        Ok(group_names(attrs))
    }

    /// The BIOS attributes of a machine that is set up. The TPM is turned on in the
    /// words that the machine now uses for it.
    pub open spec fn setup_attrs(attrs: ObjectView, current: JsonView) -> Result<
        ObjectView,
        ErrorView,
    > {
        match tpm_enabled(current) {
            Ok(word) => Ok(
                all_ruled(attrs, setup_rules()) + ruled(
                    attrs,
                    ("SecurityDeviceSupport"@, JsonView::Text(word)),
                ),
            ),
            Err(e) => Err(e),
        }
    }

    /// The BIOS attributes of a machine that is set up.
    pub open spec fn machine_setup_attrs_flow(&self, t: Tape) -> Flow<ObjectView> {
        self.s.bios_attributes_flow(t).and_then(
            |bios: JsonView, t: Tape|
                settled(Self::bios_entries(bios), t).and_then(
                    |attrs: ObjectView, t: Tape|
                        self.s.bios_attributes_flow(t).and_then(
                            |current: JsonView, t: Tape|
                                settled(Self::setup_attrs(attrs, current), t),
                        ),
                ),
        )
    }

    /// The BIOS attributes of a machine that is set up.
    pub fn machine_setup_attrs<'a>(&self, io: &mut Exchange<'a>) -> (r: Result<Object, Stop>)
        ensures
            flow(r, final(io)@) == self.machine_setup_attrs_flow(old(io)@),
    {
        let bios: &'a Json = self.s.bios_attributes(io)?;
        let attrs: &'a Object = settle(Self::bios_map(bios))?;
        let groups = group_names(attrs);
        let ruled_attrs = apply_rules(&groups, Ghost(attrs@));
        // Enable TPM - check current format and use matching enum
        let current: &'a Json = self.s.bios_attributes(io)?;
        let word: &'static str = settle(tpm_on(current))?;
        proof {
            name_map_groups_by_canonical_name(attrs@, "SecurityDeviceSupport"@);
        }
        Ok(add_keys(&groups, "SecurityDeviceSupport", &Json::text(word), ruled_attrs))
    }

    /// Sets up the machine. It takes two rounds with a reboot between them: a boot
    /// option only shows once the BIOS setting that enables it has taken effect.
    pub open spec fn machine_setup_flow(&self, t: Tape) -> Flow<Option<Seq<char>>> {
        self.machine_setup_attrs_flow(t).and_then(
            |attrs: ObjectView, t: Tape|
                sent(
                    patch(
                        self.s.system_path("/Bios"@),
                        seq![("Attributes"@, JsonView::Object(extended(Seq::empty(), attrs)))],
                    ),
                    t,
                ).map(|done: ()| None),
        )
    }

    /// Note that you can't use this for initial setup unless you reboot and run it twice.
    /// `boot_first` won't find the Mellanox HTTP device. `uefi_nic_boot_attrs` enables it,
    /// but it won't show until after reboot so that step will fail on first time through.
    pub fn machine_setup<'a>(&self, io: &mut Exchange<'a>) -> (r: Result<Option<String>, Stop>)
        ensures
            flow(r, final(io)@) == self.machine_setup_flow(old(io)@),
    {
        settle(self.setup_serial_console())?;
        let bios_attrs: Object = self.machine_setup_attrs(io)?;
        let attrs = Object::new().extend(&bios_attrs);
        io.send(
            Request::patch(
                self.s.system_url("/Bios"),
                Object::new().with("Attributes", attrs.into_json()),
            ),
        )?;
        Ok(None)
    }

    /// Whether the serial console is set up.
    pub open spec fn serial_console_status_flow(&self, t: Tape) -> Flow<StatusView> {
        self.s.serial_interface_flow(t).and_then(
            |interface: SerialInterface, t: Tape|
                self.s.system_flow(t).and_then(
                    |system: ComputerSystem, t: Tape|
                        settled(serial_console_report(interface, system), t),
                ),
        )
    }

    /// Whether the serial console is set up.
    pub fn serial_console_status<'a>(&self, io: &mut Exchange<'a>) -> (r: Result<Status, Stop>)
        ensures
            flow(r, final(io)@) == self.serial_console_status_flow(old(io)@),
    {
        let interface: &'a SerialInterface = self.s.get_serial_interface(io)?;
        let system: &'a ComputerSystem = io.fetch::<ComputerSystem>(self.s.get_system())?;
        settle(serial_console_status_of(interface, system))
    }

    /// How the BIOS and BMC attributes deviate from those of a machine that is set
    /// up.
    pub open spec fn diff_bios_bmc_attr_flow(&self, t: Tape) -> Flow<Seq<DiffView>> {
        self.serial_console_status_flow(t).and_then(
            |console: StatusView, t: Tape|
                self.s.bios_attributes_flow(t).and_then(
                    |bios: JsonView, t: Tape|
                        self.machine_setup_attrs_flow(t).map(
                            |expected: ObjectView|
                                status_diff("serial_console"@, console)
                                    + attribute_diffs(bios, expected),
                        ),
                ),
        )
    }

    /// Check BIOS and BMC attributes and return differences
    pub fn diff_bios_bmc_attr<'a>(&self, io: &mut Exchange<'a>) -> (r: Result<
        Vec<MachineSetupDiff>,
        Stop,
    >)
        ensures
            flow(r, final(io)@) == self.diff_bios_bmc_attr_flow(old(io)@),
    {
        let mut diffs: Vec<MachineSetupDiff> = Vec::new();
        let console: Status = self.serial_console_status(io)?;
        let ghost first = status_diff("serial_console"@, console.deep_view());
        add_status_diff(&mut diffs, "serial_console", &console);
        assert(diffs.deep_view() =~= first);
        let bios: &'a Json = self.s.bios_attributes(io)?;
        let expected: Object = self.machine_setup_attrs(io)?;
        add_attribute_diffs(&mut diffs, bios, &expected);
        Ok(diffs)
    }

    /// Whether the BIOS and BMC attributes are set up.
    pub fn is_bios_setup<'a>(&self, io: &mut Exchange<'a>) -> (r: Result<bool, Stop>)
        ensures
            flow(r, final(io)@) == self.diff_bios_bmc_attr_flow(old(io)@).map(
                |diffs: Seq<DiffView>| diffs.len() == 0,
            ),
    {
        let diffs: Vec<MachineSetupDiff> = self.diff_bios_bmc_attr(io)?;
        Ok(diffs.len() == 0)
    }

    /// The MAC address of the interface to boot from, where there is one.
    pub open spec fn optional_mac_flow(&self, interface: Option<BootInterfaceRef>, t: Tape) -> Flow<
        Option<Seq<char>>,
    > {
        match interface {
            Some(interface) => self.s.boot_interface_mac_flow(interface, t).map(
                |mac: Seq<char>| Some(mac),
            ),
            None => Flow::Ready(None, t),
        }
    }

    /// How the boot order deviates, where there is an interface to boot from.
    pub open spec fn optional_boot_diff_flow(&self, mac: Option<Seq<char>>, t: Tape) -> Flow<
        Seq<DiffView>,
    > {
        match mac {
            Some(mac) => self.boot_order_diff_flow(mac, t).map(
                |diff: Option<DiffView>|
                    match diff {
                        Some(diff) => seq![diff],
                        None => Seq::empty(),
                    },
            ),
            None => Flow::Ready(Seq::empty(), t),
        }
    }

    /// Whether the machine is set up, and what is not as it should be.
    pub open spec fn machine_setup_status_flow(
        &self,
        interface: Option<BootInterfaceRef>,
        t: Tape,
    ) -> Flow<SetupView> {
        self.optional_mac_flow(interface, t).and_then(
            |mac: Option<Seq<char>>, t: Tape|
                self.diff_bios_bmc_attr_flow(t).and_then(
                    |diffs: Seq<DiffView>, t: Tape|
                        self.optional_boot_diff_flow(mac, t).and_then(
                            |boot: Seq<DiffView>, t: Tape|
                                self.lockdown_status_flow(t).map(
                                    |lockdown: StatusView|
                                        setup_status(
                                            diffs + boot + status_diff(
                                                "lockdown"@,
                                                lockdown,
                                            ),
                                        ),
                                ),
                        ),
                ),
        )
    }

    /// Whether the machine is set up, and what is not as it should be.
    pub fn machine_setup_status<'a>(
        &self,
        boot_interface: Option<BootInterfaceRef<'_>>,
        io: &mut Exchange<'a>,
    ) -> (r: Result<MachineSetupStatus, Stop>)
        ensures
            flow(r, final(io)@) == self.machine_setup_status_flow(boot_interface, old(io)@),
    {
        // Resolve `InterfaceId` to a MAC via the Redfish-standard
        // EthernetInterface resource.
        let mac: Option<String> = match boot_interface {
            Some(interface) => {
                let mac: String = self.s.resolve_boot_interface_mac(interface, io)?;
                Some(mac)
            },
            None => None,
        };
        // Check BIOS and BMC attributes
        let mut diffs: Vec<MachineSetupDiff> = self.diff_bios_bmc_attr(io)?;
        let ghost before = diffs.deep_view();
        assert(before + Seq::empty() =~= before);
        // Check the first boot option
        if let Some(mac) = &mac {
            let diff: Option<MachineSetupDiff> = self.boot_order_diff(mac.as_str(), io)?;
            if let Some(diff) = diff {
                diffs.push(diff);
                assert(diffs.deep_view() =~= before + seq![diff.deep_view()]);
            }
        }
        // Check lockdown status
        let lockdown: Status = self.lockdown_status(io)?;
        add_status_diff(&mut diffs, "lockdown", &lockdown);
        Ok(MachineSetupStatus { is_done: diffs.len() == 0, diffs })
    }

    /// Clears the TPM.
    pub open spec fn clear_tpm_flow(&self, t: Tape) -> Flow<()> {
        self.s.bios_attributes_flow(t).and_then(
            |bios: JsonView, t: Tape|
                settled(Self::bios_entries(bios), t).and_then(
                    |attrs: ObjectView, t: Tape|
                        match tpm_operation(attrs) {
                            Some(name) => sent(
                                patch(
                                    self.s.system_path("/Bios"@),
                                    seq![
                                        (
                                            "Attributes"@,
                                            JsonView::Object(
                                                seq![(name, JsonView::Text("TPM Clear"@))],
                                            ),
                                        ),
                                    ],
                                ),
                                t,
                            ),
                            None => Flow::Fail(
                                Fault::NotSupported(
                                    "Cannot clear_tpm, PendingOperation BIOS attr missing"@,
                                ),
                                t,
                            ),
                        },
                ),
        )
    }

    /// Clears the TPM.
    pub fn clear_tpm<'a>(&self, io: &mut Exchange<'a>) -> (r: Result<(), Stop>)
        ensures
            flow(r, final(io)@) == self.clear_tpm_flow(old(io)@),
    {
        let bios: &'a Json = self.s.bios_attributes(io)?;
        let attrs: &'a Object = settle(Self::bios_map(bios))?;
        match find_tpm_operation(attrs) {
            Some(name) => io.send(
                Request::patch(
                    self.s.system_url("/Bios"),
                    Object::new().with(
                        "Attributes",
                        Object::new().with_text(name, "TPM Clear").into_json(),
                    ),
                ),
            ),
            None => Err(
                Stop::Fail(
                    not_supported("Cannot clear_tpm, PendingOperation BIOS attr missing"),
                ),
            ),
        }
    }

    /// The pending changes. Supermicro doesn't include the Attributes key if there
    /// are none.
    pub open spec fn pending_flow(&self, t: Tape) -> Flow<ObjectView> {
        match self.s.pending_attributes_flow(self.s.system_path("/Bios/SD"@), t) {
            Flow::Fail(Fault::MissingKey { .. }, t) => Flow::Ready(Seq::empty(), t),
            other => other,
        }
    }

    /// The pending changes.
    pub fn pending<'a>(&self, io: &mut Exchange<'a>) -> (r: Result<Object, Stop>)
        ensures
            flow(r, final(io)@) == self.pending_flow(old(io)@),
    {
        let url = self.s.system_url("/Bios/SD");
        match self.s.pending_attributes(url.as_str(), io) {
            Ok(attrs) => Ok(attrs.copy()),
            // Supermicro doesn't include the Attributes key if there are no pending changes
            Err(Stop::Fail(Fault::MissingKey { .. })) => Ok(Object::new()),
            Err(stop) => Err(stop),
        }
    }

    /// This resets the pending Bios changes to their default values,
    /// but DOES NOT CLEAR THEM. We don't know how to do that, or if Supermicro supports it at all.
    pub fn clear_pending<'a>(&self, io: &mut Exchange<'a>) -> (r: Result<(), Stop>)
        ensures
            flow(r, final(io)@) == self.s.clear_pending_with_url_flow(
                self.s.system_path("/Bios/SD"@),
                old(io)@,
            ),
    {
        let url = self.s.system_url("/Bios/SD");
        self.s.clear_pending_with_url(url.as_str(), io)
    }

    /// A PCIe device of a chassis.
    pub fn get_pcie_device(&self, chassis_id: &str, device_id: &str) -> (r: Request)
        ensures
            r@ == get("Chassis/"@ + chassis_id@ + "/PCIeDevices/"@ + device_id@),
    {
        Request::get(cat4("Chassis/", chassis_id, "/PCIeDevices/", device_id))
    }

    /// The PCIe devices of the first chassis.
    pub open spec fn pcie_devices_flow(&self, t: Tape) -> Flow<Seq<PCIeDevice>> {
        self.s.members_flow(get("Chassis/"@), t).and_then(
            |chassis: Seq<Seq<char>>, t: Tape|
                if chassis.len() == 0 {
                    Flow::Fail(Fault::NoContent, t)
                } else {
                    self.s.members_flow(
                        get("Chassis/"@ + chassis[0] + "/PCIeDevices"@),
                        t,
                    ).and_then(
                        |ids: Seq<Seq<char>>, t: Tape|
                            devices_by_id(chassis[0], ids, Seq::empty(), t),
                    )
                },
        )
    }

    /// The PCIe devices of the first chassis.
    pub fn pcie_devices<'a>(&self, io: &mut Exchange<'a>) -> (r: Result<Vec<&'a PCIeDevice>, Stop>)
        ensures
            flow(r, final(io)@) == self.pcie_devices_flow(old(io)@),
    {
        let chassis: Vec<String> = self.s.get_chassis_all(io)?;
        if chassis.len() == 0 {
            return Err(Stop::Fail(Fault::NoContent));
        }
        assert(chassis.deep_view()[0] == chassis@[0]@);
        let url = cat3("Chassis/", chassis[0].as_str(), "/PCIeDevices");
        let ids: Vec<String> = self.s.get_members(url.as_str(), io)?;
        let ghost all = ids.deep_view();
        let ghost id = chassis@[0]@;
        let mut out: Vec<&'a PCIeDevice> = Vec::new();
        let mut i: usize = 0;
        assert(out.deep_view() =~= Seq::empty());
        assert(all.skip(0) =~= all);
        while i < ids.len()
            invariant
                i <= ids.len(),
                all == ids.deep_view(),
                chassis.len() > 0,
                id == chassis@[0]@,
                self.pcie_devices_flow(old(io)@) == devices_by_id(
                    id,
                    all.skip(i as int),
                    out.deep_view(),
                    io@,
                ),
            decreases ids.len() - i,
        {
            let ghost found = out.deep_view();
            assert(all.skip(i as int).drop_first() =~= all.skip(i + 1));
            assert(all.skip(i as int)[0] == ids@[i as int]@);
            let device: &'a PCIeDevice = io.fetch::<PCIeDevice>(
                self.get_pcie_device(chassis[0].as_str(), ids[i].as_str()),
            )?;
            out.push(device);
            assert(out.deep_view() =~= found.push(*device));
            i = i + 1;
        }
        Ok(out)
    }

    /// The request that sends a firmware image in parts.
    pub open spec fn multipart_request(
        uri: Seq<char>,
        component_type: ComponentType,
        timeout: Timeout,
    ) -> RequestView {
        RequestView {
            timeout: Some(timeout),
            ..plain(
                Method::Post,
                uri,
                PayloadView::Multipart {
                    parameters: rendered(JsonView::Object(update_parameters(component_type))),
                    drop_redfish_url: true,
                },
            )
        }
    }

    /// The id of the task that an upload to `uri` has started.
    pub open spec fn upload_task(upload: Upload, uri: Seq<char>) -> Result<Seq<char>, ErrorView> {
        match upload.task_id {
            Some(id) => Ok(id@),
            None => Err(ErrorView::JsonDeserializeError { url: uri, body: upload.body@ }),
        }
    }

    /// Sends a firmware image in parts, and returns the id of the task.
    pub open spec fn update_firmware_multipart_flow(
        &self,
        component_type: ComponentType,
        timeout: Timeout,
        t: Tape,
    ) -> Flow<Seq<char>> {
        fetched::<UpdateService>(get(self.s.update_service_path()), t).and_then(
            |service: UpdateService, t: Tape|
                {
                    let uri = service.multipart_http_push_uri@;
                    if uri.len() == 0 {
                        Flow::Fail(
                            Fault::NotSupported("Host BMC does not support HTTP multipart push"@),
                            t,
                        )
                    } else {
                        fetched::<Upload>(
                            Self::multipart_request(uri, component_type, timeout),
                            t,
                        ).and_then(
                            |upload: Upload, t: Tape| settled(Self::upload_task(upload, uri), t),
                        )
                    }
                },
        )
    }

    /// Sends a firmware image in parts, and returns the id of the task.
    pub fn update_firmware_multipart<'a>(
        &self,
        _reboot: bool,
        timeout: Timeout,
        component_type: ComponentType,
        io: &mut Exchange<'a>,
    ) -> (r: Result<String, Stop>)
        ensures
            flow(r, final(io)@) == self.update_firmware_multipart_flow(
                component_type,
                timeout,
                old(io)@,
            ),
    {
        let service: &'a UpdateService = io.fetch::<UpdateService>(self.s.get_update_service())?;
        let uri = service.multipart_http_push_uri.as_str();
        if uri.unicode_len() == 0 {
            return Err(
                Stop::Fail(not_supported("Host BMC does not support HTTP multipart push")),
            );
        }
        let parameters = UpdateParameters::new(component_type).to_object().into_json().render();
        let mut request = Request::plain(
            Method::Post,
            uri.to_owned(),
            Payload::Multipart { parameters, drop_redfish_url: true },
        );
        request.timeout = Some(timeout);
        let upload: &'a Upload = io.fetch::<Upload>(request)?;
        match &upload.task_id {
            Some(id) => Ok(id.clone()),
            None => Err(
                Stop::Fail(
                    Fault::JsonDeserializeError { url: uri.to_owned(), body: upload.body.clone() },
                ),
            ),
        }
    }

    /// Whether the machine is an MGX C2 system.
    pub open spec fn is_mgx_c2_flow(&self, t: Tape) -> Flow<bool> {
        fetched::<Members<Chassis>>(collection_request("/redfish/v1/Chassis"@), t).map(
            |chassis: Members<Chassis>| any_mgx_c2(chassis.members@),
        )
    }

    /// MGX C2 systems use SSIF instead of x86 KCS, so the KCSInterface
    /// endpoint doesn't exist. Detect them by the NVIDIA PG535
    /// processor-module identity.
    /// See: https://docs.nvidia.com/dccpu/grace-perf-tuning-guide/system.html
    pub fn is_mgx_c2<'a>(&self, io: &mut Exchange<'a>) -> (r: Result<bool, Stop>)
        ensures
            flow(r, final(io)@) == self.is_mgx_c2_flow(old(io)@),
    {
        let chassis: &'a Members<Chassis> = io.fetch::<Members<Chassis>>(
            expanded_collection("/redfish/v1/Chassis"),
        )?;
        Ok(has_mgx_c2(&chassis.members))
    }

    /// Whether the machine is one that can't PXE boot if its host interface is
    /// disabled.
    pub open spec fn is_ars_121l_dnr_flow(&self, t: Tape) -> Flow<bool> {
        self.s.system_flow(t).map(
            |system: ComputerSystem|
                has(
                    match system.model {
                        Some(model) => model@,
                        None => ""@,
                    },
                    "ARS-121L-DNR"@,
                ),
        )
    }

    /// Whether the machine is one that can't PXE boot if its host interface is
    /// disabled.
    pub fn is_ars_121l_dnr<'a>(&self, io: &mut Exchange<'a>) -> (r: Result<bool, Stop>)
        ensures
            flow(r, final(io)@) == self.is_ars_121l_dnr_flow(old(io)@),
    {
        let system: &'a ComputerSystem = io.fetch::<ComputerSystem>(self.s.get_system())?;
        let model = match &system.model {
            Some(model) => model.as_str(),
            None => "",
        };
        Ok(contains(model, "ARS-121L-DNR"))
    }

    /// Whether the firmware of the BMC is recent enough to have the host interface.
    pub open spec fn supports_ipmi_host_iface_flow(&self, t: Tape) -> Flow<bool> {
        fetched::<Manager>(get("Managers/"@ + self.s.manager()), t).map(
            |manager: Manager|
                not_older(
                    version_order(
                        match manager.firmware_version {
                            Some(version) => version@,
                            None => ""@,
                        },
                        MIN_BMC_FW_IPMI_HOST_IFACE@,
                    ),
                ),
        )
    }

    /// Returns `true` when the BMC firmware version is at least
    /// [`MIN_BMC_FW_IPMI_HOST_IFACE`] (`01.05.01`), which is the first
    /// version to expose `IPMIHostInterface` on `Systems/{id}`.
    pub fn bmc_supports_ipmi_host_iface<'a>(&self, io: &mut Exchange<'a>) -> (r: Result<bool, Stop>)
        ensures
            flow(r, final(io)@) == self.supports_ipmi_host_iface_flow(old(io)@),
    {
        let manager: &'a Manager = io.fetch::<Manager>(self.s.get_manager())?;
        let version = match &manager.firmware_version {
            Some(version) => version.as_str(),
            None => "",
        };
        Ok(is_not_older(compare_versions(version, MIN_BMC_FW_IPMI_HOST_IFACE)))
    }

    /// The request that turns the host interface of an MGX C2 system on or off.
    pub open spec fn ipmi_host_interface_request(&self, enabled: bool) -> RequestView {
        patch(
            self.system_document(),
            seq![
                (
                    "IPMIHostInterface"@,
                    JsonView::Object(seq![("ServiceEnabled"@, JsonView::Bool(enabled))]),
                ),
            ],
        )
    }

    /// Disable/enable SSIF in-band access via `IPMIHostInterface` on `Systems/{id}`.
    /// Used for MGX C2 systems that lack the KCSInterface endpoint.
    pub fn set_ipmi_host_interface(&self, enabled: bool) -> (r: Request)
        ensures
            r@ == self.ipmi_host_interface_request(enabled),
    {
        Request::patch(
            self.system_document_url(),
            Object::new().with(
                "IPMIHostInterface",
                Object::new().with("ServiceEnabled", Json::Bool(enabled)).into_json(),
            ),
        )
    }

    /// Whether the host interface of an MGX C2 system is on.
    pub open spec fn ipmi_host_interface_flow(&self, t: Tape) -> Flow<bool> {
        self.s.system_flow(t).and_then(
            |system: ComputerSystem, t: Tape|
                match system.ipmi_host_interface {
                    Some(interface) => Flow::Ready(interface.service_enabled, t),
                    None => Flow::Fail(
                        Fault::MissingKey {
                            key: "IPMIHostInterface"@,
                            url: self.system_document(),
                        },
                        t,
                    ),
                },
        )
    }

    /// Get whether SSIF in-band access is enabled via `IPMIHostInterface` on `Systems/{id}`.
    /// Used for MGX C2 systems that lack the KCSInterface endpoint.
    pub fn get_ipmi_host_interface_enabled<'a>(&self, io: &mut Exchange<'a>) -> (r: Result<
        bool,
        Stop,
    >)
        ensures
            flow(r, final(io)@) == self.ipmi_host_interface_flow(old(io)@),
    {
        let system: &'a ComputerSystem = io.fetch::<ComputerSystem>(self.s.get_system())?;
        match &system.ipmi_host_interface {
            Some(interface) => Ok(interface.service_enabled),
            None => {
                let url = self.system_document_url();
                Err(Stop::Fail(missing_key("IPMIHostInterface", url.as_str())))
            },
        }
    }

    /// Where the KCS interface is.
    pub open spec fn kcs_path(&self) -> Seq<char> {
        self.s.manager_path("/Oem/Supermicro/KCSInterface"@)
    }

    /// What the BMC lets the host do, where that can be had. An MGX C2 system lets
    /// it do all or nothing.
    pub open spec fn kcs_privilege_flow(&self, t: Tape) -> Flow<Option<Privilege>> {
        self.is_mgx_c2_flow(t).and_then(
            |mgx_c2: bool, t: Tape|
                if mgx_c2 {
                    self.supports_ipmi_host_iface_flow(t).and_then(
                        |supported: bool, t: Tape|
                            if supported {
                                self.ipmi_host_interface_flow(t).map(
                                    |enabled: bool|
                                        Some(
                                            if enabled {
                                                Privilege::Administrator
                                            } else {
                                                Privilege::Callback
                                            },
                                        ),
                                )
                            } else {
                                Flow::Ready(None, t)
                            },
                    )
                } else {
                    fetched::<Object>(get(self.kcs_path()), t).and_then(
                        |body: ObjectView, t: Tape|
                            settled(kcs_privilege_of(body, self.kcs_path()), t),
                    )
                },
        )
    }

    /// What the BMC lets the host do, where that can be had.
    pub fn get_kcs_privilege<'a>(&self, io: &mut Exchange<'a>) -> (r: Result<
        Option<Privilege>,
        Stop,
    >)
        ensures
            flow(r, final(io)@) == self.kcs_privilege_flow(old(io)@),
    {
        if self.is_mgx_c2(io)? {
            if !self.bmc_supports_ipmi_host_iface(io)? {
                return Ok(None);
            }
            let enabled: bool = self.get_ipmi_host_interface_enabled(io)?;
            return if enabled {
                Ok(Some(Privilege::Administrator))
            } else {
                Ok(Some(Privilege::Callback))
            };
        }
        let url = self.s.manager_url("/Oem/Supermicro/KCSInterface");
        let body: &'a Object = io.fetch::<Object>(Request::get(url.clone()))?;
        settle(read_kcs_privilege(body, url.as_str()))
    }

    /// Sets what the BMC lets the host do. An MGX C2 system whose firmware is too
    /// old for it is left as it is.
    pub open spec fn set_kcs_privilege_flow(&self, privilege: Privilege, t: Tape) -> Flow<()> {
        self.is_mgx_c2_flow(t).and_then(
            |mgx_c2: bool, t: Tape|
                if mgx_c2 {
                    self.supports_ipmi_host_iface_flow(t).and_then(
                        |supported: bool, t: Tape|
                            if supported {
                                sent(
                                    self.ipmi_host_interface_request(
                                        privilege == Privilege::Administrator,
                                    ),
                                    t,
                                )
                            } else {
                                Flow::Ready((), t)
                            },
                    )
                } else {
                    sent(
                        patch(
                            self.kcs_path(),
                            seq![("Privilege"@, JsonView::Text(privilege.text()))],
                        ),
                        t,
                    )
                },
        )
    }

    /// Sets what the BMC lets the host do.
    pub fn set_kcs_privilege<'a>(&self, privilege: Privilege, io: &mut Exchange<'a>) -> (r: Result<
        (),
        Stop,
    >)
        ensures
            flow(r, final(io)@) == self.set_kcs_privilege_flow(privilege, old(io)@),
    {
        if self.is_mgx_c2(io)? {
            if !self.bmc_supports_ipmi_host_iface(io)? {
                return Ok(());
            }
            let enabled = privilege == Privilege::Administrator;
            return io.send(self.set_ipmi_host_interface(enabled));
        }
        io.send(
            Request::patch(
                self.s.manager_url("/Oem/Supermicro/KCSInterface"),
                Object::new().with_text("Privilege", privilege.name()),
            ),
        )
    }

    /// Whether the one host interface is on.
    pub open spec fn host_interface_flow(&self, t: Tape) -> Flow<bool> {
        let all = self.s.manager_path("/HostInterfaces"@);
        self.s.members_flow(get(all), t).and_then(
            |ids: Seq<Seq<char>>, t: Tape|
                if ids.len() != 1 {
                    Flow::Fail(
                        Fault::InvalidValue {
                            url: all,
                            field: "Members"@,
                            err: "Expected a single host interface, found "@ + decimal(ids.len()),
                        },
                        t,
                    )
                } else {
                    let url = self.host_interface_path(ids[0]);
                    fetched::<Object>(get(url), t).and_then(
                        |body: ObjectView, t: Tape|
                            settled(truth_of(body, "InterfaceEnabled"@, url), t),
                    )
                },
        )
    }

    /// Where a host interface is.
    pub open spec fn host_interface_path(&self, id: Seq<char>) -> Seq<char> {
        "Managers/"@ + self.s.manager() + "/HostInterfaces/"@ + id
    }

    /// Whether the one host interface is on.
    pub fn is_host_interface_enabled<'a>(&self, io: &mut Exchange<'a>) -> (r: Result<bool, Stop>)
        ensures
            flow(r, final(io)@) == self.host_interface_flow(old(io)@),
    {
        let all = self.s.manager_url("/HostInterfaces");
        let ids: Vec<String> = self.s.get_members(all.as_str(), io)?;
        if ids.len() != 1 {
            let count = numeral(ids.len() as u64);
            let err = cat2("Expected a single host interface, found ", count.as_str());
            return Err(Stop::Fail(invalid_value(all.as_str(), "Members", err.as_str())));
        }
        assert(ids.deep_view()[0] == ids@[0]@);
        let url = cat4("Managers/", self.s.manager_id(), "/HostInterfaces/", ids[0].as_str());
        let body: &'a Object = io.fetch::<Object>(Request::get(url.clone()))?;
        settle(get_bool(body, "InterfaceEnabled", url.as_str()))
    }

    /// The request that turns a host interface on or off.
    pub open spec fn host_interface_request(&self, id: Seq<char>, target: EnabledDisabled) -> RequestView {
        patch(
            self.host_interface_path(id),
            seq![("InterfaceEnabled"@, JsonView::Bool(target == EnabledDisabled::Enabled))],
        )
    }

    /// Turns a host interface on or off.
    pub fn set_host_interface(&self, iface_id: &str, target: EnabledDisabled) -> (r: Request)
        ensures
            r@ == self.host_interface_request(iface_id@, target),
    {
        Request::patch(
            cat4("Managers/", self.s.manager_id(), "/HostInterfaces/", iface_id),
            Object::new().with("InterfaceEnabled", Json::Bool(target.is_enabled())),
        )
    }

    /// Turns the host interfaces with the ids `ids` on or off.
    pub open spec fn each_host_interface(
        &self,
        ids: Seq<Seq<char>>,
        target: EnabledDisabled,
        t: Tape,
    ) -> Flow<()>
        decreases ids.len(),
    {
        if ids.len() == 0 {
            Flow::Ready((), t)
        } else {
            match sent(self.host_interface_request(ids[0], target), t) {
                Flow::Ready(done, t) => self.each_host_interface(ids.drop_first(), target, t),
                other => other,
            }
        }
    }

    /// Turns all host interfaces on or off.
    pub open spec fn set_host_interfaces_flow(&self, target: EnabledDisabled, t: Tape) -> Flow<()> {
        self.s.members_flow(get(self.s.manager_path("/HostInterfaces"@)), t).and_then(
            |ids: Seq<Seq<char>>, t: Tape| self.each_host_interface(ids, target, t),
        )
    }

    /// The HostInterface allows remote BMC access
    pub fn set_host_interfaces<'a>(&self, target: EnabledDisabled, io: &mut Exchange<'a>) -> (r:
        Result<(), Stop>)
        ensures
            flow(r, final(io)@) == self.set_host_interfaces_flow(target, old(io)@),
    {
        let url = self.s.manager_url("/HostInterfaces");
        // I have only seen exactly one, but you can't be too careful
        let ids: Vec<String> = self.s.get_members(url.as_str(), io)?;
        let ghost all = ids.deep_view();
        let mut i: usize = 0;
        assert(all.skip(0) =~= all);
        while i < ids.len()
            invariant
                i <= ids.len(),
                all == ids.deep_view(),
                self.set_host_interfaces_flow(target, old(io)@) == self.each_host_interface(
                    all.skip(i as int),
                    target,
                    io@,
                ),
            decreases ids.len() - i,
        {
            assert(all.skip(i as int).drop_first() =~= all.skip(i + 1));
            assert(all.skip(i as int)[0] == ids@[i as int]@);
            io.send(self.set_host_interface(ids[i].as_str(), target))?;
            i = i + 1;
        }
        Ok(())
    }

    /// Where system lockdown is.
    pub open spec fn syslockdown_path(&self) -> Seq<char> {
        self.s.manager_path("/Oem/Supermicro/SysLockdown"@)
    }

    /// Whether system lockdown is on.
    pub open spec fn syslockdown_flow(&self, t: Tape) -> Flow<bool> {
        fetched::<Object>(get(self.syslockdown_path()), t).and_then(
            |body: ObjectView, t: Tape|
                settled(truth_of(body, "SysLockdownEnabled"@, self.syslockdown_path()), t),
        )
    }

    /// Whether system lockdown is on.
    pub fn get_syslockdown<'a>(&self, io: &mut Exchange<'a>) -> (r: Result<bool, Stop>)
        ensures
            flow(r, final(io)@) == self.syslockdown_flow(old(io)@),
    {
        let url = self.s.manager_url("/Oem/Supermicro/SysLockdown");
        let body: &'a Object = io.fetch::<Object>(Request::get(url.clone()))?;
        settle(get_bool(body, "SysLockdownEnabled", url.as_str()))
    }

    /// The request that turns system lockdown on or off.
    pub open spec fn syslockdown_request(&self, target: EnabledDisabled) -> RequestView {
        patch(
            self.syslockdown_path(),
            seq![("SysLockdownEnabled"@, JsonView::Bool(target == EnabledDisabled::Enabled))],
        )
    }

    /// Turns system lockdown on or off.
    pub fn set_syslockdown(&self, target: EnabledDisabled) -> (r: Request)
        ensures
            r@ == self.syslockdown_request(target),
    {
        Request::patch(
            self.s.manager_url("/Oem/Supermicro/SysLockdown"),
            Object::new().with("SysLockdownEnabled", Json::Bool(target.is_enabled())),
        )
    }

    /// Locks or unlocks the BMC.
    pub fn lockdown_bmc(&self, target: EnabledDisabled) -> (r: Request)
        ensures
            r@ == self.syslockdown_request(target),
    {
        self.set_syslockdown(target)
    }

    /// Turns the host interfaces off, unless the machine has to keep them.
    /// ARS-121L-DNR can't PXE boot if the host interface is disabled.
    pub open spec fn lock_host_interfaces_flow(&self, t: Tape) -> Flow<()> {
        self.is_ars_121l_dnr_flow(t).and_then(
            |keep: bool, t: Tape|
                if keep {
                    Flow::Ready((), t)
                } else {
                    self.set_host_interfaces_flow(EnabledDisabled::Disabled, t)
                },
        )
    }

    /// Locks the machine, system lockdown last.
    pub open spec fn lock_flow(&self, t: Tape) -> Flow<()> {
        self.lock_host_interfaces_flow(t).and_then(
            |done: (), t: Tape|
                self.set_kcs_privilege_flow(Privilege::Callback, t).and_then(
                    |done: (), t: Tape|
                        sent(self.syslockdown_request(EnabledDisabled::Enabled), t),
                ),
        )
    }

    /// Unlocks the machine, system lockdown first.
    pub open spec fn unlock_flow(&self, t: Tape) -> Flow<()> {
        sent(self.syslockdown_request(EnabledDisabled::Disabled), t).and_then(
            |done: (), t: Tape|
                self.set_kcs_privilege_flow(Privilege::Administrator, t).and_then(
                    |done: (), t: Tape|
                        self.set_host_interfaces_flow(EnabledDisabled::Enabled, t),
                ),
        )
    }

    /// Locks or unlocks the machine.
    pub fn lockdown<'a>(&self, target: EnabledDisabled, io: &mut Exchange<'a>) -> (r: Result<
        (),
        Stop,
    >)
        ensures
            flow(r, final(io)@) == (match target {
                EnabledDisabled::Enabled => self.lock_flow(old(io)@),
                EnabledDisabled::Disabled => self.unlock_flow(old(io)@),
            }),
    {
        match target {
            EnabledDisabled::Enabled => {
                // ARS-121L-DNR can't PXE boot if the host interface is disabled.
                let keep: bool = self.is_ars_121l_dnr(io)?;
                if !keep {
                    self.set_host_interfaces(EnabledDisabled::Disabled, io)?;
                }
                self.set_kcs_privilege(Privilege::Callback, io)?;
                io.send(self.set_syslockdown(EnabledDisabled::Enabled))  // Lock last

            },
            EnabledDisabled::Disabled => {
                io.send(self.set_syslockdown(EnabledDisabled::Disabled))?;  // Unlock first
                self.set_kcs_privilege(Privilege::Administrator, io)?;
                self.set_host_interfaces(EnabledDisabled::Enabled, io)
            },
        }
    }

    /// Whether the machine is locked.
    pub open spec fn lockdown_status_flow(&self, t: Tape) -> Flow<StatusView> {
        self.host_interface_flow(t).and_then(
            |host_interface: bool, t: Tape|
                self.kcs_privilege_flow(t).and_then(
                    |kcs: Option<Privilege>, t: Tape|
                        self.syslockdown_flow(t).and_then(
                            |syslockdown: bool, t: Tape|
                                self.is_ars_121l_dnr_flow(t).map(
                                    |keep: bool|
                                        lockdown_report(host_interface, kcs, syslockdown, keep),
                                ),
                        ),
                ),
        )
    }

    /// Whether the machine is locked.
    pub fn lockdown_status<'a>(&self, io: &mut Exchange<'a>) -> (r: Result<Status, Stop>)
        ensures
            flow(r, final(io)@) == self.lockdown_status_flow(old(io)@),
    {
        let host_interface: bool = self.is_host_interface_enabled(io)?;
        let kcs: Option<Privilege> = self.get_kcs_privilege(io)?;
        let syslockdown: bool = self.get_syslockdown(io)?;
        let keep: bool = self.is_ars_121l_dnr(io)?;
        Ok(lockdown_status_of(host_interface, kcs, syslockdown, keep))
    }
}

} // verus!
