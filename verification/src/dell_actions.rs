//! What is done to Dell machines.
use crate::dell::{
    dell_models, extra_values, find_dell_models, find_extra_values, is_read_only, job_flow,
    read_only, start_job, Bmc, VendorProfiles, MAX_ACCOUNT_ID, UEFI_PASSWORD_NAME,
};
use crate::dell_bios::{is_newer_idrac, newer_idrac, redir_after_boot, redir_after_boot_of};
use crate::dell_settings::{
    attributes_only, bios_object, named, only_attributes, optional, serial_comm, serial_port,
    server_boot, settings, settings_at, with_server_boot, BiosAttrs, BootDevices, MachineBiosAttrs,
    RedfishSettingsApplyTime, SerialCommSettings, SerialPortExtSettings, SerialPortSettings,
    SerialPortTermSettings, Tpm2HierarchySettings, UefiVariableAccessSettings,
};
use crate::error::{
    generic, is_not_found, not_found, not_supported, outcome, ErrorView, Fault, RedfishError,
};
use crate::exchange::{
    fetched, flow, get, patch, plain, post, sent, settle, settled, Exchange, Flow, Method, Payload,
    PayloadView, Request, RequestView, Stop, Tape, Timeout,
};
use crate::json::{
    array_len, as_text, extended, lookup, member, rendered, texts_model, Json, JsonView, Object,
    ObjectView,
};
use crate::jsonmap::{entries_of, get_object, get_str, get_value, text_of, value_of};
use crate::model::{
    add_status_diff, setup_status, status_diff, BiosProfileType, Boot, BootOption, ComputerSystem,
    DiffView, EnabledDisabled, JobState, MachineSetupDiff, MachineSetupStatus, ManagerAccount,
    ODataId, OnOff, PowerState, References, RemoteServices, RoleId, SetupView, Status, StatusView,
    SystemPowerControl, Upload,
};
use crate::requests::account_body;
use crate::search::{first_where, first_where_absent, first_where_found};
use crate::standard::RedfishStandard;
use crate::text::{
    after_last, cat2, cat3, cat4, cat5, contains, decimal, has, last_segment, numeral, remove_all,
    same, underscored, with_underscores, without_all,
};
use vstd::prelude::*;
use vstd::string::*;
use vstd::utf8::encode_utf8;

verus! {

/// The first account from `id` on that is disabled or cannot be read. `root` is
/// typically account 2 on an iDRAC, and account 1 might be special.
pub open spec fn free_account(id: nat, t: Tape) -> Flow<nat>
    decreases MAX_ACCOUNT_ID + 1 - id,
{
    if id > MAX_ACCOUNT_ID {
        Flow::Fail(Fault::TooManyUsers, t)
    } else {
        match fetched::<ManagerAccount>(get("AccountService/Accounts/"@ + decimal(id)), t) {
            Flow::Ready(account, t) => if account.enabled == Some(false) {
                Flow::Ready(id, t)
            } else {
                free_account(id + 1, t)
            },
            Flow::Fail(_, t) => Flow::Ready(id, t),
            Flow::Wait(q, k) => Flow::Wait(q, k),
        }
    }
}

/// What a machine boots from while it is locked or unlocked. XE9680's can't PXE
/// boot for some reason.
pub open spec fn boot_device_of(system: ComputerSystem) -> BootDevices {
    if system.model.deep_view() == Some("PowerEdge XE9680"@) {
        BootDevices::UefiHttp
    } else {
        BootDevices::PXE
    }
}

/// What a machine boots from while it is locked or unlocked.
pub fn boot_device(system: &ComputerSystem) -> (r: BootDevices)
    ensures
        r == boot_device_of(*system),
{
    if let Some(model) = &system.model {
        if same(model.as_str(), "PowerEdge XE9680") {
            return BootDevices::UefiHttp;
        }
    }
    BootDevices::PXE
}

/// The attributes that set up remote access, in the order of the standard path.
pub open spec fn remote_access_settings() -> ObjectView {
    seq![
        named("SSH.1.Enable"@, "Enabled"@),
        named("SerialRedirection.1.Enable"@, "Enabled"@),
        named("IPMILan.1.Enable"@, "Enabled"@),
        named("IPMISOL.1.Enable"@, "Enabled"@),
        named("IPMISOL.1.BaudRate"@, "115200"@),
        named("IPMISOL.1.MinPrivilege"@, "Administrator"@),
    ]
}

/// The attributes that set up remote access.
fn remote_access_object() -> (r: Object)
    ensures
        r@ == remote_access_settings(),
{
    let r = Object::new().with_text("SSH.1.Enable", "Enabled").with_text(
        "SerialRedirection.1.Enable",
        "Enabled",
    ).with_text("IPMILan.1.Enable", "Enabled").with_text("IPMISOL.1.Enable", "Enabled").with_text(
        "IPMISOL.1.BaudRate",
        "115200",
    ).with_text("IPMISOL.1.MinPrivilege", "Administrator");
    assert(r@ =~= remote_access_settings());
    r
}

/// The attributes that set up a serial console.
pub open spec fn serial_console_settings(bios: JsonView) -> ObjectView {
    seq![
        named("SerialComm"@, serial_comm(newer_idrac(bios)).text()),
        named("SerialPortAddress"@, serial_port(newer_idrac(bios)).text()),
        named("ExtSerialConnector"@, SerialPortExtSettings::Serial1.text()),
        named("FailSafeBaud"@, "115200"@),
        named("ConTermType"@, SerialPortTermSettings::Vt100Vt220.text()),
    ] + optional(
        "RedirAfterBoot"@,
        match redir_after_boot_of(bios) {
            Some(v) => Some(v.text()),
            None => None,
        },
    )
}

/// The attributes that set up a serial console.
fn serial_console_object(bios: &Json) -> (r: Object)
    ensures
        r@ == serial_console_settings(bios@),
{
    let newer = is_newer_idrac(bios);
    let comm = if newer {
        SerialCommSettings::OnConRedirAuto
    } else {
        SerialCommSettings::OnConRedir
    };
    let port = if newer {
        SerialPortSettings::Serial1Com2Serial2Com1
    } else {
        SerialPortSettings::Com1
    };
    let mut o = Object::new().with_text("SerialComm", comm.name()).with_text(
        "SerialPortAddress",
        port.name(),
    ).with_text("ExtSerialConnector", SerialPortExtSettings::Serial1.name()).with_text(
        "FailSafeBaud",
        "115200",
    ).with_text("ConTermType", SerialPortTermSettings::Vt100Vt220.name());
    if let Some(v) = redir_after_boot(bios) {
        o = o.with_text("RedirAfterBoot", v.name());
    }
    assert(o@ =~= serial_console_settings(bios@));
    o
}

/// The attributes that turn the TPM on or off and say what to do with its
/// hierarchies.
pub open spec fn tpm_settings(security: OnOff, hierarchy: Tpm2HierarchySettings) -> ObjectView {
    seq![named("TpmSecurity"@, security.text()), named("Tpm2Hierarchy"@, hierarchy.text())]
}

/// The attributes of the BMC that are set up beside those of the BIOS.
/// `OS-BMC.1.AdminState` is only available in iDRAC 9.
pub open spec fn oem_settings(current: JsonView) -> ObjectView {
    seq![
        named("WebServer.1.HostHeaderCheck"@, "Disabled"@),
        named("IPMILan.1.Enable"@, "Enabled"@),
    ] + (if member(current, "OS-BMC.1.AdminState"@) is Some {
        seq![named("OS-BMC.1.AdminState"@, "Disabled"@)]
    } else {
        Seq::empty()
    })
}

/// The attributes of the BMC that are set up beside those of the BIOS.
fn oem_object(current: &Json) -> (r: Object)
    ensures
        r@ == oem_settings(current@),
{
    let mut o = Object::new().with_text("WebServer.1.HostHeaderCheck", "Disabled").with_text(
        "IPMILan.1.Enable",
        "Enabled",
    );
    if current.get("OS-BMC.1.AdminState").is_some() {
        o = o.with_text("OS-BMC.1.AdminState", "Disabled");
    }
    assert(o@ =~= oem_settings(current@));
    o
}

/// The attributes that unlock the BIOS.
pub open spec fn bios_unlock_settings() -> ObjectView {
    seq![
        named("InBandManageabilityInterface"@, EnabledDisabled::Enabled.text()),
        named("UefiVariableAccess"@, UefiVariableAccessSettings::Standard.text()),
    ]
}

/// The import buffer that clears the UEFI password.
pub open spec fn password_import(current: Seq<char>) -> Seq<char> {
    "<SystemConfiguration><Component FQDD=\"BIOS.Setup.1-1\"><!-- <Attribute Name=\"OldSysPassword\"></Attribute>--><!-- <Attribute Name=\"NewSysPassword\"></Attribute>--><Attribute Name=\"OldSetupPassword\">"@
        + current
        + "</Attribute><Attribute Name=\"NewSetupPassword\"></Attribute></Component></SystemConfiguration>"@
}

/// The body that imports a system configuration.
pub open spec fn import_body(buffer: Seq<char>) -> ObjectView {
    seq![
        ("ShutdownType"@, JsonView::Text("Forced"@)),
        (
            "ShareParameters"@,
            JsonView::Object(seq![("Target"@, JsonView::Text("BIOS"@))]),
        ),
        ("ImportBuffer"@, JsonView::Text(buffer)),
    ]
}

/// The RAID type for so many drives.
pub open spec fn raid_type(drives: nat) -> Option<Seq<char>> {
    if drives == 1 {
        Some("RAID0"@)
    } else if drives == 2 {
        Some("RAID1"@)
    } else {
        None
    }
}

/// Whether a volume can have this name: it takes 1 to 15 bytes.
pub open spec fn valid_volume_name(name: Seq<char>) -> bool {
    1 <= encode_utf8(name).len() <= 15
}

/// The body that creates a volume.
pub open spec fn volume_body(name: Seq<char>, raid: Seq<char>, drives: JsonView) -> ObjectView {
    seq![
        ("Name"@, JsonView::Text(name)),
        ("RAIDType"@, JsonView::Text(raid)),
        ("Links"@, JsonView::Object(seq![("Drives"@, drives)])),
    ]
}

/// The state of a job. One that is scheduled but failed to initialise stays
/// scheduled for ever.
pub open spec fn job_state_of(body: ObjectView, url: Seq<char>) -> Result<JobState, ErrorView> {
    match text_of(body, "JobState"@, url) {
        Err(e) => Err(e),
        Ok(state) => if JobState::parsed(state) == JobState::Scheduled {
            match text_of(body, "Message"@, url) {
                Err(e) => Err(e),
                Ok(message) => Ok(
                    if message == "Job processing initialization failure."@ {
                        JobState::ScheduledWithErrors
                    } else {
                        JobState::Scheduled
                    },
                ),
            }
        } else {
            Ok(JobState::parsed(state))
        },
    }
}

/// The state of a job.
pub fn read_job_state(body: &Object, url: &str) -> (r: Result<JobState, RedfishError>)
    ensures
        outcome(r) == job_state_of(body@, url@),
{
    let state = JobState::from_str(get_str(body, "JobState", url)?);
    match state {
        JobState::Scheduled => {
            let message = get_str(body, "Message", url)?;
            if same(message, "Job processing initialization failure.") {
                Ok(JobState::ScheduledWithErrors)
            } else {
                Ok(JobState::Scheduled)
            }
        },
        state => Ok(state),
    }
}

/// The metadata of a multipart firmware upload.
#[derive(Debug, PartialEq, Eq)]
pub struct UpdateParameters {
    pub targets: Vec<String>,
    pub apply_time: String,
}

/// The metadata of a multipart firmware upload, as JSON. The BMC expects to have a
/// `{}` there, even though it doesn't seem to do anything with it.
pub open spec fn update_parameters(reboot_immediate: bool) -> ObjectView {
    seq![
        ("Targets"@, JsonView::Array(Seq::empty())),
        (
            "@Redfish.OperationApplyTime"@,
            JsonView::Text(
                if reboot_immediate {
                    "Immediate"@
                } else {
                    "OnReset"@
                },
            ),
        ),
        ("Oem"@, JsonView::Object(Seq::empty())),
    ]
}

impl UpdateParameters {
    /// The parameters as an object.
    pub open spec fn object(&self) -> ObjectView {
        seq![
            ("Targets"@, texts_model(self.targets.deep_view())),
            ("@Redfish.OperationApplyTime"@, JsonView::Text(self.apply_time@)),
            ("Oem"@, JsonView::Object(Seq::empty())),
        ]
    }

    /// The parameters of an upload that takes effect at once, or with the next
    /// reset.
    pub fn new(reboot_immediate: bool) -> (r: UpdateParameters)
        ensures
            r.object() == update_parameters(reboot_immediate),
            r.targets@.len() == 0,
    {
        let apply_time = if reboot_immediate {
            "Immediate".to_owned()
        } else {
            "OnReset".to_owned()
        };
        let r = UpdateParameters { targets: Vec::new(), apply_time };
        assert(texts_model(r.targets.deep_view())->Array_0 =~= Seq::empty());
        assert(r.object() =~= update_parameters(reboot_immediate));
        r
    }

    /// The parameters as an object.
    pub fn to_object(&self) -> (r: Object)
        ensures
            r@ == self.object(),
    {
        let r = Object::new().with("Targets", Json::texts(&self.targets)).with_text(
            "@Redfish.OperationApplyTime",
            self.apply_time.as_str(),
        ).with("Oem", Object::new().into_json());
        assert(r@ =~= self.object());
        r
    }
}

impl RedfishStandard {
    /// Changes the power state.
    pub open spec fn power_flow(&self, action: SystemPowerControl, t: Tape) -> Flow<()> {
        if action == SystemPowerControl::ACPowercycle {
            Flow::Fail(
                Fault::NotSupported("AC power cycle not supported on this platform"@),
                t,
            )
        } else {
            sent(self.power_request(action), t)
        }
    }

    /// Changes the power state.
    pub fn send_power<'a>(&self, action: SystemPowerControl, io: &mut Exchange<'a>) -> (r: Result<
        (),
        Stop,
    >)
        ensures
            flow(r, final(io)@) == self.power_flow(action, old(io)@),
    {
        match self.power(action) {
            Ok(request) => io.send(request),
            Err(e) => Err(Stop::Fail(e)),
        }
    }
}

impl Bmc {
    /// Creates an account. On an iDRAC that is to edit one that is not in use.
    pub open spec fn create_user_flow(
        &self,
        username: Seq<char>,
        password: Seq<char>,
        role_id: RoleId,
        t: Tape,
    ) -> Flow<()> {
        free_account(3, t).and_then(
            |id: nat, t: Tape|
                sent(
                    patch(
                        "AccountService/Accounts/"@ + decimal(id),
                        account_body(username, password, role_id).push(
                            ("Enabled"@, JsonView::Bool(true)),
                        ),
                    ),
                    t,
                ),
        )
    }

    /// Creates an account.
    pub fn create_user<'a>(
        &self,
        username: &str,
        password: &str,
        role_id: RoleId,
        io: &mut Exchange<'a>,
    ) -> (r: Result<(), Stop>)
        ensures
            flow(r, final(io)@) == self.create_user_flow(
                username@,
                password@,
                role_id,
                old(io)@,
            ),
    {
        // Find an unused ID
        let mut account_id: u8 = 3;
        while account_id <= MAX_ACCOUNT_ID
            invariant
                3 <= account_id <= MAX_ACCOUNT_ID + 1,
                free_account(3, old(io)@) == free_account(account_id as nat, io@),
            decreases MAX_ACCOUNT_ID + 1 - account_id,
        {
            let id = numeral(account_id as u64);
            let is_free = match io.fetch::<ManagerAccount>(self.s.get_account_by_id(id.as_str())) {
                Ok(account) => match account.enabled {
                    Some(false) => true,
                    _ => false,
                },
                Err(Stop::Fail(_)) => true,
                Err(stop) => {
                    return Err(stop);
                },
            };
            if is_free {
                // Edit that unused account to be ours. That's how iDrac account creation works.
                return io.send(
                    self.s.edit_account(account_id, username, password, role_id, true),
                );
            }
            account_id = account_id + 1;
        }
        Err(Stop::Fail(Fault::TooManyUsers))
    }

    /// Clears the job queue. No changes can be applied if there are pending jobs,
    /// and the queue can't be cleared if system lockdown is enabled.
    pub open spec fn delete_job_queue_flow(&self, t: Tape) -> Flow<()> {
        self.is_lockdown_flow(t).and_then(
            |locked: bool, t: Tape|
                if locked {
                    Flow::Fail(Fault::Lockdown, t)
                } else {
                    sent(
                        post(
                            self.s.manager_path(
                                "/Oem/Dell/DellJobService/Actions/DellJobService.DeleteJobQueue"@,
                            ),
                            seq![("JobID"@, JsonView::Text("JID_CLEARALL"@))],
                        ),
                        t,
                    )
                },
        )
    }

    /// Clears the job queue.
    pub fn delete_job_queue<'a>(&self, io: &mut Exchange<'a>) -> (r: Result<(), Stop>)
        ensures
            flow(r, final(io)@) == self.delete_job_queue_flow(old(io)@),
    {
        if self.is_lockdown(io)? {
            return Err(Stop::Fail(Fault::Lockdown));
        }
        io.send(
            Request::post(
                self.s.manager_url(
                    "/Oem/Dell/DellJobService/Actions/DellJobService.DeleteJobQueue",
                ),
                Object::new().with_text("JobID", "JID_CLEARALL"),
            ),
        )
    }

    /// Clears the pending changes.
    pub fn clear_pending<'a>(&self, io: &mut Exchange<'a>) -> (r: Result<(), Stop>)
        ensures
            flow(r, final(io)@) == self.delete_job_queue_flow(old(io)@),
    {
        self.delete_job_queue(io)
    }

    /// The request that sets BIOS attributes, with the next reset.
    pub open spec fn bios_change(&self, attributes: ObjectView) -> RequestView {
        patch(
            self.bios_settings_path(),
            settings_at(RedfishSettingsApplyTime::OnReset, attributes),
        )
    }

    /// Sets BIOS attributes, with the next reset.
    fn change_bios(&self, attributes: Object) -> (r: Request)
        ensures
            r@ == self.bios_change(attributes@),
    {
        Request::patch(
            self.s.system_url("/Bios/Settings/"),
            settings(RedfishSettingsApplyTime::OnReset, attributes),
        )
    }

    /// Sets BIOS attributes, with the next reset.
    pub fn set_bios(&self, values: Object) -> (r: Request)
        ensures
            r@ == self.bios_change(values@),
    {
        self.change_bios(values)
    }

    /// Sets the BIOS back to its factory settings.
    pub fn reset_bios(&self) -> (r: Request)
        ensures
            r@ == plain(
                Method::Post,
                self.s.system_path("/Bios/Actions/Bios.ResetBios"@),
                PayloadView::Empty,
            ),
    {
        self.s.factory_reset_bios()
    }

    /// Makes the machine try its boot order for ever.
    pub fn enable_infinite_boot(&self) -> (r: Request)
        ensures
            r@ == self.bios_change(seq![named("BootSeqRetry"@, "Enabled"@)]),
    {
        self.change_bios(Object::new().with_text("BootSeqRetry", "Enabled"))
    }

    /// Whether the machine tries its boot order for ever.
    pub open spec fn is_infinite_boot_enabled_flow(&self, t: Tape) -> Flow<Option<bool>> {
        let url = self.s.system_path("/Bios"@);
        fetched::<Object>(get(url), t).and_then(
            |bios: ObjectView, t: Tape|
                settled(entries_of(bios, "Attributes"@, url), t).and_then(
                    |attrs: ObjectView, t: Tape|
                        settled(text_of(attrs, "BootSeqRetry"@, "Bios Attributes"@), t).map(
                            |retry: Seq<char>| Some(retry == "Enabled"@),
                        ),
                ),
        )
    }

    /// Whether the machine tries its boot order for ever.
    pub fn is_infinite_boot_enabled<'a>(&self, io: &mut Exchange<'a>) -> (r: Result<
        Option<bool>,
        Stop,
    >)
        ensures
            flow(r, final(io)@) == self.is_infinite_boot_enabled_flow(old(io)@),
    {
        let url = self.s.system_url("/Bios");
        let bios: &'a Object = io.fetch::<Object>(self.s.bios())?;
        let attrs: &'a Object = settle(get_object(bios, "Attributes", url.as_str()))?;
        let retry: &'a str = settle(get_str(attrs, "BootSeqRetry", "Bios Attributes"))?;
        Ok(Some(same(retry, "Enabled")))
    }

    /// Turns the TPM on or off.
    fn change_tpm(&self, security: OnOff, hierarchy: Tpm2HierarchySettings) -> (r: Request)
        ensures
            r@ == self.bios_change(tpm_settings(security, hierarchy)),
    {
        let o = Object::new().with_text("TpmSecurity", security.name()).with_text(
            "Tpm2Hierarchy",
            hierarchy.name(),
        );
        assert(o@ =~= tpm_settings(security, hierarchy));
        self.change_bios(o)
    }

    /// TPM is enabled by default so we never call this.
    pub fn enable_tpm(&self) -> (r: Request)
        ensures
            r@ == self.bios_change(tpm_settings(OnOff::On, Tpm2HierarchySettings::Enabled)),
    {
        self.change_tpm(OnOff::On, Tpm2HierarchySettings::Enabled)
    }

    /// Dell supports disabling the TPM. Why would we do this?
    /// Lenovo does not support disabling TPM2.0
    pub fn disable_tpm(&self) -> (r: Request)
        ensures
            r@ == self.bios_change(tpm_settings(OnOff::Off, Tpm2HierarchySettings::Disabled)),
    {
        self.change_tpm(OnOff::Off, Tpm2HierarchySettings::Disabled)
    }

    /// Clears the TPM.
    pub open spec fn clear_tpm_flow(&self, t: Tape) -> Flow<()> {
        self.delete_job_queue_flow(t).and_then(
            |done: (), t: Tape|
                sent(
                    self.bios_change(tpm_settings(OnOff::On, Tpm2HierarchySettings::Clear)),
                    t,
                ),
        )
    }

    /// Clears the TPM.
    pub fn clear_tpm<'a>(&self, io: &mut Exchange<'a>) -> (r: Result<(), Stop>)
        ensures
            flow(r, final(io)@) == self.clear_tpm_flow(old(io)@),
    {
        self.delete_job_queue(io)?;
        io.send(self.change_tpm(OnOff::On, Tpm2HierarchySettings::Clear))
    }

    /// The request that sets attributes of the manager.
    pub open spec fn manager_change(&self, body: ObjectView) -> RequestView {
        patch(self.attributes_path(), body)
    }

    /// Makes the machine boot from `entry` first, once or always.
    pub open spec fn boot_first_request(&self, entry: BootDevices, once: bool) -> RequestView {
        self.manager_change(
            settings_at(
                RedfishSettingsApplyTime::OnReset,
                server_boot(
                    entry,
                    if once {
                        EnabledDisabled::Enabled
                    } else {
                        EnabledDisabled::Disabled
                    },
                ),
            ),
        )
    }

    /// Makes the machine boot from `entry` first, once or always.
    pub fn set_boot_first(&self, entry: BootDevices, once: bool) -> (r: Request)
        ensures
            r@ == self.boot_first_request(entry, once),
    {
        let boot_once = if once {
            EnabledDisabled::Enabled
        } else {
            EnabledDisabled::Disabled
        };
        let attributes = with_server_boot(Object::new(), entry, boot_once);
        assert(attributes@ =~= server_boot(entry, boot_once));
        Request::patch(
            self.attributes_url(),
            settings(RedfishSettingsApplyTime::OnReset, attributes),
        )
    }

    /// The request that makes the machine boot from `target` first, once or
    /// always.
    pub open spec fn boot_request(&self, target: Boot, once: bool) -> Result<
        RequestView,
        ErrorView,
    > {
        match target {
            Boot::Pxe => Ok(self.boot_first_request(BootDevices::PXE, once)),
            Boot::HardDisk => Ok(self.boot_first_request(BootDevices::HDD, once)),
            Boot::UefiHttp => Err(ErrorView::NotSupported("No Dell UefiHttp implementation"@)),
        }
    }

    /// Boots from something else once.
    pub fn boot_once(&self, target: Boot) -> (r: Result<Request, RedfishError>)
        ensures
            outcome(r) == self.boot_request(target, true),
    {
        match target {
            Boot::Pxe => Ok(self.set_boot_first(BootDevices::PXE, true)),
            Boot::HardDisk => Ok(self.set_boot_first(BootDevices::HDD, true)),
            Boot::UefiHttp => Err(not_supported("No Dell UefiHttp implementation")),
        }
    }

    /// Boots from something else from now on.
    pub fn boot_first(&self, target: Boot) -> (r: Result<Request, RedfishError>)
        ensures
            outcome(r) == self.boot_request(target, false),
    {
        match target {
            Boot::Pxe => Ok(self.set_boot_first(BootDevices::PXE, false)),
            Boot::HardDisk => Ok(self.set_boot_first(BootDevices::HDD, false)),
            Boot::UefiHttp => Err(not_supported("No Dell UefiHttp implementation")),
        }
    }

    /// Locks or unlocks the iDRAC.
    pub fn set_idrac_lockdown(&self, enabled: EnabledDisabled) -> (r: Request)
        ensures
            r@ == self.manager_change(
                attributes_only(seq![named("Lockdown.1.SystemLockdown"@, enabled.text())]),
            ),
    {
        Request::patch(
            self.attributes_url(),
            only_attributes(
                Object::new().with_text("Lockdown.1.SystemLockdown", enabled.name()),
            ),
        )
    }

    /// Sets the clock of the BMC to UTC.
    pub fn set_utc_timezone(&self) -> (r: Request)
        ensures
            r@ == self.manager_change(
                attributes_only(seq![named("Time.1.Timezone"@, "UTC"@)]),
            ),
    {
        Request::patch(
            self.attributes_url(),
            only_attributes(Object::new().with_text("Time.1.Timezone", "UTC")),
        )
    }

    /// Turns the hot spare power supply off.
    pub fn disable_psu_hot_spare(&self) -> (r: Request)
        ensures
            r@ == self.manager_change(
                attributes_only(seq![named("ServerPwr.1.PSRapidOn"@, "Disabled"@)]),
            ),
    {
        Request::patch(
            self.attributes_url(),
            only_attributes(Object::new().with_text("ServerPwr.1.PSRapidOn", "Disabled")),
        )
    }

    /// iDRAC does not suport changing password policy. They support IP blocking
    /// instead, so there is nothing to do.
    pub fn set_machine_password_policy(&self) -> (r: Result<(), RedfishError>)
        ensures
            r is Ok,
    {
        Ok(())
    }

    /// Whether `power` can do an AC power cycle.
    pub fn ac_powercycle_supported_by_power(&self) -> (r: bool)
        ensures
            r,
    {
        true
    }

    /// The request that changes all settings of a locked BMC but the lockdown.
    pub open spec fn before_lock_request(&self, entry: BootDevices) -> RequestView {
        self.manager_change(
            settings_at(
                RedfishSettingsApplyTime::OnReset,
                seq![named("Racadm.1.Enable"@, "Disabled"@)] + server_boot(
                    entry,
                    EnabledDisabled::Disabled,
                ),
            ),
        )
    }

    /// The request that locks the BMC.
    pub open spec fn lock_request(&self) -> RequestView {
        self.manager_change(
            settings_at(
                RedfishSettingsApplyTime::OnReset,
                seq![named("Lockdown.1.SystemLockdown"@, "Enabled"@)],
            ),
        )
    }

    /// Locks the BMC. All other settings come first, because lockdown applies
    /// immediately and prevents them being applied.
    pub open spec fn enable_bmc_lockdown_flow(&self, entry: BootDevices, t: Tape) -> Flow<()> {
        sent(self.before_lock_request(entry), t).and_then(
            |done: (), t: Tape| sent(self.lock_request(), t),
        )
    }

    /// Locks the BMC.
    pub fn enable_bmc_lockdown<'a>(&self, entry: BootDevices, io: &mut Exchange<'a>) -> (r: Result<
        (),
        Stop,
    >)
        ensures
            flow(r, final(io)@) == self.enable_bmc_lockdown_flow(entry, old(io)@),
    {
        // First change all settings except lockdown, because that applies immediately
        // and prevents the other settings being applied.
        let attributes = with_server_boot(
            Object::new().with_text("Racadm.1.Enable", "Disabled"),
            entry,
            EnabledDisabled::Disabled,
        );
        io.send(
            Request::patch(
                self.attributes_url(),
                settings(RedfishSettingsApplyTime::OnReset, attributes),
            ),
        )?;
        // Now lockdown
        let attributes = Object::new().with_text("Lockdown.1.SystemLockdown", "Enabled");
        io.send(
            Request::patch(
                self.attributes_url(),
                settings(RedfishSettingsApplyTime::OnReset, attributes),
            ),
        )
    }

    /// The request that unlocks the BMC.
    pub open spec fn unlock_request(&self, entry: BootDevices) -> RequestView {
        self.manager_change(
            settings_at(
                RedfishSettingsApplyTime::Immediate,
                seq![
                    named("Lockdown.1.SystemLockdown"@, "Disabled"@),
                    named("Racadm.1.Enable"@, "Enabled"@),
                ] + server_boot(entry, EnabledDisabled::Disabled),
            ),
        )
    }

    /// Unlocks the BMC.
    pub fn disable_bmc_lockdown(&self, entry: BootDevices) -> (r: Request)
        ensures
            r@ == self.unlock_request(entry),
    {
        let unlocked = Object::new().with_text("Lockdown.1.SystemLockdown", "Disabled").with_text(
            "Racadm.1.Enable",
            "Enabled",
        );
        assert(unlocked@ =~= seq![
            named("Lockdown.1.SystemLockdown"@, "Disabled"@),
            named("Racadm.1.Enable"@, "Enabled"@),
        ]);
        let attributes = with_server_boot(unlocked, entry, EnabledDisabled::Disabled);
        // bmc settings don't require reboot
        Request::patch(
            self.attributes_url(),
            settings(RedfishSettingsApplyTime::Immediate, attributes),
        )
    }

    /// Unlocks the BIOS. Sometimes these settings are read-only, which is ignored.
    pub open spec fn disable_bios_lockdown_flow(&self, t: Tape) -> Flow<()> {
        match sent(self.bios_change(bios_unlock_settings()), t) {
            Flow::Fail(e, t) => if read_only(e) {
                Flow::Ready((), t)
            } else {
                Flow::Fail(e, t)
            },
            other => other,
        }
    }

    /// Unlocks the BIOS.
    pub fn disable_bios_lockdown<'a>(&self, io: &mut Exchange<'a>) -> (r: Result<(), Stop>)
        ensures
            flow(r, final(io)@) == self.disable_bios_lockdown_flow(old(io)@),
    {
        let attributes = Object::new().with_text(
            "InBandManageabilityInterface",
            EnabledDisabled::Enabled.name(),
        ).with_text("UefiVariableAccess", UefiVariableAccessSettings::Standard.name());
        assert(attributes@ =~= bios_unlock_settings());
        match io.send(self.change_bios(attributes)) {
            Err(Stop::Fail(e)) => if is_read_only(&e) {
                Ok(())
            } else {
                Err(Stop::Fail(e))
            },
            other => other,
        }
    }

    /// Locks or unlocks the BMC.
    pub open spec fn lockdown_bmc_flow(&self, target: EnabledDisabled, t: Tape) -> Flow<()> {
        self.s.system_flow(t).and_then(
            |system: ComputerSystem, t: Tape|
                match target {
                    EnabledDisabled::Enabled => self.enable_bmc_lockdown_flow(
                        boot_device_of(system),
                        t,
                    ),
                    EnabledDisabled::Disabled => sent(
                        self.unlock_request(boot_device_of(system)),
                        t,
                    ),
                },
        )
    }

    /// Locks or unlocks the BMC.
    pub fn lockdown_bmc<'a>(&self, target: EnabledDisabled, io: &mut Exchange<'a>) -> (r: Result<
        (),
        Stop,
    >)
        ensures
            flow(r, final(io)@) == self.lockdown_bmc_flow(target, old(io)@),
    {
        let system: &'a ComputerSystem = io.fetch::<ComputerSystem>(self.s.get_system())?;
        let entry = boot_device(system);
        match target {
            EnabledDisabled::Enabled => self.enable_bmc_lockdown(entry, io),
            EnabledDisabled::Disabled => io.send(self.disable_bmc_lockdown(entry)),
        }
    }

    /// Locks or unlocks the machine. BIOS lockdown blocks IPMI, so it is made sure
    /// that it is off even though it is never turned on.
    pub open spec fn lockdown_flow(&self, target: EnabledDisabled, t: Tape) -> Flow<()> {
        self.lockdown_bmc_flow(target, t).and_then(
            |done: (), t: Tape|
                match target {
                    EnabledDisabled::Enabled => Flow::Ready((), t),
                    EnabledDisabled::Disabled => self.disable_bios_lockdown_flow(t),
                },
        )
    }

    /// Locks or unlocks the machine.
    pub fn lockdown<'a>(&self, target: EnabledDisabled, io: &mut Exchange<'a>) -> (r: Result<
        (),
        Stop,
    >)
        ensures
            flow(r, final(io)@) == self.lockdown_flow(target, old(io)@),
    {
        self.lockdown_bmc(target, io)?;
        match target {
            EnabledDisabled::Enabled => Ok(()),
            EnabledDisabled::Disabled => self.disable_bios_lockdown(io),
        }
    }

    /// The request that sets up remote access on the standard path.
    pub open spec fn remote_access_request(&self) -> RequestView {
        patch(
            self.s.manager_path("/Attributes"@),
            settings_at(RedfishSettingsApplyTime::Immediate, remote_access_settings()),
        )
    }

    /// Setup BMC remote access via standard Attributes path (iDRAC 9 and earlier).
    pub fn setup_bmc_remote_access_standard(&self) -> (r: Request)
        ensures
            r@ == self.remote_access_request(),
    {
        Request::patch(
            self.s.manager_url("/Attributes"),
            settings(RedfishSettingsApplyTime::Immediate, remote_access_object()),
        )
    }

    /// The request that sets up remote access on Dell's own path.
    pub open spec fn remote_access_oem_request(&self) -> RequestView {
        self.manager_change(attributes_only(remote_access_settings()))
    }

    /// Setup BMC remote access via OEM DellAttributes path (iDRAC 10).
    pub fn setup_bmc_remote_access_oem(&self) -> (r: Request)
        ensures
            r@ == self.remote_access_oem_request(),
    {
        Request::patch(self.attributes_url(), only_attributes(remote_access_object()))
    }

    /// Sets up remote access: on the standard path, or, where there is none, on
    /// Dell's own.
    pub open spec fn setup_bmc_remote_access_flow(&self, t: Tape) -> Flow<()> {
        match sent(self.remote_access_request(), t) {
            Flow::Fail(e, t) => if not_found(e) {
                sent(self.remote_access_oem_request(), t)
            } else {
                Flow::Fail(e, t)
            },
            other => other,
        }
    }

    /// Sets up remote access.
    pub fn setup_bmc_remote_access<'a>(&self, io: &mut Exchange<'a>) -> (r: Result<(), Stop>)
        ensures
            flow(r, final(io)@) == self.setup_bmc_remote_access_flow(old(io)@),
    {
        // Try the regular Attributes path first (iDRAC 9 and earlier)
        match io.send(self.setup_bmc_remote_access_standard()) {
            Err(Stop::Fail(e)) => if is_not_found(&e) {
                // Regular path doesn't exist, fall back to OEM path (iDRAC 10+)
                io.send(self.setup_bmc_remote_access_oem())
            } else {
                Err(Stop::Fail(e))
            },
            other => other,
        }
    }

    /// Sets up the serial console.
    pub open spec fn setup_serial_console_flow(&self, t: Tape) -> Flow<()> {
        self.delete_job_queue_flow(t).and_then(
            |done: (), t: Tape|
                self.setup_bmc_remote_access_flow(t).and_then(
                    |done: (), t: Tape|
                        self.s.bios_attributes_flow(t).and_then(
                            |bios: JsonView, t: Tape|
                                sent(self.bios_change(serial_console_settings(bios)), t),
                        ),
                ),
        )
    }

    /// Sets up the serial console.
    pub fn setup_serial_console<'a>(&self, io: &mut Exchange<'a>) -> (r: Result<(), Stop>)
        ensures
            flow(r, final(io)@) == self.setup_serial_console_flow(old(io)@),
    {
        self.delete_job_queue(io)?;
        self.setup_bmc_remote_access(io)?;
        // Detect BIOS format from current values and use appropriate targets
        let bios: &'a Json = self.s.bios_attributes(io)?;
        io.send(self.change_bios(serial_console_object(bios)))
    }

    /// Sets the attributes of the BMC that are set up beside those of the BIOS.
    pub open spec fn machine_setup_oem_flow(&self, t: Tape) -> Flow<()> {
        self.manager_dell_oem_attributes_flow(t).and_then(
            |current: JsonView, t: Tape|
                sent(self.manager_change(attributes_only(oem_settings(current))), t),
        )
    }

    /// Extra Dell-specific attributes we need to set that are not BIOS attributes
    pub fn machine_setup_oem<'a>(&self, io: &mut Exchange<'a>) -> (r: Result<(), Stop>)
        ensures
            flow(r, final(io)@) == self.machine_setup_oem_flow(old(io)@),
    {
        let current: &'a Json = self.manager_dell_oem_attributes(io)?;
        io.send(Request::patch(self.attributes_url(), only_attributes(oem_object(current))))
    }

    /// `body` with the extra values that `profiles` has for this machine, where
    /// Dell has any at all.
    pub open spec fn with_extra_values_flow(
        &self,
        body: ObjectView,
        profiles: Seq<VendorProfiles>,
        selected: BiosProfileType,
        t: Tape,
    ) -> Flow<ObjectView> {
        match dell_models(profiles) {
            Some(models) => self.s.system_flow(t).map(
                |system: ComputerSystem|
                    match extra_values(
                        models,
                        underscored(
                            match system.model {
                                Some(model) => model@,
                                None => ""@,
                            },
                        ),
                        selected,
                    ) {
                        Some(extra) => extended(body, extra),
                        None => body,
                    },
            ),
            None => Flow::Ready(body, t),
        }
    }

    /// `body` with the extra values that `profiles` has for this machine.
    fn with_extra_values<'a>(
        &self,
        body: Object,
        profiles: &Vec<VendorProfiles>,
        selected: BiosProfileType,
        io: &mut Exchange<'a>,
    ) -> (r: Result<Object, Stop>)
        ensures
            flow(r, final(io)@) == self.with_extra_values_flow(
                body@,
                profiles@,
                selected,
                old(io)@,
            ),
    {
        match find_dell_models(profiles) {
            Some(models) => {
                let system: &'a ComputerSystem = io.fetch::<ComputerSystem>(self.s.get_system())?;
                let model = match &system.model {
                    Some(model) => with_underscores(model.as_str()),
                    None => with_underscores(""),
                };
                match find_extra_values(models, model.as_str(), selected) {
                    Some(extra) => Ok(body.extend(extra)),
                    None => Ok(body),
                }
            },
            None => Ok(body),
        }
    }

    /// Sets up the machine. dell idrac requires applying all bios settings at
    /// once. Usually a missing DPU is an error, but for zero-dpu it isn't: all is
    /// set up, and the caller is told.
    pub open spec fn machine_setup_flow(
        &self,
        mac: Option<Seq<char>>,
        profiles: Seq<VendorProfiles>,
        selected: BiosProfileType,
        t: Tape,
    ) -> Flow<()> {
        self.delete_job_queue_flow(t).and_then(
            |done: (), t: Tape|
                self.nic_slot_flow(mac, t).and_then(
                    |slot: Seq<char>, t: Tape|
                        self.machine_setup_attrs_flow(slot, t).and_then(
                            |attrs: BiosAttrs<Seq<char>>, t: Tape|
                                self.with_extra_values_flow(
                                    settings_at(
                                        RedfishSettingsApplyTime::OnReset,
                                        bios_object(attrs),
                                    ),
                                    profiles,
                                    selected,
                                    t,
                                ).and_then(
                                    |body: ObjectView, t: Tape|
                                        self.apply_setup_flow(body, mac is Some, t),
                                ),
                        ),
                ),
        )
    }

    /// Sets the BIOS attributes of a machine, and those of its BMC.
    pub open spec fn apply_setup_flow(&self, body: ObjectView, has_dpu: bool, t: Tape) -> Flow<()> {
        job_flow(patch(self.bios_settings_path(), body), t).and_then(
            |job: Seq<char>, t: Tape|
                self.machine_setup_oem_flow(t).and_then(
                    |done: (), t: Tape|
                        self.setup_bmc_remote_access_flow(t).and_then(
                            |done: (), t: Tape|
                                if has_dpu {
                                    Flow::Ready((), t)
                                } else {
                                    Flow::Fail(Fault::NoDpu, t)
                                },
                        ),
                ),
        )
    }

    /// Sets up the machine.
    pub fn machine_setup<'a>(
        &self,
        boot_interface_mac: Option<&str>,
        bios_profiles: &Vec<VendorProfiles>,
        selected_profile: BiosProfileType,
        io: &mut Exchange<'a>,
    ) -> (r: Result<(), Stop>)
        ensures
            flow(r, final(io)@) == self.machine_setup_flow(
                boot_interface_mac.deep_view(),
                bios_profiles@,
                selected_profile,
                old(io)@,
            ),
    {
        self.delete_job_queue(io)?;
        let has_dpu = boot_interface_mac.is_some();
        let nic_slot: &'a str = self.nic_slot(boot_interface_mac, io)?;
        // dell idrac requires applying all bios settings at once.
        let attrs: MachineBiosAttrs = self.machine_setup_attrs(nic_slot, io)?;
        let body = settings(RedfishSettingsApplyTime::OnReset, attrs.to_object());
        let body: Object = self.with_extra_values(body, bios_profiles, selected_profile, io)?;
        let _job: String = start_job(
            Request::patch(self.s.system_url("/Bios/Settings/"), body),
            io,
        )?;
        self.machine_setup_oem(io)?;
        self.setup_bmc_remote_access(io)?;
        if has_dpu {
            Ok(())
        } else {
            // Usually a missing DPU is an error, but for zero-dpu it isn't
            // Tell the caller and let them decide
            Err(Stop::Fail(Fault::NoDpu))
        }
    }
}

impl Bmc {
    /// Does an AC power cycle: a full power cycle is requested, and the machine is
    /// started or restarted for it.
    pub open spec fn perform_ac_power_cycle_flow(&self, t: Tape) -> Flow<()> {
        self.delete_job_queue_flow(t).and_then(
            |done: (), t: Tape|
                match sent(
                    patch(
                        self.s.system_path("/Bios/Settings"@),
                        settings_at(
                            RedfishSettingsApplyTime::OnReset,
                            seq![named("PowerCycleRequest"@, "FullPowerCycle"@)],
                        ),
                    ),
                    t,
                ) {
                    Flow::Fail(e, t) => if read_only(e) {
                        Flow::Fail(
                            Fault::GenericError {
                                error:
                                    "Failed to set PowerCycleRequest BIOS attribute due to read-only dependencies. Please reboot the machine and try again."@,
                            },
                            t,
                        )
                    } else {
                        Flow::Fail(e, t)
                    },
                    Flow::Ready(done, t) => self.s.power_state_flow(t).and_then(
                        |state: PowerState, t: Tape|
                            self.s.power_flow(
                                if state == PowerState::Off {
                                    SystemPowerControl::On
                                } else {
                                    SystemPowerControl::GracefulRestart
                                },
                                t,
                            ),
                    ),
                    Flow::Wait(q, k) => Flow::Wait(q, k),
                },
        )
    }

    /// Does an AC power cycle.
    pub fn perform_ac_power_cycle<'a>(&self, io: &mut Exchange<'a>) -> (r: Result<(), Stop>)
        ensures
            flow(r, final(io)@) == self.perform_ac_power_cycle_flow(old(io)@),
    {
        self.clear_pending(io)?;
        // Set PowerCycleRequest in BIOS settings
        let attributes = Object::new().with_text("PowerCycleRequest", "FullPowerCycle");
        match io.send(
            Request::patch(
                self.s.system_url("/Bios/Settings"),
                settings(RedfishSettingsApplyTime::OnReset, attributes),
            ),
        ) {
            Ok(()) => {},
            // Handle intermittent 400 errors for read-only attributes
            Err(Stop::Fail(e)) => {
                if is_read_only(&e) {
                    return Err(
                        Stop::Fail(
                            generic(
                                "Failed to set PowerCycleRequest BIOS attribute due to read-only dependencies. Please reboot the machine and try again.",
                            ),
                        ),
                    );
                }
                return Err(Stop::Fail(e));
            },
            Err(stop) => {
                return Err(stop);
            },
        }
        // Apply the setting based on current power state
        let state: PowerState = self.s.get_power_state(io)?;
        match state {
            PowerState::Off => self.s.send_power(SystemPowerControl::On, io),
            _ => self.s.send_power(SystemPowerControl::GracefulRestart, io),
        }
    }

    /// Changes the power state. An AC power cycle needs a machine that is not
    /// locked down.
    pub open spec fn power_flow(&self, action: SystemPowerControl, t: Tape) -> Flow<()> {
        if action == SystemPowerControl::ACPowercycle {
            self.is_lockdown_flow(t).and_then(
                |locked: bool, t: Tape|
                    self.s.bios_attributes_flow(t).and_then(
                        |bios: JsonView, t: Tape|
                            if locked || as_text(member(bios, "UefiVariableAccess"@)) == Some(
                                "Controlled"@,
                            ) {
                                Flow::Fail(
                                    Fault::GenericError {
                                        error:
                                            "Cannot perform AC power cycle while system is locked down. Disable lockdown, reboot, verify BIOS attribute 'UefiVariableAccess' is 'Standard', and then try again."@,
                                    },
                                    t,
                                )
                            } else {
                                self.perform_ac_power_cycle_flow(t)
                            },
                    ),
            )
        } else {
            self.s.power_flow(action, t)
        }
    }

    /// Changes the power state.
    pub fn power<'a>(&self, action: SystemPowerControl, io: &mut Exchange<'a>) -> (r: Result<
        (),
        Stop,
    >)
        ensures
            flow(r, final(io)@) == self.power_flow(action, old(io)@),
    {
        if action == SystemPowerControl::ACPowercycle {
            let locked: bool = self.is_lockdown(io)?;
            let bios: &'a Json = self.s.bios_attributes(io)?;
            let controlled = match bios.get("UefiVariableAccess") {
                Some(v) => match v.as_str() {
                    Some(access) => same(access, "Controlled"),
                    None => false,
                },
                None => false,
            };
            if locked || controlled {
                return Err(
                    Stop::Fail(
                        generic(
                            "Cannot perform AC power cycle while system is locked down. Disable lockdown, reboot, verify BIOS attribute 'UefiVariableAccess' is 'Standard', and then try again.",
                        ),
                    ),
                );
            }
            self.perform_ac_power_cycle(io)
        } else {
            self.s.send_power(action, io)
        }
    }

    /// The entries of the system event log. Dell stores it as part of the manager.
    pub fn get_system_event_log(&self) -> (r: Request)
        ensures
            r@ == get(self.s.manager_path("/LogServices/Sel/Entries"@)),
    {
        Request::get(self.s.manager_url("/LogServices/Sel/Entries"))
    }

    /// The id of the task that an upload has started. iDRAC returns the full
    /// endpoint.
    pub open spec fn upload_task(upload: Upload) -> Seq<char> {
        without_all(
            match upload.location {
                Some(location) => location@,
                None => "Unknown"@,
            },
            "/redfish/v1/TaskService/Tasks/"@,
        )
    }

    /// The request that sends a firmware image in parts.
    pub open spec fn multipart_request(reboot: bool, timeout: Timeout) -> RequestView {
        RequestView {
            timeout: Some(timeout),
            ..plain(
                Method::Post,
                "UpdateService/MultipartUpload"@,
                PayloadView::Multipart {
                    parameters: rendered(JsonView::Object(update_parameters(reboot))),
                    drop_redfish_url: false,
                },
            )
        }
    }

    /// Sends a firmware image in parts, and returns the id of the task.
    pub fn update_firmware_multipart<'a>(
        &self,
        reboot: bool,
        timeout: Timeout,
        io: &mut Exchange<'a>,
    ) -> (r: Result<String, Stop>)
        ensures
            flow(r, final(io)@) == fetched::<Upload>(
                Self::multipart_request(reboot, timeout),
                old(io)@,
            ).map(|upload: Upload| Self::upload_task(upload)),
    {
        let parameters = UpdateParameters::new(reboot).to_object().into_json().render();
        let mut request = Request::plain(
            Method::Post,
            "UpdateService/MultipartUpload".to_owned(),
            Payload::Multipart { parameters, drop_redfish_url: false },
        );
        request.timeout = Some(timeout);
        let upload: &'a Upload = io.fetch::<Upload>(request)?;
        let location = match &upload.location {
            Some(location) => location.as_str(),
            None => "Unknown",
        };
        proof {
            reveal_strlit("/redfish/v1/TaskService/Tasks/");
        }
        // iDRAC returns the full endpoint, we just want the task ID
        Ok(remove_all(location, "/redfish/v1/TaskService/Tasks/"))
    }

    /// A network function by its card and port.
    pub fn get_network_device_function(&self, chassis_id: &str, id: &str, port: Option<&str>) -> (r:
        Result<Request, RedfishError>)
        ensures
            outcome(r) == (match port.deep_view() {
                Some(port) => Ok(
                    get(
                        "Chassis/"@ + chassis_id@ + "/NetworkAdapters/"@ + id@
                            + "/NetworkDeviceFunctions/"@ + port,
                    ),
                ),
                None => Err(ErrorView::GenericError { error: "Port is missing for Dell."@ }),
            }),
    {
        match port {
            Some(port) => {
                let functions = cat5(
                    "Chassis/",
                    chassis_id,
                    "/NetworkAdapters/",
                    id,
                    "/NetworkDeviceFunctions/",
                );
                Ok(Request::get(cat2(functions.as_str(), port)))
            },
            None => Err(generic("Port is missing for Dell.")),
        }
    }

    /// The request that makes pending BIOS changes a job.
    pub open spec fn config_job_request() -> RequestView {
        post(
            "Managers/iDRAC.Embedded.1/Oem/Dell/Jobs"@,
            seq![
                (
                    "TargetSettingsURI"@,
                    JsonView::Text("/redfish/v1/Systems/System.Embedded.1/Bios/Settings"@),
                ),
            ],
        )
    }

    /// Makes pending BIOS changes a job, and returns its id.
    pub fn create_bios_config_job<'a>(&self, io: &mut Exchange<'a>) -> (r: Result<String, Stop>)
        ensures
            flow(r, final(io)@) == job_flow(Self::config_job_request(), old(io)@),
    {
        start_job(
            Request::post(
                "Managers/iDRAC.Embedded.1/Oem/Dell/Jobs".to_owned(),
                Object::new().with_text(
                    "TargetSettingsURI",
                    "/redfish/v1/Systems/System.Embedded.1/Bios/Settings",
                ),
            ),
            io,
        )
    }

    /// Changes the UEFI password, and returns the id of the job that does. It can't
    /// be changed if the host is in lockdown.
    pub open spec fn change_uefi_password_flow(
        &self,
        current: Seq<char>,
        new: Seq<char>,
        t: Tape,
    ) -> Flow<Option<Seq<char>>> {
        self.is_lockdown_flow(t).and_then(
            |locked: bool, t: Tape|
                if locked {
                    Flow::Fail(Fault::Lockdown, t)
                } else {
                    sent(
                        self.s.bios_password_change("SetupPassword"@, current, new),
                        t,
                    ).and_then(
                        |done: (), t: Tape|
                            job_flow(Self::config_job_request(), t).map(
                                |job: Seq<char>| Some(job),
                            ),
                    )
                },
        )
    }

    /// Changes the UEFI password, and returns the id of the job that does.
    pub fn change_uefi_password<'a>(
        &self,
        current_uefi_password: &str,
        new_uefi_password: &str,
        io: &mut Exchange<'a>,
    ) -> (r: Result<Option<String>, Stop>)
        ensures
            flow(r, final(io)@) == self.change_uefi_password_flow(
                current_uefi_password@,
                new_uefi_password@,
                old(io)@,
            ),
    {
        // The uefi password cant be changed if the host is in lockdown
        if self.is_lockdown(io)? {
            return Err(Stop::Fail(Fault::Lockdown));
        }
        io.send(
            self.s.change_bios_password(
                UEFI_PASSWORD_NAME,
                current_uefi_password,
                new_uefi_password,
            ),
        )?;
        let job: String = self.create_bios_config_job(io)?;
        Ok(Some(job))
    }

    /// The request that imports a system configuration.
    pub open spec fn import_request(buffer: Seq<char>) -> RequestView {
        post(
            "Managers/iDRAC.Embedded.1/Actions/Oem/EID_674_Manager.ImportSystemConfiguration"@,
            import_body(buffer),
        )
    }

    /// import_system_configuration returns the job ID for importing this sytem
    /// configuration
    pub fn import_system_configuration<'a>(&self, import_buffer: &str, io: &mut Exchange<'a>) -> (r:
        Result<String, Stop>)
        ensures
            flow(r, final(io)@) == job_flow(Self::import_request(import_buffer@), old(io)@),
    {
        let body = Object::new().with_text("ShutdownType", "Forced").with(
            "ShareParameters",
            Object::new().with_text("Target", "BIOS").into_json(),
        ).with_text("ImportBuffer", import_buffer);
        assert(body@ =~= import_body(import_buffer@));
        start_job(
            Request::post(
                "Managers/iDRAC.Embedded.1/Actions/Oem/EID_674_Manager.ImportSystemConfiguration".to_owned(),
                body,
            ),
            io,
        )
    }

    /// Dells endpoint to change the UEFI password has a bug for updating it once it is set.
    /// Use the ImportSystemConfiguration endpoint as a hack to clear the UEFI password instead.
    /// Detailed here: https://github.com/dell/iDRAC-Redfish-Scripting/issues/308
    pub fn clear_uefi_password_via_import<'a>(
        &self,
        current_uefi_password: &str,
        io: &mut Exchange<'a>,
    ) -> (r: Result<String, Stop>)
        ensures
            flow(r, final(io)@) == job_flow(
                Self::import_request(password_import(current_uefi_password@)),
                old(io)@,
            ),
    {
        let buffer = cat3(
            "<SystemConfiguration><Component FQDD=\"BIOS.Setup.1-1\"><!-- <Attribute Name=\"OldSysPassword\"></Attribute>--><!-- <Attribute Name=\"NewSysPassword\"></Attribute>--><Attribute Name=\"OldSetupPassword\">",
            current_uefi_password,
            "</Attribute><Attribute Name=\"NewSetupPassword\"></Attribute></Component></SystemConfiguration>",
        );
        self.import_system_configuration(buffer.as_str(), io)
    }

    /// Clears the UEFI password: in the usual way, or, where that fails, by an
    /// import.
    pub open spec fn clear_uefi_password_flow(&self, current: Seq<char>, t: Tape) -> Flow<
        Option<Seq<char>>,
    > {
        match self.change_uefi_password_flow(current, ""@, t) {
            Flow::Fail(_, t) => job_flow(
                Self::import_request(password_import(current)),
                t,
            ).map(|job: Seq<char>| Some(job)),
            other => other,
        }
    }

    /// Clears the UEFI password.
    pub fn clear_uefi_password<'a>(&self, current_uefi_password: &str, io: &mut Exchange<'a>) -> (r:
        Result<Option<String>, Stop>)
        ensures
            flow(r, final(io)@) == self.clear_uefi_password_flow(
                current_uefi_password@,
                old(io)@,
            ),
    {
        match self.change_uefi_password(current_uefi_password, "", io) {
            // Fallback to ImportSystemConfiguration hack for older iDRAC
            // See: https://github.com/dell/iDRAC-Redfish-Scripting/issues/308
            Err(Stop::Fail(_)) => {
                let job: String = self.clear_uefi_password_via_import(current_uefi_password, io)?;
                Ok(Some(job))
            },
            other => other,
        }
    }

    /// How far a job has come.
    pub open spec fn job_state_flow(&self, id: Seq<char>, t: Tape) -> Flow<JobState> {
        let url = "Managers/iDRAC.Embedded.1/Oem/Dell/Jobs/"@ + id;
        fetched::<Object>(get(url), t).and_then(
            |body: ObjectView, t: Tape| settled(job_state_of(body, url), t),
        )
    }

    /// How far a job has come.
    pub fn get_job_state<'a>(&self, job_id: &str, io: &mut Exchange<'a>) -> (r: Result<
        JobState,
        Stop,
    >)
        ensures
            flow(r, final(io)@) == self.job_state_flow(job_id@, old(io)@),
    {
        let url = cat2("Managers/iDRAC.Embedded.1/Oem/Dell/Jobs/", job_id);
        let body: &'a Object = io.fetch::<Object>(Request::get(url.clone()))?;
        settle(read_job_state(body, url.as_str()))
    }

    /// The name of the boot option for the network card with the MAC address `mac`.
    /// It is assumed that HTTP device 1 is enabled and points to that card.
    pub open spec fn expected_boot_option_flow(&self, mac: Seq<char>, t: Tape) -> Flow<Seq<char>> {
        self.dell_nic_info_flow(mac, t).and_then(
            |nic: ObjectView, t: Tape|
                match as_text(lookup(nic, "DeviceDescription"@)) {
                    Some(description) => Flow::Ready("HTTP Device 1: "@ + description, t),
                    None => Flow::Fail(
                        Fault::GenericError {
                            error: "the NIC Device Description for "@ + mac
                                + " is missing or not a valid string"@,
                        },
                        t,
                    ),
                },
        )
    }

    /// get_expected_dpu_boot_option_name assumes that the HTTP Device One boot option has been enabled
    /// and points to the NIC for the boot interface MAC address. In the future, we can relax the string matching if
    /// we configure other HTTP devices and just match on the NIC's device description.
    pub fn get_expected_dpu_boot_option_name<'a>(
        &self,
        boot_interface_mac: &str,
        io: &mut Exchange<'a>,
    ) -> (r: Result<String, Stop>)
        ensures
            flow(r, final(io)@) == self.expected_boot_option_flow(boot_interface_mac@, old(io)@),
    {
        let nic: &'a Object = self.get_dell_nic_info(boot_interface_mac, io)?;
        if let Some(v) = nic.get("DeviceDescription") {
            if let Some(description) = v.as_str() {
                return Ok(cat2("HTTP Device 1: ", description));
            }
        }
        let error = cat3(
            "the NIC Device Description for ",
            boot_interface_mac,
            " is missing or not a valid string",
        );
        Err(Stop::Fail(generic(error.as_str())))
    }

    /// The boot options, in the order of their collection.
    pub open spec fn boot_order_flow(&self, t: Tape) -> Flow<Seq<BootOption>> {
        fetched::<References>(get(self.s.system_path("/BootOptions"@)), t).and_then(
            |options: References, t: Tape|
                self.s.boot_options_at(options.members@, Seq::empty(), t),
        )
    }

    /// The boot options, in the order of their collection.
    pub fn get_boot_order<'a>(&self, io: &mut Exchange<'a>) -> (r: Result<
        Vec<&'a BootOption>,
        Stop,
    >)
        ensures
            flow(r, final(io)@) == self.boot_order_flow(old(io)@),
    {
        let options: &'a References = io.fetch::<References>(self.s.get_boot_options())?;
        self.s.follow_boot_options(options, io)
    }

    /// The name that the first boot option should have, and the one that it has.
    pub open spec fn first_boot_option_flow(&self, mac: Seq<char>, t: Tape) -> Flow<
        (Option<Seq<char>>, Option<Seq<char>>),
    > {
        self.expected_boot_option_flow(mac, t).and_then(
            |expected: Seq<char>, t: Tape|
                self.boot_order_flow(t).map(
                    |order: Seq<BootOption>|
                        (
                            Some(expected),
                            if order.len() == 0 {
                                None
                            } else {
                                Some(order[0].display_name@)
                            },
                        ),
                ),
        )
    }

    /// The name that the first boot option should have, and the one that it has.
    pub fn get_expected_and_actual_first_boot_option<'a>(
        &self,
        boot_interface_mac: &str,
        io: &mut Exchange<'a>,
    ) -> (r: Result<(Option<String>, Option<String>), Stop>)
        ensures
            flow(r, final(io)@) == self.first_boot_option_flow(boot_interface_mac@, old(io)@),
    {
        let expected: String = self.get_expected_dpu_boot_option_name(boot_interface_mac, io)?;
        let order: Vec<&'a BootOption> = self.get_boot_order(io)?;
        let ghost options = order.deep_view();
        let actual: Option<String> = if order.len() == 0 {
            None
        } else {
            assert(options[0] == *order@[0]);
            Some(order[0].display_name.clone())
        };
        Ok((Some(expected), actual))
    }

    /// Whether the first boot option has the name that it should have.
    pub open spec fn boots_first(names: (Option<Seq<char>>, Option<Seq<char>>)) -> bool {
        names.0 is Some && names.0 == names.1
    }

    /// Whether the boot order is set up.
    pub fn is_boot_order_setup<'a>(&self, boot_interface_mac: &str, io: &mut Exchange<'a>) -> (r:
        Result<bool, Stop>)
        ensures
            flow(r, final(io)@) == self.first_boot_option_flow(
                boot_interface_mac@,
                old(io)@,
            ).map(
                |names: (Option<Seq<char>>, Option<Seq<char>>)| Self::boots_first(names),
            ),
    {
        let (expected, actual): (
            Option<String>,
            Option<String>,
        ) = self.get_expected_and_actual_first_boot_option(boot_interface_mac, io)?;
        Ok(same_name(&expected, &actual))
    }

    /// Whether the BIOS and BMC attributes are set up.
    pub fn is_bios_setup<'a>(&self, boot_interface_mac: Option<&str>, io: &mut Exchange<'a>) -> (r:
        Result<bool, Stop>)
        ensures
            flow(r, final(io)@) == self.diff_bios_bmc_attr_flow(
                boot_interface_mac.deep_view(),
                old(io)@,
            ).map(|diffs: Seq<DiffView>| diffs.len() == 0),
    {
        let diffs: Vec<MachineSetupDiff> = self.diff_bios_bmc_attr(boot_interface_mac, io)?;
        Ok(diffs.len() == 0)
    }

    /// The deviation of the first boot option, if it has one.
    pub open spec fn boot_first_diff(names: (Option<Seq<char>>, Option<Seq<char>>)) -> Seq<
        DiffView,
    > {
        if Self::boots_first(names) {
            Seq::empty()
        } else {
            seq![
                DiffView {
                    key: "boot_first"@,
                    expected: match names.0 {
                        Some(name) => name,
                        None => "Not found"@,
                    },
                    actual: match names.1 {
                        Some(name) => name,
                        None => "Not found"@,
                    },
                },
            ]
        }
    }

    /// Whether the machine is set up, and what is not as it should be.
    pub open spec fn machine_setup_status_flow(&self, mac: Option<Seq<char>>, t: Tape) -> Flow<
        SetupView,
    > {
        self.diff_bios_bmc_attr_flow(mac, t).and_then(
            |diffs: Seq<DiffView>, t: Tape|
                self.lockdown_status_flow(t).and_then(
                    |lockdown: StatusView, t: Tape|
                        {
                            let diffs = diffs + status_diff("lockdown"@, lockdown);
                            match mac {
                                Some(mac) => self.first_boot_option_flow(mac, t).map(
                                    |names: (Option<Seq<char>>, Option<Seq<char>>)|
                                        setup_status(diffs + Self::boot_first_diff(names)),
                                ),
                                None => Flow::Ready(setup_status(diffs), t),
                            }
                        },
                ),
        )
    }

    /// Whether the machine is set up, and what is not as it should be.
    pub fn machine_setup_status<'a>(
        &self,
        boot_interface_mac: Option<&str>,
        io: &mut Exchange<'a>,
    ) -> (r: Result<MachineSetupStatus, Stop>)
        ensures
            flow(r, final(io)@) == self.machine_setup_status_flow(
                boot_interface_mac.deep_view(),
                old(io)@,
            ),
    {
        // Check BIOS and BMC attributes
        let mut diffs: Vec<MachineSetupDiff> = self.diff_bios_bmc_attr(boot_interface_mac, io)?;
        // Check lockdown
        let lockdown: Status = self.lockdown_status(io)?;
        add_status_diff(&mut diffs, "lockdown", &lockdown);
        // Check the first boot option
        if let Some(mac) = boot_interface_mac {
            let ghost before = diffs.deep_view();
            let (expected, actual): (
                Option<String>,
                Option<String>,
            ) = self.get_expected_and_actual_first_boot_option(mac, io)?;
            let ghost names = (expected.deep_view(), actual.deep_view());
            if !same_name(&expected, &actual) {
                let wanted = match &expected {
                    Some(name) => name.as_str(),
                    None => "Not found",
                };
                let found = match &actual {
                    Some(name) => name.as_str(),
                    None => "Not found",
                };
                diffs.push(MachineSetupDiff::new("boot_first", wanted, found));
            }
            assert(diffs.deep_view() =~= before + Self::boot_first_diff(names));
        }
        Ok(MachineSetupStatus { is_done: diffs.len() == 0, diffs })
    }

    /// The request that puts a boot option first.
    pub open spec fn put_first_request(&self, option: BootOption) -> RequestView {
        patch(
            self.s.system_path("/Settings"@),
            seq![
                (
                    "Boot"@,
                    JsonView::Object(seq![("BootOrder"@, texts_model(seq![option.id@]))]),
                ),
            ],
        )
    }

    /// Configures the boot order on the Dell to set the HTTP boot option that
    /// corresponds to the primary DPU as the first boot option in the list, and
    /// returns the id of the job that does. There is no job where it is the first
    /// already.
    pub open spec fn set_boot_order_dpu_first_flow(&self, mac: Seq<char>, t: Tape) -> Flow<
        Option<Seq<char>>,
    > {
        self.expected_boot_option_flow(mac, t).and_then(
            |name: Seq<char>, t: Tape|
                self.boot_order_flow(t).and_then(
                    |order: Seq<BootOption>, t: Tape|
                        match first_where(order, is_called(name)) {
                            None => Flow::Fail(Fault::MissingBootOption(name), t),
                            Some(i) => if i == 0 {
                                Flow::Ready(None, t)
                            } else {
                                job_flow(self.put_first_request(order[i]), t).map(
                                    |job: Seq<char>| Some(job),
                                )
                            },
                        },
                ),
        )
    }

    /// Configures the boot order on the Dell to set the HTTP boot option that
    /// corresponds to the primary DPU as the first boot option in the list.
    pub fn set_boot_order_dpu_first<'a>(&self, boot_interface_mac: &str, io: &mut Exchange<'a>) -> (r:
        Result<Option<String>, Stop>)
        ensures
            flow(r, final(io)@) == self.set_boot_order_dpu_first_flow(
                boot_interface_mac@,
                old(io)@,
            ),
    {
        let name: String = self.get_expected_dpu_boot_option_name(boot_interface_mac, io)?;
        let order: Vec<&'a BootOption> = self.get_boot_order(io)?;
        match find_by_name(&order, name.as_str()) {
            None => Err(Stop::Fail(Fault::MissingBootOption(name))),
            Some(i) => {
                if i == 0 {
                    // Dells will not generate a bios config job below if the boot orders already configured correctly
                    return Ok(None);
                }
                let mut ids: Vec<String> = Vec::new();
                ids.push(order[i].id.clone());
                assert(ids.deep_view() =~= seq![order.deep_view()[i as int].id@]);
                let body = Object::new().with(
                    "Boot",
                    Object::new().with("BootOrder", Json::texts(&ids)).into_json(),
                );
                let job: String = start_job(
                    Request::patch(self.s.system_url("/Settings"), body),
                    io,
                )?;
                Ok(Some(job))
            },
        }
    }

    /// The id of the boot drive controller, where there is one.
    pub open spec fn boss_controller_flow(&self, t: Tape) -> Flow<Option<Seq<char>>> {
        fetched::<References>(get("Systems/System.Embedded.1/Storage"@), t).map(
            |storage: References|
                match first_where(
                    storage.members@,
                    |link: ODataId| has(link.odata_id@, "BOSS"@),
                ) {
                    Some(i) => Some(after_last(storage.members@[i].odata_id@, '/')),
                    None => None,
                },
        )
    }

    /// The id of the boot drive controller, where there is one.
    pub fn get_boss_controller<'a>(&self, io: &mut Exchange<'a>) -> (r: Result<
        Option<String>,
        Stop,
    >)
        ensures
            flow(r, final(io)@) == self.boss_controller_flow(old(io)@),
    {
        let storage: &'a References = io.fetch::<References>(
            Request::get("Systems/System.Embedded.1/Storage".to_owned()),
        )?;
        let ghost p = |link: ODataId| has(link.odata_id@, "BOSS"@);
        let mut i: usize = 0;
        while i < storage.members.len()
            invariant
                i <= storage.members.len(),
                p == (|link: ODataId| has(link.odata_id@, "BOSS"@)),
                forall|k: int| 0 <= k < i ==> !p(#[trigger] storage.members@[k]),
                fetched::<References>(get("Systems/System.Embedded.1/Storage"@), old(io)@)
                    == Flow::Ready(*storage, io@),
            decreases storage.members.len() - i,
        {
            let link = storage.members[i].odata_id.as_str();
            if contains(link, "BOSS") {
                proof {
                    first_where_found(storage.members@, p, i as int);
                }
                return Ok(Some(last_segment(link, '/').to_owned()));
            }
            i = i + 1;
        }
        proof {
            first_where_absent(storage.members@, p);
        }
        Ok(None)
    }

    /// What the lifecycle controller says of itself.
    pub open spec fn lifecycle_controller_status_flow(&self, t: Tape) -> Flow<Seq<char>> {
        fetched::<RemoteServices>(
            post(
                self.s.manager_path(
                    "/Oem/Dell/DellLCService/Actions/DellLCService.GetRemoteServicesAPIStatus"@,
                ),
                Seq::empty(),
            ),
            t,
        ).map(
            |services: RemoteServices|
                match as_text(Some(services.lc_status@)) {
                    Some(status) => status,
                    None => ""@,
                },
        )
    }

    /// What the lifecycle controller says of itself.
    pub fn get_lifecycle_controller_status<'a>(&self, io: &mut Exchange<'a>) -> (r: Result<
        &'a str,
        Stop,
    >)
        ensures
            flow(r, final(io)@) == self.lifecycle_controller_status_flow(old(io)@),
    {
        let services: &'a RemoteServices = io.fetch::<RemoteServices>(
            Request::post(
                self.s.manager_url(
                    "/Oem/Dell/DellLCService/Actions/DellLCService.GetRemoteServicesAPIStatus",
                ),
                Object::new(),
            ),
        )?;
        match services.lc_status.as_str() {
            Some(status) => Ok(status),
            None => Ok(""),
        }
    }

    /// Fails unless the lifecycle controller takes requests.
    pub open spec fn lifecycle_controller_is_ready_flow(&self, t: Tape) -> Flow<()> {
        self.lifecycle_controller_status_flow(t).and_then(
            |status: Seq<char>, t: Tape|
                if status == "Ready"@ {
                    Flow::Ready((), t)
                } else {
                    Flow::Fail(
                        Fault::GenericError {
                            error:
                                "the lifecycle controller is not ready to accept provisioning requests; lc_status: "@
                                + status,
                        },
                        t,
                    )
                },
        )
    }

    /// Fails unless the lifecycle controller takes requests.
    pub fn lifecycle_controller_is_ready<'a>(&self, io: &mut Exchange<'a>) -> (r: Result<(), Stop>)
        ensures
            flow(r, final(io)@) == self.lifecycle_controller_is_ready_flow(old(io)@),
    {
        let status: &'a str = self.get_lifecycle_controller_status(io)?;
        if same(status, "Ready") {
            return Ok(());
        }
        let error = cat2(
            "the lifecycle controller is not ready to accept provisioning requests; lc_status: ",
            status,
        );
        Err(Stop::Fail(generic(error.as_str())))
    }

    /// Wipes the drives of a storage controller, and returns the id of the job that
    /// does. The lifecycle controller must be ready before.
    pub open spec fn decommission_controller_flow(&self, id: Seq<char>, t: Tape) -> Flow<Seq<char>> {
        self.lifecycle_controller_is_ready_flow(t).and_then(
            |done: (), t: Tape|
                job_flow(
                    post(
                        "Systems/System.Embedded.1/Storage/"@ + id
                            + "/Actions/Oem/DellStorage.ControllerDrivesDecommission"@,
                        seq![("@Redfish.OperationApplyTime"@, JsonView::Text("Immediate"@))],
                    ),
                    t,
                ),
        )
    }

    /// Wipes the drives of a storage controller, and returns the id of the job.
    pub fn decommission_controller<'a>(&self, controller_id: &str, io: &mut Exchange<'a>) -> (r:
        Result<String, Stop>)
        ensures
            flow(r, final(io)@) == self.decommission_controller_flow(controller_id@, old(io)@),
    {
        // wait for the lifecycle controller status to become Ready before decomissioning the boss controller
        // https://github.com/dell/idrac-Redfish-Scripting/issues/323
        self.lifecycle_controller_is_ready(io)?;
        start_job(
            Request::post(
                cat3(
                    "Systems/System.Embedded.1/Storage/",
                    controller_id,
                    "/Actions/Oem/DellStorage.ControllerDrivesDecommission",
                ),
                Object::new().with_text("@Redfish.OperationApplyTime", "Immediate"),
            ),
            io,
        )
    }

    /// Wipes the drives of a storage controller.
    pub fn decommission_storage_controller<'a>(
        &self,
        controller_id: &str,
        io: &mut Exchange<'a>,
    ) -> (r: Result<Option<String>, Stop>)
        ensures
            flow(r, final(io)@) == self.decommission_controller_flow(
                controller_id@,
                old(io)@,
            ).map(|job: Seq<char>| Some(job)),
    {
        let job: String = self.decommission_controller(controller_id, io)?;
        Ok(Some(job))
    }

    /// The drives of a storage controller.
    pub open spec fn storage_drives_flow(&self, id: Seq<char>, t: Tape) -> Flow<JsonView> {
        let url = "Systems/System.Embedded.1/Storage/"@ + id;
        fetched::<Object>(get(url), t).and_then(
            |body: ObjectView, t: Tape| settled(value_of(body, "Drives"@, url), t),
        )
    }

    /// The drives of a storage controller.
    pub fn get_storage_drives<'a>(&self, controller_id: &str, io: &mut Exchange<'a>) -> (r: Result<
        &'a Json,
        Stop,
    >)
        ensures
            flow(r, final(io)@) == self.storage_drives_flow(controller_id@, old(io)@),
    {
        let url = cat2("Systems/System.Embedded.1/Storage/", controller_id);
        let body: &'a Object = io.fetch::<Object>(Request::get(url.clone()))?;
        settle(get_value(body, "Drives", url.as_str()))
    }

    /// Creates a volume of a given type on given drives, and returns the id of the
    /// job that does.
    pub open spec fn create_volume_flow(
        &self,
        id: Seq<char>,
        name: Seq<char>,
        raid: Seq<char>,
        drives: JsonView,
        t: Tape,
    ) -> Flow<Seq<char>> {
        if !valid_volume_name(name) {
            Flow::Fail(
                Fault::GenericError {
                    error: "invalid volume name ("@ + name
                        + "); must be between 1 and 15 characters long"@,
                },
                t,
            )
        } else {
            self.lifecycle_controller_is_ready_flow(t).and_then(
                |done: (), t: Tape|
                    job_flow(
                        post(
                            "Systems/System.Embedded.1/Storage/"@ + id + "/Volumes"@,
                            volume_body(name, raid, drives),
                        ),
                        t,
                    ),
            )
        }
    }

    /// Creates a volume of a given type on given drives.
    pub fn create_volume<'a>(
        &self,
        controller_id: &str,
        volume_name: &str,
        raid_type: &str,
        drive_info: &Json,
        io: &mut Exchange<'a>,
    ) -> (r: Result<String, Stop>)
        ensures
            flow(r, final(io)@) == self.create_volume_flow(
                controller_id@,
                volume_name@,
                raid_type@,
                drive_info@,
                old(io)@,
            ),
    {
        let bytes = volume_name.as_bytes();
        if bytes.len() > 15 || bytes.len() == 0 {
            let error = cat3(
                "invalid volume name (",
                volume_name,
                "); must be between 1 and 15 characters long",
            );
            return Err(Stop::Fail(generic(error.as_str())));
        }
        // wait for the lifecycle controller status to become Ready
        self.lifecycle_controller_is_ready(io)?;
        let body = Object::new().with_text("Name", volume_name).with_text(
            "RAIDType",
            raid_type,
        ).with("Links", Object::new().with("Drives", drive_info.copy()).into_json());
        assert(body@ =~= volume_body(volume_name@, raid_type@, drive_info@));
        start_job(
            Request::post(
                cat3("Systems/System.Embedded.1/Storage/", controller_id, "/Volumes"),
                body,
            ),
            io,
        )
    }

    /// Creates a volume on all drives of a controller, of which there are one or
    /// two, and returns the id of the job that does.
    pub open spec fn create_storage_volume_flow(&self, id: Seq<char>, name: Seq<char>, t: Tape) -> Flow<
        Option<Seq<char>>,
    > {
        self.storage_drives_flow(id, t).and_then(
            |drives: JsonView, t: Tape|
                match raid_type(array_len(drives)) {
                    Some(raid) => self.create_volume_flow(id, name, raid, drives, t).map(
                        |job: Seq<char>| Some(job),
                    ),
                    None => Flow::Fail(
                        Fault::GenericError {
                            error: "Expected 1 or 2 drives for BOSS controller "@ + id + ", found "@
                                + decimal(array_len(drives)),
                        },
                        t,
                    ),
                },
        )
    }

    /// Creates a volume on all drives of a controller.
    pub fn create_storage_volume<'a>(
        &self,
        controller_id: &str,
        volume_name: &str,
        io: &mut Exchange<'a>,
    ) -> (r: Result<Option<String>, Stop>)
        ensures
            flow(r, final(io)@) == self.create_storage_volume_flow(
                controller_id@,
                volume_name@,
                old(io)@,
            ),
    {
        let drives: &'a Json = self.get_storage_drives(controller_id, io)?;
        let n: usize = drives.elements();
        let raid = if n == 1 {
            "RAID0"
        } else if n == 2 {
            "RAID1"
        } else {
            let count = numeral(n as u64);
            let error = cat4(
                "Expected 1 or 2 drives for BOSS controller ",
                controller_id,
                ", found ",
                count.as_str(),
            );
            return Err(Stop::Fail(generic(error.as_str())));
        };
        let job: String = self.create_volume(controller_id, volume_name, raid, drives, io)?;
        Ok(Some(job))
    }
}

/// Whether two names are there and the same.
fn same_name(a: &Option<String>, b: &Option<String>) -> (r: bool)
    ensures
        r == Bmc::boots_first((a.deep_view(), b.deep_view())),
{
    match (a, b) {
        (Some(x), Some(y)) => same(x.as_str(), y.as_str()),
        _ => false,
    }
}

/// Whether a boot option is called `name`.
pub open spec fn is_called(name: Seq<char>) -> spec_fn(BootOption) -> bool {
    |o: BootOption| o.display_name@ == name
}

/// The place of the first boot option with the name `name`.
fn find_by_name(order: &Vec<&BootOption>, name: &str) -> (r: Option<usize>)
    ensures
        match first_where(order.deep_view(), is_called(name@)) {
            Some(i) => (r matches Some(p) && p == i) && 0 <= i < order.len(),
            None => r is None,
        },
{
    let ghost all = order.deep_view();
    let ghost p = is_called(name@);
    let mut i: usize = 0;
    while i < order.len()
        invariant
            i <= order.len(),
            all == order.deep_view(),
            p == is_called(name@),
            forall|k: int| 0 <= k < i ==> !p(#[trigger] all[k]),
        decreases order.len() - i,
    {
        assert(all[i as int] == *order@[i as int]);
        if same(order[i].display_name.as_str(), name) {
            proof {
                first_where_found(all, p, i as int);
            }
            return Some(i);
        }
        i = i + 1;
    }
    proof {
        first_where_absent(all, p);
    }
    None
}

} // verus!
