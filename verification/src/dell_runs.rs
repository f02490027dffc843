//! What the operations on Dell machines do, request by request: for every answer that
//! can come in, what is asked for next and what comes out.
use crate::dell::{
    dell_models, dell_nic_of, for_dell, function_among, has_mac, job_flow,
    parse_job_id_from_response_headers, Bmc, VendorProfiles,
};
use crate::dell_actions::{
    bios_unlock_settings, boot_device_of, free_account, is_called, oem_settings,
    remote_access_settings, serial_console_settings, tpm_settings, update_parameters,
};
use crate::dell_bios::{newer_idrac, redir_after_boot_of, setup_attrs};
use crate::dell_laws::{
    before_lock_settings, lock_settings, lockdown_is_read_back, unlock_settings,
};
use crate::dell_settings::{
    bios_object, named, server_boot, settings_at, BiosAttrs, BootDevices, RedfishSettingsApplyTime,
    Tpm2HierarchySettings,
};
use crate::error::{ErrorView, Fault, RedfishError};
use crate::exchange::{
    Exchange, Flow, Kind, Method, PayloadView, Reply, Request, RequestView, Response, Stop, Tape,
    Timeout,
};
use crate::json::{
    escapes, extended, lookup, member, quoted, rendered, rendered_entries, rendered_items, JsonView,
    Object, ObjectView,
};
use crate::model::{
    BiosProfileType, Boot, BootOption, Chassis, ComputerSystem, EnabledDisabled, JobState, Location,
    Members, NetworkAdapter, NetworkDeviceFunction, ODataId, OnOff, PowerState, RedfishVendor,
    References, RemoteServices, RoleId, Status, StatusInternal, SystemPowerControl, Upload, Written,
};
use crate::run::{
    after, asks, body_of, calling, changing, fails, leads_to, posting, reading, word, words,
    words_are_texts,
};
use crate::outside::lowercased;
use crate::search::{first_where_absent, first_where_found, first_where_is_first};
use crate::standard_runs::{all_options_are_read, lead_to, option_replies};
use crate::text::{decimal, has};
use crate::text_laws::{
    after_last_is_the_last_part, free_of, prefix_is_taken_away, stands_in,
    text_begins_with_its_head, text_has_what_stands_in_it,
};
use vstd::prelude::*;
use vstd::string::*;
use vstd::utf8::encode_utf8;

verus! {

/// Where the attributes of the BMC are.
pub open spec fn bmc_attributes(bmc: Bmc) -> Seq<char> {
    "Managers/"@ + bmc.s.manager() + "/Oem/Dell/DellAttributes/"@ + bmc.s.manager()
}

/// Where changes of the BIOS attributes are put.
pub open spec fn bios_changes(bmc: Bmc) -> Seq<char> {
    "Systems/"@ + bmc.s.system() + "/Bios/Settings/"@
}

/// The attribute `key` of a document that lists attributes.
pub open spec fn attribute(document: Object, key: Seq<char>) -> Option<JsonView> {
    match lookup(document@, "Attributes"@) {
        Some(JsonView::Object(attributes)) => lookup(attributes, key),
        _ => None,
    }
}

/// Whether a document says that system lockdown is on.
pub open spec fn locked(document: Object) -> bool {
    attribute(document, "Lockdown.1.SystemLockdown"@) == Some(word("Enabled"@))
}

/// Whether a document says that system lockdown is not on.
pub open spec fn unlocked(document: Object) -> bool {
    attribute(document, "Lockdown.1.SystemLockdown"@) matches Some(JsonView::Text(state)) && state
        != "Enabled"@
}

/// Whether an answer names the job `id`: it is the last part of its location.
pub open spec fn starts_job(w: Written, id: Seq<char>) -> bool {
    free_of(id, '/') && (w.headers matches Some(Location::Text(location)) && exists|head: Seq<char>|
        #![trigger head + seq!['/'] + id]
        location@ == head + seq!['/'] + id)
}

proof fn job_is_named(w: Written, id: Seq<char>)
    requires
        starts_job(w, id),
    ensures
        w.headers matches Some(Location::Text(location)) && crate::text::after_last(location@, '/')
            == id,
{
    let location = w.headers->0->Text_0;
    let head = choose|head: Seq<char>|
        #![trigger head + seq!['/'] + id]
        location@ == head + seq!['/'] + id;
    after_last_is_the_last_part(head, '/', id);
}

/// Attributes that are applied at the next reset.
pub open spec fn at_reset(attributes: ObjectView) -> ObjectView {
    seq![
        (
            "@Redfish.SettingsApplyTime"@,
            JsonView::Object(seq![("ApplyTime"@, word("OnReset"@))]),
        ),
        ("Attributes"@, JsonView::Object(attributes)),
    ]
}

/// Attributes that are applied at once.
pub open spec fn at_once(attributes: ObjectView) -> ObjectView {
    seq![
        (
            "@Redfish.SettingsApplyTime"@,
            JsonView::Object(seq![("ApplyTime"@, word("Immediate"@))]),
        ),
        ("Attributes"@, JsonView::Object(attributes)),
    ]
}

/// The request that changes the setup password of the BIOS from `old_password` to
/// `new_password`.
pub open spec fn setup_password(bmc: Bmc, old_password: Seq<char>, new_password: Seq<char>) -> RequestView {
    posting(
        "Systems/"@ + bmc.s.system() + (if bmc.s.known_vendor() == Some(RedfishVendor::Hpe) {
            "/Bios/Settings/Actions/Bios.ChangePasswords"@
        } else {
            "/Bios/Actions/Bios.ChangePassword"@
        }),
        seq![
            ("PasswordName"@, word("SetupPassword"@)),
            ("OldPassword"@, word(old_password)),
            ("NewPassword"@, word(new_password)),
        ],
    )
}

/// The request for the job that applies changes of the BIOS.
pub open spec fn apply_bios_changes() -> RequestView {
    posting(
        "Managers/iDRAC.Embedded.1/Oem/Dell/Jobs"@,
        seq![
            (
                "TargetSettingsURI"@,
                word("/redfish/v1/Systems/System.Embedded.1/Bios/Settings"@),
            ),
        ],
    )
}

/// Changing the UEFI password: a locked machine is left alone; otherwise the new
/// password is written next to the current one, and a job is started that applies it,
/// whose id is the result. What fails on the way is the failure.
pub proof fn change_uefi_password_run<'a>(
    bmc: &Bmc,
    current: &str,
    new: &str,
    document: Object,
    w: Written,
    started: Written,
    job: Seq<char>,
    e: RedfishError,
    io: &mut Exchange<'a>,
    r: Result<Option<String>, Stop>,
)
    requires
        call_ensures(Bmc::change_uefi_password, (bmc, current, new, io), r),
    ensures
        old(io)@ == after(seq![]) ==> asks(r, reading(bmc_attributes(*bmc)), Kind::Object),
        old(io)@ == after(seq![Ok(Response::Object(document))]) && locked(document) ==> fails(
            r,
            Fault::Lockdown,
        ),
        old(io)@ == after(seq![Ok(Response::Object(document))]) && unlocked(document) ==> asks(
            r,
            setup_password(*bmc, current@, new@),
            Kind::Written,
        ),
        old(io)@ == after(seq![Ok(Response::Object(document)), Ok(Response::Written(w))])
            && unlocked(document) ==> asks(r, apply_bios_changes(), Kind::Written),
        old(io)@ == after(
            seq![
                Ok(Response::Object(document)),
                Ok(Response::Written(w)),
                Ok(Response::Written(started)),
            ],
        ) && unlocked(document) && starts_job(started, job) ==> (r matches Ok(Some(id)) && id@
            == job),
        old(io)@ == after(seq![Err(e)]) ==> fails(r, e@),
        old(io)@ == after(seq![Ok(Response::Object(document)), Err(e)]) && unlocked(document)
            ==> fails(r, e@),
{
    if starts_job(started, job) {
        job_is_named(started, job);
    }
}

/// The request that clears the setup password by an import of settings.
pub open spec fn password_cleared_by_import(current: Seq<char>) -> RequestView {
    posting(
        "Managers/iDRAC.Embedded.1/Actions/Oem/EID_674_Manager.ImportSystemConfiguration"@,
        seq![
            ("ShutdownType"@, word("Forced"@)),
            ("ShareParameters"@, JsonView::Object(seq![("Target"@, word("BIOS"@))])),
            (
                "ImportBuffer"@,
                word(
                    "<SystemConfiguration><Component FQDD=\"BIOS.Setup.1-1\"><!-- <Attribute Name=\"OldSysPassword\"></Attribute>--><!-- <Attribute Name=\"NewSysPassword\"></Attribute>--><Attribute Name=\"OldSetupPassword\">"@
                        + current
                        + "</Attribute><Attribute Name=\"NewSetupPassword\"></Attribute></Component></SystemConfiguration>"@,
                ),
            ),
        ],
    )
}

/// Clearing the UEFI password: the empty password is written next to the current one,
/// and the job that applies it is the result. Where that cannot be done, the password
/// is cleared by an import, whose job is the result.
pub proof fn clear_uefi_password_run<'a>(
    bmc: &Bmc,
    current: &str,
    document: Object,
    w: Written,
    started: Written,
    job: Seq<char>,
    e: RedfishError,
    f: RedfishError,
    io: &mut Exchange<'a>,
    r: Result<Option<String>, Stop>,
)
    requires
        call_ensures(Bmc::clear_uefi_password, (bmc, current, io), r),
    ensures
        old(io)@ == after(seq![]) ==> asks(r, reading(bmc_attributes(*bmc)), Kind::Object),
        old(io)@ == after(seq![Ok(Response::Object(document))]) && unlocked(document) ==> asks(
            r,
            setup_password(*bmc, current@, ""@),
            Kind::Written,
        ),
        old(io)@ == after(seq![Ok(Response::Object(document)), Ok(Response::Written(w))])
            && unlocked(document) ==> asks(r, apply_bios_changes(), Kind::Written),
        old(io)@ == after(
            seq![
                Ok(Response::Object(document)),
                Ok(Response::Written(w)),
                Ok(Response::Written(started)),
            ],
        ) && unlocked(document) && starts_job(started, job) ==> (r matches Ok(Some(id)) && id@
            == job),
        old(io)@ == after(seq![Ok(Response::Object(document))]) && locked(document) ==> asks(
            r,
            password_cleared_by_import(current@),
            Kind::Written,
        ),
        old(io)@ == after(seq![Err(e)]) ==> asks(
            r,
            password_cleared_by_import(current@),
            Kind::Written,
        ),
        old(io)@ == after(seq![Ok(Response::Object(document)), Err(e)]) && unlocked(document)
            ==> asks(r, password_cleared_by_import(current@), Kind::Written),
        old(io)@ == after(
            seq![Ok(Response::Object(document)), Ok(Response::Written(w)), Err(e)],
        ) && unlocked(document) ==> asks(
            r,
            password_cleared_by_import(current@),
            Kind::Written,
        ),
        old(io)@ == after(seq![Err(e), Ok(Response::Written(started))]) && starts_job(started, job)
            ==> (r matches Ok(Some(id)) && id@ == job),
        old(io)@ == after(seq![Err(e), Err(f)]) ==> fails(r, f@),
{
    if starts_job(started, job) {
        job_is_named(started, job);
    }
}

/// The request that uploads a firmware image. It takes effect at once if and only if
/// the machine may be rebooted, and at the next reset otherwise.
pub open spec fn image_upload(reboot: bool, timeout: Timeout) -> RequestView {
    RequestView {
        method: Method::Post,
        url: "UpdateService/MultipartUpload"@,
        payload: PayloadView::Multipart {
            parameters: if reboot {
                "{\"Targets\":[],\"@Redfish.OperationApplyTime\":\"Immediate\",\"Oem\":{}}"@
            } else {
                "{\"Targets\":[],\"@Redfish.OperationApplyTime\":\"OnReset\",\"Oem\":{}}"@
            },
            drop_redfish_url: false,
        },
        headers: Seq::empty(),
        timeout: Some(timeout),
    }
}

proof fn plain_texts_need_no_escapes(s: Seq<char>)
    requires
        forall|i: int|
            0 <= i < s.len() ==> 0x20 <= (#[trigger] s[i] as int) < 0x7f && s[i] != '"' && s[i]
                != '\\',
    ensures
        escapes(s) == s,
    decreases s.len(),
{
    if s.len() > 0 {
        let init = s.drop_last();
        assert forall|i: int| 0 <= i < init.len() implies 0x20 <= (#[trigger] init[i] as int) < 0x7f
            && init[i] != '"' && init[i] != '\\' by {
            assert(init[i] == s[i]);
        }
        plain_texts_need_no_escapes(init);
        assert(s[s.len() - 1] == s.last());
        assert(init + seq![s.last()] =~= s);
    } else {
        assert(escapes(s) =~= s);
    }
}

proof fn upload_parameters(reboot: bool)
    ensures
        rendered(JsonView::Object(update_parameters(reboot))) == (if reboot {
            "{\"Targets\":[],\"@Redfish.OperationApplyTime\":\"Immediate\",\"Oem\":{}}"@
        } else {
            "{\"Targets\":[],\"@Redfish.OperationApplyTime\":\"OnReset\",\"Oem\":{}}"@
        }),
{
    reveal_with_fuel(rendered, 4);
    reveal_with_fuel(rendered_entries, 5);
    reveal_strlit("Targets");
    reveal_strlit("@Redfish.OperationApplyTime");
    reveal_strlit("Oem");
    reveal_strlit("Immediate");
    reveal_strlit("OnReset");
    reveal_strlit("{");
    reveal_strlit("}");
    reveal_strlit("[");
    reveal_strlit("]");
    reveal_strlit(",");
    reveal_strlit(":");
    reveal_strlit("{\"Targets\":[],\"@Redfish.OperationApplyTime\":\"Immediate\",\"Oem\":{}}");
    reveal_strlit("{\"Targets\":[],\"@Redfish.OperationApplyTime\":\"OnReset\",\"Oem\":{}}");
    let time = if reboot {
        "Immediate"@
    } else {
        "OnReset"@
    };
    plain_texts_need_no_escapes("Targets"@);
    plain_texts_need_no_escapes("@Redfish.OperationApplyTime"@);
    plain_texts_need_no_escapes("Oem"@);
    plain_texts_need_no_escapes(time);
    let o = update_parameters(reboot);
    assert(o.drop_last().drop_last() =~= seq![("Targets"@, JsonView::Array(Seq::empty()))]);
    let first = quoted("Targets"@) + ":"@ + rendered(JsonView::Array(Seq::empty()));
    let second = quoted("@Redfish.OperationApplyTime"@) + ":"@ + rendered(JsonView::Text(time));
    let third = quoted("Oem"@) + ":"@ + rendered(JsonView::Object(Seq::empty()));
    assert(rendered_items(Seq::<JsonView>::empty()) =~= Seq::<char>::empty());
    assert(rendered_entries(Seq::<(Seq<char>, JsonView)>::empty()) =~= Seq::<char>::empty());
    assert(rendered_entries(o.drop_last().drop_last()) == first);
    assert(rendered_entries(o.drop_last()) == first + ","@ + second);
    assert(rendered_entries(o) == first + ","@ + second + ","@ + third);
    assert(rendered(JsonView::Object(o)) == "{"@ + (first + ","@ + second + ","@ + third) + "}"@);
    if reboot {
        assert("{"@ + (first + ","@ + second + ","@ + third) + "}"@
            =~= "{\"Targets\":[],\"@Redfish.OperationApplyTime\":\"Immediate\",\"Oem\":{}}"@);
    } else {
        assert("{"@ + (first + ","@ + second + ","@ + third) + "}"@
            =~= "{\"Targets\":[],\"@Redfish.OperationApplyTime\":\"OnReset\",\"Oem\":{}}"@);
    }
}

/// Updating firmware: the image is uploaded within the time limit, with parameters that
/// apply it at once if and only if a reboot is wanted, and the task that the answer
/// points to is the result.
pub proof fn update_firmware_run<'a>(
    bmc: &Bmc,
    reboot: bool,
    timeout: Timeout,
    upload: Upload,
    task: Seq<char>,
    e: RedfishError,
    io: &mut Exchange<'a>,
    r: Result<String, Stop>,
)
    requires
        call_ensures(Bmc::update_firmware_multipart, (bmc, reboot, timeout, io), r),
    ensures
        old(io)@ == after(seq![]) ==> asks(r, image_upload(reboot, timeout), Kind::Upload),
        old(io)@ == after(seq![Ok(Response::Upload(upload))]) && (upload.location matches Some(
            location,
        ) && location@ == "/redfish/v1/TaskService/Tasks/"@ + task) && !(has(
            task,
            "/redfish/v1/TaskService/Tasks/"@,
        )) ==> (r matches Ok(id) && id@ == task),
        old(io)@ == after(seq![Err(e)]) ==> fails(r, e@),
{
    upload_parameters(reboot);
    reveal_strlit("/redfish/v1/TaskService/Tasks/");
    if !(has(task, "/redfish/v1/TaskService/Tasks/"@)) {
        prefix_is_taken_away("/redfish/v1/TaskService/Tasks/"@, task);
    }
}

/// What a machine boots from: the XE9680 cannot boot over PXE.
pub open spec fn boots_from(system: ComputerSystem) -> Seq<char> {
    if system.model matches Some(model) && model@ == "PowerEdge XE9680"@ {
        "UefiHttp"@
    } else {
        "PXE"@
    }
}

/// The request that prepares a BMC for lockdown: its shell is turned off and the boot
/// device is fixed.
pub open spec fn prepare_lock(bmc: Bmc, device: Seq<char>) -> RequestView {
    changing(
        bmc_attributes(bmc),
        at_reset(
            seq![
                ("Racadm.1.Enable"@, word("Disabled"@)),
                ("ServerBoot.1.FirstBootDevice"@, word(device)),
                ("ServerBoot.1.BootOnce"@, word("Disabled"@)),
            ],
        ),
    )
}

/// The request that locks a BMC.
pub open spec fn lock(bmc: Bmc) -> RequestView {
    changing(
        bmc_attributes(bmc),
        at_reset(seq![("Lockdown.1.SystemLockdown"@, word("Enabled"@))]),
    )
}

/// The request that unlocks a BMC, turns its shell on again and fixes the boot device.
pub open spec fn unlock(bmc: Bmc, device: Seq<char>) -> RequestView {
    changing(
        bmc_attributes(bmc),
        at_once(
            seq![
                ("Lockdown.1.SystemLockdown"@, word("Disabled"@)),
                ("Racadm.1.Enable"@, word("Enabled"@)),
                ("ServerBoot.1.FirstBootDevice"@, word(device)),
                ("ServerBoot.1.BootOnce"@, word("Disabled"@)),
            ],
        ),
    )
}

/// The request that lifts the lockdown of the BIOS.
pub open spec fn unlock_bios(bmc: Bmc) -> RequestView {
    changing(
        bios_changes(bmc),
        at_reset(
            seq![
                ("InBandManageabilityInterface"@, word("Enabled"@)),
                ("UefiVariableAccess"@, word("Standard"@)),
            ],
        ),
    )
}

/// Whether a failure says that a setting is read-only.
pub open spec fn says_read_only(e: ErrorView) -> bool {
    e matches Fault::HTTPErrorCode { status_code, response_body, .. } && status_code == 400
        && stands_in(response_body, "read-only"@)
}

proof fn lock_bodies(bmc: Bmc, system: ComputerSystem)
    ensures
        bmc.before_lock_request(boot_device_of(system)) == prepare_lock(bmc, boots_from(system)),
        bmc.lock_request() == lock(bmc),
        bmc.unlock_request(boot_device_of(system)) == unlock(bmc, boots_from(system)),
        bmc.bios_change(bios_unlock_settings()) == unlock_bios(bmc),
{
    let device = boots_from(system);
    let off = server_boot(boot_device_of(system), EnabledDisabled::Disabled);
    assert(seq![named("Racadm.1.Enable"@, "Disabled"@)] + off =~= seq![
        ("Racadm.1.Enable"@, word("Disabled"@)),
        ("ServerBoot.1.FirstBootDevice"@, word(device)),
        ("ServerBoot.1.BootOnce"@, word("Disabled"@)),
    ]);
    assert(seq![
        named("Lockdown.1.SystemLockdown"@, "Disabled"@),
        named("Racadm.1.Enable"@, "Enabled"@),
    ] + off =~= seq![
        ("Lockdown.1.SystemLockdown"@, word("Disabled"@)),
        ("Racadm.1.Enable"@, word("Enabled"@)),
        ("ServerBoot.1.FirstBootDevice"@, word(device)),
        ("ServerBoot.1.BootOnce"@, word("Disabled"@)),
    ]);
    assert(bios_unlock_settings() =~= seq![
        ("InBandManageabilityInterface"@, word("Enabled"@)),
        ("UefiVariableAccess"@, word("Standard"@)),
    ]);
}

/// Locking and unlocking: a lock prepares the BMC and then locks it. An unlock unlocks
/// the BMC and then lifts the lockdown of the BIOS, and a BIOS whose settings are
/// read-only is left as it is.
pub proof fn lockdown_run<'a>(
    bmc: &Bmc,
    target: EnabledDisabled,
    system: ComputerSystem,
    w: Written,
    v: Written,
    e: RedfishError,
    io: &mut Exchange<'a>,
    r: Result<(), Stop>,
)
    requires
        call_ensures(Bmc::lockdown, (bmc, target, io), r),
    ensures
        old(io)@ == after(seq![]) ==> asks(
            r,
            reading("Systems/"@ + bmc.s.system() + "/"@),
            Kind::System,
        ),
        target == EnabledDisabled::Enabled ==> {
            &&& old(io)@ == after(seq![Ok(Response::System(system))]) ==> asks(
                r,
                prepare_lock(*bmc, boots_from(system)),
                Kind::Written,
            )
            &&& old(io)@ == after(seq![Ok(Response::System(system)), Ok(Response::Written(w))])
                ==> asks(r, lock(*bmc), Kind::Written)
            &&& old(io)@ == after(
                seq![
                    Ok(Response::System(system)),
                    Ok(Response::Written(w)),
                    Ok(Response::Written(v)),
                ],
            ) ==> r is Ok
        },
        target == EnabledDisabled::Disabled ==> {
            &&& old(io)@ == after(seq![Ok(Response::System(system))]) ==> asks(
                r,
                unlock(*bmc, boots_from(system)),
                Kind::Written,
            )
            &&& old(io)@ == after(seq![Ok(Response::System(system)), Ok(Response::Written(w))])
                ==> asks(r, unlock_bios(*bmc), Kind::Written)
            &&& old(io)@ == after(
                seq![
                    Ok(Response::System(system)),
                    Ok(Response::Written(w)),
                    Ok(Response::Written(v)),
                ],
            ) ==> r is Ok
            &&& old(io)@ == after(
                seq![Ok(Response::System(system)), Ok(Response::Written(w)), Err(e)],
            ) ==> if says_read_only(e@) {
                r is Ok
            } else {
                fails(r, e@)
            }
        },
        old(io)@ == after(seq![Err(e)]) ==> fails(r, e@),
        old(io)@ == after(seq![Ok(Response::System(system)), Err(e)]) ==> fails(r, e@),
{
    lock_bodies(*bmc, system);
    if let Fault::HTTPErrorCode { status_code, response_body, .. } = e@ {
        text_has_what_stands_in_it(response_body, "read-only"@);
    }
}

/// Locking and unlocking the BMC alone, which leaves the BIOS as it is.
pub proof fn lockdown_bmc_run<'a>(
    bmc: &Bmc,
    target: EnabledDisabled,
    system: ComputerSystem,
    w: Written,
    v: Written,
    e: RedfishError,
    io: &mut Exchange<'a>,
    r: Result<(), Stop>,
)
    requires
        call_ensures(Bmc::lockdown_bmc, (bmc, target, io), r),
    ensures
        old(io)@ == after(seq![]) ==> asks(
            r,
            reading("Systems/"@ + bmc.s.system() + "/"@),
            Kind::System,
        ),
        target == EnabledDisabled::Enabled ==> {
            &&& old(io)@ == after(seq![Ok(Response::System(system))]) ==> asks(
                r,
                prepare_lock(*bmc, boots_from(system)),
                Kind::Written,
            )
            &&& old(io)@ == after(seq![Ok(Response::System(system)), Ok(Response::Written(w))])
                ==> asks(r, lock(*bmc), Kind::Written)
            &&& old(io)@ == after(
                seq![
                    Ok(Response::System(system)),
                    Ok(Response::Written(w)),
                    Ok(Response::Written(v)),
                ],
            ) ==> r is Ok
        },
        target == EnabledDisabled::Disabled ==> {
            &&& old(io)@ == after(seq![Ok(Response::System(system))]) ==> asks(
                r,
                unlock(*bmc, boots_from(system)),
                Kind::Written,
            )
            &&& old(io)@ == after(seq![Ok(Response::System(system)), Ok(Response::Written(w))])
                ==> r is Ok
        },
        old(io)@ == after(seq![Err(e)]) ==> fails(r, e@),
        old(io)@ == after(seq![Ok(Response::System(system)), Err(e)]) ==> fails(r, e@),
{
    lock_bodies(*bmc, system);
}

/// The lockdown status of a BMC: locked where system lockdown is on and the shell off,
/// unlocked where it is the other way round, and something in between otherwise.
pub proof fn lockdown_status_run<'a>(
    bmc: &Bmc,
    document: Object,
    lockdown: Seq<char>,
    racadm: Seq<char>,
    io: &mut Exchange<'a>,
    r: Result<Status, Stop>,
)
    requires
        call_ensures(Bmc::lockdown_status, (bmc, io), r),
    ensures
        old(io)@ == after(seq![]) ==> asks(r, reading(bmc_attributes(*bmc)), Kind::Object),
        old(io)@ == after(seq![Ok(Response::Object(document))]) && attribute(
            document,
            "Lockdown.1.SystemLockdown"@,
        ) == Some(word(lockdown)) && attribute(document, "Racadm.1.Enable"@) == Some(word(racadm))
            ==> (r matches Ok(report) && {
            &&& report.message@ == "BMC: system_lockdown="@ + lockdown + ", racadm="@ + racadm + "."@
            &&& report.status == StatusInternal::Enabled <==> lockdown == "Enabled"@ && racadm
                == "Disabled"@
            &&& report.status == StatusInternal::Disabled <==> lockdown == "Disabled"@ && racadm
                == "Enabled"@
        }),
{
    reveal_strlit("Enabled");
    reveal_strlit("Disabled");
    assert("Enabled"@.len() == 7 && "Disabled"@.len() == 8);
}

/// The attributes of a BMC after it has taken a change of them.
pub open spec fn attributes_after(attributes: ObjectView, q: RequestView) -> ObjectView {
    match lookup(body_of(q), "Attributes"@) {
        Some(JsonView::Object(changes)) => extended(attributes, changes),
        _ => attributes,
    }
}

/// What the requests of a lock and of an unlock write is what the status reads: a BMC
/// that has taken those that `lockdown` sends is locked after a lock, and unlocked
/// after an unlock, whatever attributes it had.
pub proof fn lockdown_requests_are_read_back(
    bmc: Bmc,
    system: ComputerSystem,
    w: Written,
    attributes: ObjectView,
    document: Object,
)
    ensures
        bmc.lockdown_flow(
            EnabledDisabled::Enabled,
            after(seq![Ok(Response::System(system))]),
        ) matches Flow::Wait(first, _) && (bmc.lockdown_flow(
            EnabledDisabled::Enabled,
            after(seq![Ok(Response::System(system)), Ok(Response::Written(w))]),
        ) matches Flow::Wait(second, _) && (lookup(document@, "Attributes"@) == Some(
            JsonView::Object(attributes_after(attributes_after(attributes, first), second)),
        ) ==> (bmc.lockdown_status_flow(after(seq![Ok(Response::Object(document))])) matches Flow::Ready(
            report,
            _,
        ) && report.status == StatusInternal::Enabled))),
        bmc.lockdown_flow(
            EnabledDisabled::Disabled,
            after(seq![Ok(Response::System(system))]),
        ) matches Flow::Wait(first, _) && (lookup(document@, "Attributes"@) == Some(
            JsonView::Object(attributes_after(attributes, first)),
        ) ==> (bmc.lockdown_status_flow(after(seq![Ok(Response::Object(document))])) matches Flow::Ready(
            report,
            _,
        ) && report.status == StatusInternal::Disabled)),
{
    lock_bodies(bmc, system);
    reveal_strlit("@Redfish.SettingsApplyTime");
    reveal_strlit("Attributes");
    assert("@Redfish.SettingsApplyTime"@.len() == 26 && "Attributes"@.len() == 10);
    reveal_with_fuel(lookup, 3);
    let entry = boot_device_of(system);
    lockdown_is_read_back(attributes, entry, bmc.attributes_path());
    let prepare = bmc.before_lock_request(entry);
    assert(lookup(body_of(prepare), "Attributes"@) == Some(
        JsonView::Object(before_lock_settings(entry)),
    )) by {
        assert(body_of(prepare).drop_first()[0].0 == "Attributes"@);
    }
    assert(lookup(body_of(bmc.lock_request()), "Attributes"@) == Some(
        JsonView::Object(lock_settings()),
    )) by {
        assert(body_of(bmc.lock_request()).drop_first()[0].0 == "Attributes"@);
    }
    assert(lookup(body_of(bmc.unlock_request(entry)), "Attributes"@) == Some(
        JsonView::Object(unlock_settings(entry)),
    )) by {
        assert(body_of(bmc.unlock_request(entry)).drop_first()[0].0 == "Attributes"@);
    }
}

/// The request that clears the job queue.
pub open spec fn clear_queue(bmc: Bmc) -> RequestView {
    posting(
        "Managers/"@ + bmc.s.manager()
            + "/Oem/Dell/DellJobService/Actions/DellJobService.DeleteJobQueue"@,
        seq![("JobID"@, word("JID_CLEARALL"@))],
    )
}

/// Clearing the job queue, which is how pending changes are cleared: a locked machine is
/// left alone, and all jobs of any other are removed.
pub proof fn clear_pending_run<'a>(
    bmc: &Bmc,
    document: Object,
    w: Written,
    e: RedfishError,
    io: &mut Exchange<'a>,
    r: Result<(), Stop>,
)
    requires
        call_ensures(Bmc::clear_pending, (bmc, io), r) || call_ensures(
            Bmc::delete_job_queue,
            (bmc, io),
            r,
        ),
    ensures
        old(io)@ == after(seq![]) ==> asks(r, reading(bmc_attributes(*bmc)), Kind::Object),
        old(io)@ == after(seq![Ok(Response::Object(document))]) && locked(document) ==> fails(
            r,
            Fault::Lockdown,
        ),
        old(io)@ == after(seq![Ok(Response::Object(document))]) && unlocked(document) ==> asks(
            r,
            clear_queue(*bmc),
            Kind::Written,
        ),
        old(io)@ == after(seq![Ok(Response::Object(document)), Ok(Response::Written(w))])
            && unlocked(document) ==> r is Ok,
        old(io)@ == after(seq![Ok(Response::Object(document)), Err(e)]) && unlocked(document)
            ==> fails(r, e@),
{
}

/// Clearing the TPM: after the queue was cleared, the TPM is turned on and its hierarchy
/// is cleared at the next reset.
pub proof fn clear_tpm_run<'a>(
    bmc: &Bmc,
    document: Object,
    w: Written,
    v: Written,
    e: RedfishError,
    io: &mut Exchange<'a>,
    r: Result<(), Stop>,
)
    requires
        call_ensures(Bmc::clear_tpm, (bmc, io), r),
    ensures
        old(io)@ == after(seq![]) ==> asks(r, reading(bmc_attributes(*bmc)), Kind::Object),
        old(io)@ == after(seq![Ok(Response::Object(document))]) && locked(document) ==> fails(
            r,
            Fault::Lockdown,
        ),
        unlocked(document) ==> {
            &&& old(io)@ == after(seq![Ok(Response::Object(document))]) ==> asks(
                r,
                clear_queue(*bmc),
                Kind::Written,
            )
            &&& old(io)@ == after(seq![Ok(Response::Object(document)), Ok(Response::Written(w))])
                ==> asks(
                r,
                changing(
                    bios_changes(*bmc),
                    at_reset(
                        seq![
                            ("TpmSecurity"@, word("On"@)),
                            ("Tpm2Hierarchy"@, word("Clear"@)),
                        ],
                    ),
                ),
                Kind::Written,
            )
            &&& old(io)@ == after(
                seq![
                    Ok(Response::Object(document)),
                    Ok(Response::Written(w)),
                    Ok(Response::Written(v)),
                ],
            ) ==> r is Ok
            &&& old(io)@ == after(
                seq![Ok(Response::Object(document)), Ok(Response::Written(w)), Err(e)],
            ) ==> fails(r, e@)
        },
{
    assert(tpm_settings(OnOff::On, Tpm2HierarchySettings::Clear) =~= seq![
        ("TpmSecurity"@, word("On"@)),
        ("Tpm2Hierarchy"@, word("Clear"@)),
    ]);
}

/// Turning the TPM on and off.
pub proof fn tpm_requests(bmc: &Bmc, on: Request, off: Request)
    requires
        call_ensures(Bmc::enable_tpm, (bmc,), on),
        call_ensures(Bmc::disable_tpm, (bmc,), off),
    ensures
        on@ == changing(
            bios_changes(*bmc),
            at_reset(
                seq![("TpmSecurity"@, word("On"@)), ("Tpm2Hierarchy"@, word("Enabled"@))],
            ),
        ),
        off@ == changing(
            bios_changes(*bmc),
            at_reset(
                seq![("TpmSecurity"@, word("Off"@)), ("Tpm2Hierarchy"@, word("Disabled"@))],
            ),
        ),
{
    assert(tpm_settings(OnOff::On, Tpm2HierarchySettings::Enabled) =~= seq![
        ("TpmSecurity"@, word("On"@)),
        ("Tpm2Hierarchy"@, word("Enabled"@)),
    ]);
    assert(tpm_settings(OnOff::Off, Tpm2HierarchySettings::Disabled) =~= seq![
        ("TpmSecurity"@, word("Off"@)),
        ("Tpm2Hierarchy"@, word("Disabled"@)),
    ]);
}

/// The settings of a BMC that allow remote access to the serial console.
pub open spec fn remote_access() -> ObjectView {
    seq![
        ("SSH.1.Enable"@, word("Enabled"@)),
        ("SerialRedirection.1.Enable"@, word("Enabled"@)),
        ("IPMILan.1.Enable"@, word("Enabled"@)),
        ("IPMISOL.1.Enable"@, word("Enabled"@)),
        ("IPMISOL.1.BaudRate"@, word("115200"@)),
        ("IPMISOL.1.MinPrivilege"@, word("Administrator"@)),
    ]
}

/// The request that sets up remote access, on an iDRAC that has attributes of its own.
pub open spec fn set_remote_access(bmc: Bmc) -> RequestView {
    changing("Managers/"@ + bmc.s.manager() + "/Attributes"@, at_once(remote_access()))
}

/// The request that sets up remote access, on an iDRAC that has OEM attributes only.
pub open spec fn set_remote_access_oem(bmc: Bmc) -> RequestView {
    changing(bmc_attributes(bmc), seq![("Attributes"@, JsonView::Object(remote_access()))])
}

/// Whether a failure says that there is no such document.
pub open spec fn says_not_found(e: ErrorView) -> bool {
    e matches Fault::HTTPErrorCode { status_code, .. } && status_code == 404
}

proof fn remote_access_bodies(bmc: Bmc)
    ensures
        bmc.remote_access_request() == set_remote_access(bmc),
        bmc.remote_access_oem_request() == set_remote_access_oem(bmc),
{
    assert(remote_access_settings() =~= remote_access());
}

/// Setting up remote access: the attributes of the iDRAC are tried first, and the OEM
/// ones where there are none.
pub proof fn setup_bmc_remote_access_run<'a>(
    bmc: &Bmc,
    w: Written,
    e: RedfishError,
    f: RedfishError,
    io: &mut Exchange<'a>,
    r: Result<(), Stop>,
)
    requires
        call_ensures(Bmc::setup_bmc_remote_access, (bmc, io), r),
    ensures
        old(io)@ == after(seq![]) ==> asks(r, set_remote_access(*bmc), Kind::Written),
        old(io)@ == after(seq![Ok(Response::Written(w))]) ==> r is Ok,
        old(io)@ == after(seq![Err(e)]) && says_not_found(e@) ==> asks(
            r,
            set_remote_access_oem(*bmc),
            Kind::Written,
        ),
        old(io)@ == after(seq![Err(e)]) && !says_not_found(e@) ==> fails(r, e@),
        old(io)@ == after(seq![Err(e), Ok(Response::Written(w))]) && says_not_found(e@) ==> r is Ok,
        old(io)@ == after(seq![Err(e), Err(f)]) && says_not_found(e@) ==> fails(r, f@),
{
    remote_access_bodies(*bmc);
}

/// Whether a BIOS numbers its serial ports in the newer way.
pub open spec fn numbers_ports_anew(bios: Object) -> bool {
    attribute(bios, "SerialPortAddress"@) matches Some(JsonView::Text(v)) && v.len() >= 7 && v.take(7)
        == "Serial1"@
}

pub(crate) proof fn numbering(bios: Object)
    requires
        lookup(bios@, "Attributes"@) matches Some(JsonView::Object(_)),
    ensures
        newer_idrac(lookup(bios@, "Attributes"@)->0) == numbers_ports_anew(bios),
        redir_after_boot_of(lookup(bios@, "Attributes"@)->0) is Some == (attribute(
            bios,
            "RedirAfterBoot"@,
        ) is Some),
{
    reveal_strlit("Serial1");
    if let Some(JsonView::Text(v)) = attribute(bios, "SerialPortAddress"@) {
        text_begins_with_its_head(v, "Serial1"@);
    }
}

/// The BIOS settings that set up the serial console: redirection after boot only where
/// the BIOS has it.
pub open spec fn serial_console_bios(bios: Object) -> ObjectView {
    let newer = numbers_ports_anew(bios);
    let common = seq![
        (
            "SerialComm"@,
            word(
                if newer {
                    "OnConRedirAuto"@
                } else {
                    "OnConRedir"@
                },
            ),
        ),
        (
            "SerialPortAddress"@,
            word(
                if newer {
                    "Serial1Com2Serial2Com1"@
                } else {
                    "Com1"@
                },
            ),
        ),
        ("ExtSerialConnector"@, word("Serial1"@)),
        ("FailSafeBaud"@, word("115200"@)),
        ("ConTermType"@, word("Vt100Vt220"@)),
    ];
    if attribute(bios, "RedirAfterBoot"@) is Some {
        common.push(("RedirAfterBoot"@, word("Enabled"@)))
    } else {
        common
    }
}

/// Setting up the serial console: after the queue was cleared and remote access was set
/// up, the BIOS is read and set in the way in which it numbers its ports.
pub proof fn setup_serial_console_run<'a>(
    bmc: &Bmc,
    document: Object,
    bios: Object,
    w: Written,
    v: Written,
    x: Written,
    e: RedfishError,
    io: &mut Exchange<'a>,
    r: Result<(), Stop>,
)
    requires
        call_ensures(Bmc::setup_serial_console, (bmc, io), r),
        unlocked(document),
        lookup(bios@, "Attributes"@) matches Some(JsonView::Object(_)),
    ensures
        old(io)@ == after(seq![]) ==> asks(r, reading(bmc_attributes(*bmc)), Kind::Object),
        old(io)@ == after(seq![Ok(Response::Object(document))]) ==> asks(
            r,
            clear_queue(*bmc),
            Kind::Written,
        ),
        old(io)@ == after(seq![Ok(Response::Object(document)), Ok(Response::Written(w))]) ==> asks(
            r,
            set_remote_access(*bmc),
            Kind::Written,
        ),
        old(io)@ == after(
            seq![
                Ok(Response::Object(document)),
                Ok(Response::Written(w)),
                Ok(Response::Written(v)),
            ],
        ) ==> asks(r, reading("Systems/"@ + bmc.s.system() + "/Bios"@), Kind::Object),
        old(io)@ == after(
            seq![
                Ok(Response::Object(document)),
                Ok(Response::Written(w)),
                Ok(Response::Written(v)),
                Ok(Response::Object(bios)),
            ],
        ) ==> asks(
            r,
            changing(bios_changes(*bmc), at_reset(serial_console_bios(bios))),
            Kind::Written,
        ),
        old(io)@ == after(
            seq![
                Ok(Response::Object(document)),
                Ok(Response::Written(w)),
                Ok(Response::Written(v)),
                Ok(Response::Object(bios)),
                Ok(Response::Written(x)),
            ],
        ) ==> r is Ok,
        old(io)@ == after(
            seq![
                Ok(Response::Object(document)),
                Ok(Response::Written(w)),
                Ok(Response::Written(v)),
                Ok(Response::Object(bios)),
                Err(e),
            ],
        ) ==> fails(r, e@),
{
    remote_access_bodies(*bmc);
    numbering(bios);
    assert(serial_console_settings(lookup(bios@, "Attributes"@)->0) =~= serial_console_bios(bios));
}

/// The BIOS settings of a machine setup, for the network card in `slot`.
pub open spec fn setup_bios(bios: Object, slot: Seq<char>) -> ObjectView {
    let newer = numbers_ports_anew(bios);
    let before = seq![
        ("InBandManageabilityInterface"@, word("Disabled"@)),
        ("UefiVariableAccess"@, word("Standard"@)),
        (
            "SerialComm"@,
            word(
                if newer {
                    "OnConRedirAuto"@
                } else {
                    "OnConRedir"@
                },
            ),
        ),
        (
            "SerialPortAddress"@,
            word(
                if newer {
                    "Serial1Com2Serial2Com1"@
                } else {
                    "Com1"@
                },
            ),
        ),
        ("FailSafeBaud"@, word("115200"@)),
        ("ConTermType"@, word("Vt100Vt220"@)),
    ];
    let redirected = if attribute(bios, "RedirAfterBoot"@) is Some {
        before.push(("RedirAfterBoot"@, word("Enabled"@)))
    } else {
        before
    };
    let devices = redirected + seq![
        ("SriovGlobalEnable"@, word("Enabled"@)),
        ("TpmSecurity"@, word("On"@)),
        ("Tpm2Hierarchy"@, word("Clear"@)),
        ("Tpm2Algorithm"@, word("SHA256"@)),
        ("HttpDev1EnDis"@, word("Enabled"@)),
        ("PxeDev1EnDis"@, word("Disabled"@)),
    ];
    let booted = if attribute(bios, "BootMode"@) matches Some(JsonView::Text(mode)) && mode != "Uefi"@ {
        devices.push(("BootMode"@, word("Uefi"@)))
    } else {
        devices
    };
    booted + seq![
        ("HttpDev1Interface"@, word(slot)),
        ("SetBootOrderEn"@, word(slot)),
        ("HttpDev1TlsMode"@, word("None"@)),
        ("SetBootOrderDis"@, word(""@)),
    ]
}

pub(crate) proof fn setup_bios_body(bios: Object, slot: Seq<char>)
    requires
        lookup(bios@, "Attributes"@) matches Some(JsonView::Object(_)),
    ensures
        bios_object(setup_attrs(lookup(bios@, "Attributes"@)->0, slot)) == setup_bios(bios, slot),
{
    numbering(bios);
    assert(bios_object(setup_attrs(lookup(bios@, "Attributes"@)->0, slot)) =~= setup_bios(
        bios,
        slot,
    ));
}

/// The OEM settings of a machine setup: the host interface is turned off only where
/// the iDRAC has it.
pub open spec fn setup_oem(document: Object) -> ObjectView {
    let common = seq![
        ("WebServer.1.HostHeaderCheck"@, word("Disabled"@)),
        ("IPMILan.1.Enable"@, word("Enabled"@)),
    ];
    if attribute(document, "OS-BMC.1.AdminState"@) is Some {
        common.push(("OS-BMC.1.AdminState"@, word("Disabled"@)))
    } else {
        common
    }
}

proof fn setup_oem_body(document: Object)
    requires
        lookup(document@, "Attributes"@) matches Some(JsonView::Object(_)),
    ensures
        oem_settings(lookup(document@, "Attributes"@)->0) == setup_oem(document),
{
    assert(oem_settings(lookup(document@, "Attributes"@)->0) =~= setup_oem(document));
}

/// Setting up a machine without a DPU, and without profiles for Dell: the queue is
/// cleared, the BIOS is read, all its settings are sent at once for the next reset, the
/// OEM settings are made and remote access is set up. The caller is told that there is
/// no DPU.
pub proof fn machine_setup_without_dpu_run<'a>(
    bmc: &Bmc,
    profiles: &Vec<VendorProfiles>,
    selected: BiosProfileType,
    document: Object,
    bios: Object,
    w: Written,
    started: Written,
    job: Seq<char>,
    v: Written,
    x: Written,
    io: &mut Exchange<'a>,
    r: Result<(), Stop>,
)
    requires
        call_ensures(Bmc::machine_setup, (bmc, None::<&str>, profiles, selected, io), r),
        forall|i: int|
            0 <= i < profiles@.len() ==> (#[trigger] profiles@[i]).vendor != RedfishVendor::Dell,
        unlocked(document),
        lookup(bios@, "Attributes"@) matches Some(JsonView::Object(_)),
        starts_job(started, job),
    ensures
        old(io)@ == after(seq![]) ==> asks(r, reading(bmc_attributes(*bmc)), Kind::Object),
        old(io)@ == after(seq![Ok(Response::Object(document))]) ==> asks(
            r,
            clear_queue(*bmc),
            Kind::Written,
        ),
        old(io)@ == after(seq![Ok(Response::Object(document)), Ok(Response::Written(w))]) ==> asks(
            r,
            reading("Systems/"@ + bmc.s.system() + "/Bios"@),
            Kind::Object,
        ),
        old(io)@ == after(
            seq![
                Ok(Response::Object(document)),
                Ok(Response::Written(w)),
                Ok(Response::Object(bios)),
            ],
        ) ==> asks(
            r,
            changing(bios_changes(*bmc), at_reset(setup_bios(bios, ""@))),
            Kind::Written,
        ),
        old(io)@ == after(
            seq![
                Ok(Response::Object(document)),
                Ok(Response::Written(w)),
                Ok(Response::Object(bios)),
                Ok(Response::Written(started)),
            ],
        ) ==> asks(r, reading(bmc_attributes(*bmc)), Kind::Object),
        old(io)@ == after(
            seq![
                Ok(Response::Object(document)),
                Ok(Response::Written(w)),
                Ok(Response::Object(bios)),
                Ok(Response::Written(started)),
                Ok(Response::Object(document)),
            ],
        ) ==> asks(
            r,
            changing(
                bmc_attributes(*bmc),
                seq![("Attributes"@, JsonView::Object(setup_oem(document)))],
            ),
            Kind::Written,
        ),
        old(io)@ == after(
            seq![
                Ok(Response::Object(document)),
                Ok(Response::Written(w)),
                Ok(Response::Object(bios)),
                Ok(Response::Written(started)),
                Ok(Response::Object(document)),
                Ok(Response::Written(v)),
            ],
        ) ==> asks(r, set_remote_access(*bmc), Kind::Written),
        old(io)@ == after(
            seq![
                Ok(Response::Object(document)),
                Ok(Response::Written(w)),
                Ok(Response::Object(bios)),
                Ok(Response::Written(started)),
                Ok(Response::Object(document)),
                Ok(Response::Written(v)),
                Ok(Response::Written(x)),
            ],
        ) ==> fails(r, Fault::NoDpu),
{
    job_is_named(started, job);
    setup_bios_body(bios, ""@);
    setup_oem_body(document);
    remote_access_bodies(*bmc);
    let p = for_dell();
    assert forall|k: int| 0 <= k < profiles@.len() implies !p(#[trigger] profiles@[k]) by {}
    first_where_absent(profiles@, p);
}

/// Whether a network function is that of the card with the MAC address `mac`, in any
/// case.
pub open spec fn is_card(f: NetworkDeviceFunction, mac: Seq<char>) -> bool {
    f.ethernet matches Some(ethernet) && (ethernet.mac_address matches Some(m) && lowercased(m@)
        == lowercased(mac))
}

/// What a network function says of its card, under `key`.
pub open spec fn of_card(f: NetworkDeviceFunction, key: Seq<char>) -> Option<JsonView> {
    match f.oem {
        Some(oem) => match lookup(oem@, "Dell"@) {
            Some(dell) => match member(dell, "DellNIC"@) {
                Some(nic) => member(nic, key),
                None => None,
            },
            None => None,
        },
        None => None,
    }
}

/// The documents that lead to the card with the MAC address `mac`: the chassis, its
/// adapters, and for each adapter that has functions those functions, the card among
/// the last of them and in none before.
pub open spec fn leads_to_card(
    chassis: Chassis,
    adapters: Members<NetworkAdapter>,
    functions: Seq<Members<NetworkDeviceFunction>>,
    i: int,
    mac: Seq<char>,
) -> bool {
    &&& chassis.network_adapters is Some
    &&& 0 < functions.len() <= adapters.members@.len()
    &&& forall|k: int|
        0 <= k < functions.len() ==> (#[trigger] adapters.members@[k]).network_device_functions
            is Some
    &&& forall|k: int, j: int|
        #![trigger functions[k].members@[j]]
        0 <= k < functions.len() - 1 && 0 <= j < functions[k].members@.len() ==> !is_card(
            functions[k].members@[j],
            mac,
        )
    &&& 0 <= i < functions.last().members@.len()
    &&& is_card(functions.last().members@[i], mac)
    &&& forall|j: int|
        0 <= j < i ==> !is_card(#[trigger] functions.last().members@[j], mac)
}

/// The answers with network functions.
pub open spec fn function_replies(functions: Seq<Members<NetworkDeviceFunction>>) -> Seq<Reply> {
    Seq::new(functions.len(), |k: int| Ok(Response::NetworkDeviceFunctions(functions[k])))
}

proof fn card_is_found_among(
    adapters: Seq<NetworkAdapter>,
    functions: Seq<Members<NetworkDeviceFunction>>,
    i: int,
    mac: Seq<char>,
    t: Tape,
)
    requires
        0 < functions.len() <= adapters.len(),
        forall|k: int|
            0 <= k < functions.len() ==> (#[trigger] adapters[k]).network_device_functions is Some,
        forall|k: int, j: int|
            #![trigger functions[k].members@[j]]
            0 <= k < functions.len() - 1 && 0 <= j < functions[k].members@.len() ==> !is_card(
                functions[k].members@[j],
                mac,
            ),
        0 <= i < functions.last().members@.len(),
        is_card(functions.last().members@[i], mac),
        forall|j: int| 0 <= j < i ==> !is_card(#[trigger] functions.last().members@[j], mac),
        t.pos + functions.len() <= t.replies.len(),
        forall|k: int|
            0 <= k < functions.len() ==> #[trigger] t.replies[t.pos + k] == Ok::<_, RedfishError>(
                Response::NetworkDeviceFunctions(functions[k]),
            ),
    ensures
        function_among(adapters, mac, t) == Flow::Ready(
            functions.last().members@[i],
            Tape { replies: t.replies, pos: (t.pos + functions.len()) as nat },
        ),
    decreases functions.len(),
{
    let p = |f: NetworkDeviceFunction| has_mac(f, mac);
    assert(t.replies[t.pos + 0int] == Ok::<_, RedfishError>(
        Response::NetworkDeviceFunctions(functions[0]),
    ));
    assert(adapters[0].network_device_functions is Some);
    let first = functions[0].members@;
    if functions.len() == 1 {
        assert(functions.last() == functions[0]);
        assert forall|j: int| 0 <= j < i implies !p(#[trigger] first[j]) by {
            assert(!is_card(functions.last().members@[j], mac));
        }
        first_where_found(first, p, i);
    } else {
        assert forall|j: int| 0 <= j < first.len() implies !p(#[trigger] first[j]) by {
            assert(!is_card(functions[0].members@[j], mac));
        }
        first_where_absent(first, p);
        let rest = functions.drop_first();
        let others = adapters.drop_first();
        assert(rest.last() == functions.last());
        assert forall|k: int| 0 <= k < rest.len() implies (
        #[trigger] others[k]).network_device_functions is Some by {
            assert(others[k] == adapters[k + 1]);
        }
        assert forall|k: int, j: int|
            #![trigger rest[k].members@[j]]
            0 <= k < rest.len() - 1 && 0 <= j < rest[k].members@.len() implies !is_card(
            rest[k].members@[j],
            mac,
        ) by {
            assert(!is_card(functions[k + 1].members@[j], mac));
        }
        let u = t.next();
        assert forall|k: int| 0 <= k < rest.len() implies #[trigger] u.replies[u.pos + k] == Ok::<
            _,
            RedfishError,
        >(Response::NetworkDeviceFunctions(rest[k])) by {
            assert(t.replies[t.pos + (k + 1)] == Ok::<_, RedfishError>(
                Response::NetworkDeviceFunctions(functions[k + 1]),
            ));
        }
        card_is_found_among(others, rest, i, mac, u);
    }
}

/// The card of a machine is found by its MAC address: its functions are asked for
/// adapter by adapter, and the first that has the address is taken. What it says under
/// `Id` is the slot of the card.
pub proof fn card_is_found(
    bmc: Bmc,
    mac: Seq<char>,
    chassis: Chassis,
    adapters: Members<NetworkAdapter>,
    functions: Seq<Members<NetworkDeviceFunction>>,
    i: int,
    before: Seq<Reply>,
    later: Seq<Reply>,
    slot: Seq<char>,
)
    requires
        leads_to_card(chassis, adapters, functions, i, mac),
    ensures
        ({
            let t = Tape {
                replies: before + seq![
                    Ok(Response::Chassis(chassis)),
                    Ok(Response::NetworkAdapters(adapters)),
                ] + function_replies(functions) + later,
                pos: before.len(),
            };
            let u = Tape { replies: t.replies, pos: before.len() + 2 + functions.len() };
            &&& bmc.dpu_nw_device_function_flow(mac, t) == Flow::Ready(
                functions.last().members@[i],
                u,
            )
            &&& of_card(functions.last().members@[i], "Id"@) == Some(word(slot))
                ==> bmc.dpu_nic_slot_flow(mac, t) == Flow::Ready(slot, u)
        }),
{
    let found = function_replies(functions);
    let t = Tape {
        replies: before + seq![
            Ok(Response::Chassis(chassis)),
            Ok(Response::NetworkAdapters(adapters)),
        ] + found + later,
        pos: before.len(),
    };
    assert(t.replies[before.len() as int] == Ok::<_, RedfishError>(Response::Chassis(chassis)));
    assert(t.replies[before.len() + 1int] == Ok::<_, RedfishError>(
        Response::NetworkAdapters(adapters),
    ));
    let u = t.next().next();
    assert forall|k: int| 0 <= k < functions.len() implies #[trigger] u.replies[u.pos + k] == Ok::<
        _,
        RedfishError,
    >(Response::NetworkDeviceFunctions(functions[k])) by {
        assert(u.replies[u.pos + k] == found[k]);
    }
    card_is_found_among(adapters.members@, functions, i, mac, u);
}

/// Setting up a machine with a DPU, and without profiles for Dell: the settings name the
/// slot of the card with the MAC address, and the setup succeeds.
pub proof fn machine_setup_with_dpu_run<'a>(
    bmc: &Bmc,
    mac: &str,
    profiles: &Vec<VendorProfiles>,
    selected: BiosProfileType,
    document: Object,
    chassis: Chassis,
    adapters: Members<NetworkAdapter>,
    functions: Seq<Members<NetworkDeviceFunction>>,
    i: int,
    slot: Seq<char>,
    bios: Object,
    w: Written,
    started: Written,
    job: Seq<char>,
    v: Written,
    x: Written,
    later: Seq<Reply>,
    io: &mut Exchange<'a>,
    r: Result<(), Stop>,
)
    requires
        call_ensures(Bmc::machine_setup, (bmc, Some(mac), profiles, selected, io), r),
        leads_to_card(chassis, adapters, functions, i, mac@),
        of_card(functions.last().members@[i], "Id"@) == Some(word(slot)),
        forall|k: int|
            0 <= k < profiles@.len() ==> (#[trigger] profiles@[k]).vendor != RedfishVendor::Dell,
        unlocked(document),
        lookup(bios@, "Attributes"@) matches Some(JsonView::Object(_)),
        starts_job(started, job),
        old(io)@ == after(
            seq![
                Ok(Response::Object(document)),
                Ok(Response::Written(w)),
                Ok(Response::Chassis(chassis)),
                Ok(Response::NetworkAdapters(adapters)),
            ] + function_replies(functions) + later,
        ),
    ensures
        later.len() == 0 ==> asks(
            r,
            reading("Systems/"@ + bmc.s.system() + "/Bios"@),
            Kind::Object,
        ),
        later == seq![Reply::Ok(Response::Object(bios))] ==> asks(
            r,
            changing(bios_changes(*bmc), at_reset(setup_bios(bios, slot))),
            Kind::Written,
        ),
        later == seq![Reply::Ok(Response::Object(bios)), Ok(Response::Written(started))] ==> asks(
            r,
            reading(bmc_attributes(*bmc)),
            Kind::Object,
        ),
        later == seq![
            Reply::Ok(Response::Object(bios)),
            Ok(Response::Written(started)),
            Ok(Response::Object(document)),
        ] ==> asks(
            r,
            changing(
                bmc_attributes(*bmc),
                seq![("Attributes"@, JsonView::Object(setup_oem(document)))],
            ),
            Kind::Written,
        ),
        later == seq![
            Reply::Ok(Response::Object(bios)),
            Ok(Response::Written(started)),
            Ok(Response::Object(document)),
            Ok(Response::Written(v)),
        ] ==> asks(r, set_remote_access(*bmc), Kind::Written),
        later == seq![
            Reply::Ok(Response::Object(bios)),
            Ok(Response::Written(started)),
            Ok(Response::Object(document)),
            Ok(Response::Written(v)),
            Ok(Response::Written(x)),
        ] ==> r is Ok,
{
    job_is_named(started, job);
    setup_bios_body(bios, slot);
    setup_oem_body(document);
    remote_access_bodies(*bmc);
    let p = for_dell();
    assert forall|k: int| 0 <= k < profiles@.len() implies !p(#[trigger] profiles@[k]) by {}
    first_where_absent(profiles@, p);
    let t = old(io)@;
    let before: Seq<Reply> = seq![Ok(Response::Object(document)), Ok(Response::Written(w))];
    let n = (4 + functions.len()) as nat;
    let u = Tape { replies: t.replies, pos: n };
    assert(bmc.nic_slot_flow(Some(mac@), t.next().next()) == Flow::Ready(slot, u)) by {
        card_is_found(*bmc, mac@, chassis, adapters, functions, i, before, later, slot);
        assert(before + seq![
            Ok(Response::Chassis(chassis)),
            Ok(Response::NetworkAdapters(adapters)),
        ] + function_replies(functions) + later =~= t.replies);
    }
    assert(bmc.delete_job_queue_flow(t) == Flow::<()>::Ready((), t.next().next()));
    assert(t.replies.skip(n as int) =~= later);
    setup_continues(*bmc, profiles@, selected, document, slot, bios, started, job, v, x, u, later);
}

proof fn setup_continues(
    bmc: Bmc,
    profiles: Seq<VendorProfiles>,
    selected: BiosProfileType,
    document: Object,
    slot: Seq<char>,
    bios: Object,
    started: Written,
    job: Seq<char>,
    v: Written,
    x: Written,
    u: Tape,
    later: Seq<Reply>,
)
    requires
        dell_models(profiles) is None,
        lookup(document@, "Attributes"@) matches Some(JsonView::Object(_)),
        lookup(bios@, "Attributes"@) matches Some(JsonView::Object(_)),
        starts_job(started, job),
        u.pos <= u.replies.len(),
        u.replies.skip(u.pos as int) == later,
    ensures
        ({
            let f = bmc.machine_setup_attrs_flow(slot, u).and_then(
                |attrs: BiosAttrs<Seq<char>>, t: Tape|
                    bmc.with_extra_values_flow(
                        settings_at(RedfishSettingsApplyTime::OnReset, bios_object(attrs)),
                        profiles,
                        selected,
                        t,
                    ).and_then(
                        |body: ObjectView, t: Tape| bmc.apply_setup_flow(body, true, t),
                    ),
            );
            &&& later.len() == 0 ==> f == Flow::<()>::Wait(
                reading("Systems/"@ + bmc.s.system() + "/Bios"@),
                Kind::Object,
            )
            &&& later == seq![Reply::Ok(Response::Object(bios))] ==> f == Flow::<()>::Wait(
                changing(bios_changes(bmc), at_reset(setup_bios(bios, slot))),
                Kind::Written,
            )
            &&& later == seq![Reply::Ok(Response::Object(bios)), Ok(Response::Written(started))] ==> f
                == Flow::<()>::Wait(reading(bmc_attributes(bmc)), Kind::Object)
            &&& later == seq![
                Reply::Ok(Response::Object(bios)),
                Ok(Response::Written(started)),
                Ok(Response::Object(document)),
            ] ==> f == Flow::<()>::Wait(
                changing(
                    bmc_attributes(bmc),
                    seq![("Attributes"@, JsonView::Object(setup_oem(document)))],
                ),
                Kind::Written,
            )
            &&& later == seq![
                Reply::Ok(Response::Object(bios)),
                Ok(Response::Written(started)),
                Ok(Response::Object(document)),
                Ok(Response::Written(v)),
            ] ==> f == Flow::<()>::Wait(set_remote_access(bmc), Kind::Written)
            &&& later == seq![
                Reply::Ok(Response::Object(bios)),
                Ok(Response::Written(started)),
                Ok(Response::Object(document)),
                Ok(Response::Written(v)),
                Ok(Response::Written(x)),
            ] ==> f is Ready
        }),
{
    job_is_named(started, job);
    setup_bios_body(bios, slot);
    setup_oem_body(document);
    remote_access_bodies(bmc);
    assert(later.len() == u.replies.len() - u.pos);
    assert forall|k: int| 0 <= k < later.len() implies #[trigger] later[k] == u.replies[u.pos + k] by {}
    assert(later.len() > 0 ==> later[0] == u.replies[u.pos as int]);
    assert(later.len() > 1 ==> later[1] == u.replies[u.pos + 1int]);
    assert(later.len() > 2 ==> later[2] == u.replies[u.pos + 2int]);
    assert(later.len() > 3 ==> later[3] == u.replies[u.pos + 3int]);
    assert(later.len() > 4 ==> later[4] == u.replies[u.pos + 4int]);
}

/// The request that writes attributes of the BMC, to be applied at once.
pub open spec fn write_attribute(bmc: Bmc, key: Seq<char>, value: Seq<char>) -> RequestView {
    changing(
        bmc_attributes(bmc),
        seq![("Attributes"@, JsonView::Object(seq![(key, word(value))]))],
    )
}

/// The request that makes the machine boot from a device first.
pub open spec fn write_first_device(bmc: Bmc, device: Seq<char>, once: Seq<char>) -> RequestView {
    changing(
        bmc_attributes(bmc),
        at_reset(
            seq![
                ("ServerBoot.1.FirstBootDevice"@, word(device)),
                ("ServerBoot.1.BootOnce"@, word(once)),
            ],
        ),
    )
}

/// The requests that set single attributes.
pub proof fn attribute_requests(
    bmc: &Bmc,
    values: Object,
    target: EnabledDisabled,
    device: BootDevices,
    device_name: &'static str,
    bios: Request,
    infinite: Request,
    lockdown: Request,
    timezone: Request,
    hot_spare: Request,
    first: Request,
    once: Request,
)
    requires
        call_ensures(Bmc::set_bios, (bmc, values), bios),
        call_ensures(Bmc::enable_infinite_boot, (bmc,), infinite),
        call_ensures(Bmc::set_idrac_lockdown, (bmc, target), lockdown),
        call_ensures(Bmc::set_utc_timezone, (bmc,), timezone),
        call_ensures(Bmc::disable_psu_hot_spare, (bmc,), hot_spare),
        call_ensures(BootDevices::name, (&device,), device_name),
        call_ensures(Bmc::set_boot_first, (bmc, device, false), first),
        call_ensures(Bmc::set_boot_first, (bmc, device, true), once),
    ensures
        bios@ == changing(bios_changes(*bmc), at_reset(values@)),
        infinite@ == changing(
            bios_changes(*bmc),
            at_reset(seq![("BootSeqRetry"@, word("Enabled"@))]),
        ),
        target == EnabledDisabled::Enabled ==> lockdown@ == write_attribute(
            *bmc,
            "Lockdown.1.SystemLockdown"@,
            "Enabled"@,
        ),
        target == EnabledDisabled::Disabled ==> lockdown@ == write_attribute(
            *bmc,
            "Lockdown.1.SystemLockdown"@,
            "Disabled"@,
        ),
        timezone@ == write_attribute(*bmc, "Time.1.Timezone"@, "UTC"@),
        hot_spare@ == write_attribute(*bmc, "ServerPwr.1.PSRapidOn"@, "Disabled"@),
        first@ == write_first_device(*bmc, device_name@, "Disabled"@),
        once@ == write_first_device(*bmc, device_name@, "Enabled"@),
{
}

/// The requests that make the machine boot from a device, once or from now on. Booting over
/// HTTP is not offered.
pub proof fn boot_requests(
    bmc: &Bmc,
    target: Boot,
    once: Result<Request, RedfishError>,
    first: Result<Request, RedfishError>,
)
    requires
        call_ensures(Bmc::boot_once, (bmc, target), once),
        call_ensures(Bmc::boot_first, (bmc, target), first),
    ensures
        target == Boot::Pxe ==> (once matches Ok(q) && q@ == write_first_device(
            *bmc,
            "PXE"@,
            "Enabled"@,
        )),
        target == Boot::Pxe ==> (first matches Ok(q) && q@ == write_first_device(
            *bmc,
            "PXE"@,
            "Disabled"@,
        )),
        target == Boot::HardDisk ==> (once matches Ok(q) && q@ == write_first_device(
            *bmc,
            "HDD"@,
            "Enabled"@,
        )),
        target == Boot::HardDisk ==> (first matches Ok(q) && q@ == write_first_device(
            *bmc,
            "HDD"@,
            "Disabled"@,
        )),
        target == Boot::UefiHttp ==> (once matches Err(e) && e@ == ErrorView::NotSupported(
            "No Dell UefiHttp implementation"@,
        )),
        target == Boot::UefiHttp ==> (first matches Err(e) && e@ == ErrorView::NotSupported(
            "No Dell UefiHttp implementation"@,
        )),
{
}

/// Further requests, and what is answered without one.
pub proof fn other_requests(
    bmc: &Bmc,
    chassis: &str,
    id: &str,
    port: &str,
    bios: Request,
    log: Request,
    function: Result<Request, RedfishError>,
    without_port: Result<Request, RedfishError>,
    policy: Result<(), RedfishError>,
    ac_powercycle: bool,
)
    requires
        call_ensures(Bmc::reset_bios, (bmc,), bios),
        call_ensures(Bmc::get_system_event_log, (bmc,), log),
        call_ensures(Bmc::get_network_device_function, (bmc, chassis, id, Some(port)), function),
        call_ensures(
            Bmc::get_network_device_function,
            (bmc, chassis, id, None::<&str>),
            without_port,
        ),
        call_ensures(Bmc::set_machine_password_policy, (bmc,), policy),
        call_ensures(Bmc::ac_powercycle_supported_by_power, (bmc,), ac_powercycle),
    ensures
        bios@ == calling("Systems/"@ + bmc.s.system() + "/Bios/Actions/Bios.ResetBios"@),
        log@ == reading("Managers/"@ + bmc.s.manager() + "/LogServices/Sel/Entries"@),
        function matches Ok(q) && q@ == reading(
            "Chassis/"@ + chassis@ + "/NetworkAdapters/"@ + id@ + "/NetworkDeviceFunctions/"@
                + port@,
        ),
        without_port matches Err(e) && e@ == (ErrorView::GenericError {
            error: "Port is missing for Dell."@,
        }),
        policy is Ok,
        ac_powercycle,
{
}

/// Whether the machine tries its boot order for ever is what the BIOS says.
pub proof fn infinite_boot_run<'a>(
    bmc: &Bmc,
    bios: Object,
    state: Seq<char>,
    io: &mut Exchange<'a>,
    r: Result<Option<bool>, Stop>,
)
    requires
        call_ensures(Bmc::is_infinite_boot_enabled, (bmc, io), r),
        attribute(bios, "BootSeqRetry"@) == Some(word(state)),
    ensures
        old(io)@ == after(seq![]) ==> asks(
            r,
            reading("Systems/"@ + bmc.s.system() + "/Bios"@),
            Kind::Object,
        ),
        old(io)@ == after(seq![Ok(Response::Object(bios))]) ==> r == Ok::<Option<bool>, Stop>(
            Some(state == "Enabled"@),
        ),
{
}

/// Where the account with the number `id` is.
pub open spec fn account_place(id: nat) -> Seq<char> {
    "AccountService/Accounts/"@ + decimal(id)
}

/// Whether a reply says that an account is in use: there is one, and it is not turned off.
pub open spec fn in_use(reply: Reply) -> bool {
    reply matches Ok(Response::Account(account)) && account.enabled != Some(false)
}

/// Whether a reply says that an account is free: it is turned off, or cannot be read.
pub open spec fn is_free(reply: Reply) -> bool {
    match reply {
        Ok(Response::Account(account)) => account.enabled == Some(false),
        Ok(_) => false,
        Err(_) => true,
    }
}

proof fn accounts_in_use(id: nat, used: Seq<Reply>, t: Tape)
    requires
        3 <= id <= 17,
        id + used.len() <= 17,
        t.replies.len() >= t.pos + used.len(),
        t.replies.subrange(t.pos as int, (t.pos + used.len()) as int) == used,
        forall|i: int| 0 <= i < used.len() ==> in_use(#[trigger] used[i]),
    ensures
        free_account(id, t) == free_account(
            (id + used.len()) as nat,
            Tape { replies: t.replies, pos: t.pos + used.len() },
        ),
    decreases used.len(),
{
    if used.len() > 0 {
        assert(t.replies[t.pos as int] == used[0]);
        assert(in_use(used[0]));
        let rest = used.drop_first();
        assert(t.replies.subrange((t.pos + 1) as int, (t.pos + used.len()) as int) =~= rest);
        assert forall|i: int| 0 <= i < rest.len() implies in_use(#[trigger] rest[i]) by {
            assert(rest[i] == used[i + 1]);
        }
        accounts_in_use(id + 1, rest, t.next());
    }
}

/// Creating an account: the accounts from the third to the sixteenth are read in turn, and
/// the first that is free is written, turned on. With none free, there are too many.
pub proof fn create_user_run<'a>(
    bmc: &Bmc,
    username: &str,
    password: &str,
    role: RoleId,
    role_name: &'static str,
    used: Seq<Reply>,
    spare: Reply,
    w: Written,
    io: &mut Exchange<'a>,
    r: Result<(), Stop>,
)
    requires
        call_ensures(Bmc::create_user, (bmc, username, password, role, io), r),
        call_ensures(RoleId::name, (&role,), role_name),
        used.len() <= 14,
        forall|i: int| 0 <= i < used.len() ==> in_use(#[trigger] used[i]),
        is_free(spare),
    ensures
        old(io)@ == after(used) && used.len() < 14 ==> asks(
            r,
            reading(account_place((3 + used.len()) as nat)),
            Kind::Account,
        ),
        old(io)@ == after(used) && used.len() == 14 ==> fails(r, Fault::TooManyUsers),
        old(io)@ == after(used.push(spare)) && used.len() < 14 ==> asks(
            r,
            changing(
                account_place((3 + used.len()) as nat),
                seq![
                    ("UserName"@, word(username@)),
                    ("Password"@, word(password@)),
                    ("RoleId"@, word(role_name@)),
                    ("Enabled"@, JsonView::Bool(true)),
                ],
            ),
            Kind::Written,
        ),
        old(io)@ == after(used.push(spare).push(Ok(Response::Written(w)))) && used.len() < 14
            ==> r is Ok,
{
    assert(seq![
        ("UserName"@, word(username@)),
        ("Password"@, word(password@)),
        ("RoleId"@, word(role_name@)),
    ].push(("Enabled"@, JsonView::Bool(true))) =~= seq![
        ("UserName"@, word(username@)),
        ("Password"@, word(password@)),
        ("RoleId"@, word(role_name@)),
        ("Enabled"@, JsonView::Bool(true)),
    ]);
    let t = old(io)@;
    let n = used.len() as int;
    assert(used.subrange(0, n) =~= used);
    assert(used.push(spare).subrange(0, n) =~= used);
    assert(used.push(spare).push(Ok(Response::Written(w))).subrange(0, n) =~= used);
    if t.pos == 0 && t.replies.len() >= n && t.replies.subrange(0, n) == used {
        accounts_in_use(3, used, t);
    }
}

/// What an AC power cycle answers on a machine that is locked down.
pub open spec fn no_ac_powercycle_in_lockdown() -> ErrorView {
    Fault::GenericError {
        error:
            "Cannot perform AC power cycle while system is locked down. Disable lockdown, reboot, verify BIOS attribute 'UefiVariableAccess' is 'Standard', and then try again."@,
    }
}

/// The request that changes the power state.
pub open spec fn write_power(bmc: Bmc, name: Seq<char>) -> RequestView {
    posting(
        "Systems/"@ + bmc.s.system() + "/Actions/ComputerSystem.Reset"@,
        seq![("ResetType"@, word(name))],
    )
}

/// Changing the power state is one request, but for an AC power cycle.
pub proof fn power_run<'a>(
    bmc: &Bmc,
    action: SystemPowerControl,
    name: &'static str,
    w: Written,
    e: RedfishError,
    io: &mut Exchange<'a>,
    r: Result<(), Stop>,
)
    requires
        call_ensures(Bmc::power, (bmc, action, io), r),
        call_ensures(SystemPowerControl::name, (&action,), name),
        action != SystemPowerControl::ACPowercycle,
    ensures
        old(io)@ == after(seq![]) ==> asks(r, write_power(*bmc, name@), Kind::Written),
        old(io)@ == after(seq![Ok(Response::Written(w))]) ==> r is Ok,
        old(io)@ == after(seq![Err(e)]) ==> fails(r, e@),
{
}

/// The request that has the machine cycle its power with the next reset.
pub open spec fn write_power_cycle(bmc: Bmc) -> RequestView {
    changing(
        "Systems/"@ + bmc.s.system() + "/Bios/Settings"@,
        at_reset(seq![("PowerCycleRequest"@, word("FullPowerCycle"@))]),
    )
}

/// An AC power cycle: a machine that is locked down, or whose UEFI variables are guarded,
/// refuses. Otherwise the job queue is cleared, the power cycle is set for the next reset,
/// and the machine is turned on, where it is off, or restarted.
pub proof fn ac_power_cycle_run<'a>(
    bmc: &Bmc,
    document: Object,
    bios: Object,
    w: Written,
    x: Written,
    system: ComputerSystem,
    y: Written,
    e: RedfishError,
    io: &mut Exchange<'a>,
    r: Result<(), Stop>,
)
    requires
        call_ensures(Bmc::power, (bmc, SystemPowerControl::ACPowercycle, io), r),
        lookup(bios@, "Attributes"@) is Some,
    ensures
        old(io)@ == after(seq![]) ==> asks(r, reading(bmc_attributes(*bmc)), Kind::Object),
        old(io)@ == after(seq![Ok(Response::Object(document))]) && (locked(document) || unlocked(
            document,
        )) ==> asks(r, reading("Systems/"@ + bmc.s.system() + "/Bios"@), Kind::Object),
        old(io)@ == after(seq![Ok(Response::Object(document)), Ok(Response::Object(bios))])
            && locked(document) ==> fails(r, no_ac_powercycle_in_lockdown()),
        old(io)@ == after(seq![Ok(Response::Object(document)), Ok(Response::Object(bios))])
            && unlocked(document) && attribute(bios, "UefiVariableAccess"@) == Some(
            word("Controlled"@),
        ) ==> fails(r, no_ac_powercycle_in_lockdown()),
        old(io)@ == after(seq![Ok(Response::Object(document)), Ok(Response::Object(bios))])
            && unlocked(document) && attribute(bios, "UefiVariableAccess"@) != Some(
            word("Controlled"@),
        ) ==> asks(r, reading(bmc_attributes(*bmc)), Kind::Object),
        old(io)@ == after(
            seq![
                Ok(Response::Object(document)),
                Ok(Response::Object(bios)),
                Ok(Response::Object(document)),
            ],
        ) && unlocked(document) && attribute(bios, "UefiVariableAccess"@) != Some(
            word("Controlled"@),
        ) ==> asks(r, clear_queue(*bmc), Kind::Written),
        old(io)@ == after(
            seq![
                Ok(Response::Object(document)),
                Ok(Response::Object(bios)),
                Ok(Response::Object(document)),
                Ok(Response::Written(w)),
            ],
        ) && unlocked(document) && attribute(bios, "UefiVariableAccess"@) != Some(
            word("Controlled"@),
        ) ==> asks(r, write_power_cycle(*bmc), Kind::Written),
        old(io)@ == after(
            seq![
                Ok(Response::Object(document)),
                Ok(Response::Object(bios)),
                Ok(Response::Object(document)),
                Ok(Response::Written(w)),
                Err(e),
            ],
        ) && unlocked(document) && attribute(bios, "UefiVariableAccess"@) != Some(
            word("Controlled"@),
        ) ==> {
            &&& says_read_only(e@) ==> fails(
                r,
                Fault::GenericError {
                    error:
                        "Failed to set PowerCycleRequest BIOS attribute due to read-only dependencies. Please reboot the machine and try again."@,
                },
            )
            &&& !says_read_only(e@) ==> fails(r, e@)
        },
        old(io)@ == after(
            seq![
                Ok(Response::Object(document)),
                Ok(Response::Object(bios)),
                Ok(Response::Object(document)),
                Ok(Response::Written(w)),
                Ok(Response::Written(x)),
            ],
        ) && unlocked(document) && attribute(bios, "UefiVariableAccess"@) != Some(
            word("Controlled"@),
        ) ==> asks(r, reading("Systems/"@ + bmc.s.system() + "/"@), Kind::System),
        old(io)@ == after(
            seq![
                Ok(Response::Object(document)),
                Ok(Response::Object(bios)),
                Ok(Response::Object(document)),
                Ok(Response::Written(w)),
                Ok(Response::Written(x)),
                Ok(Response::System(system)),
            ],
        ) && unlocked(document) && attribute(bios, "UefiVariableAccess"@) != Some(
            word("Controlled"@),
        ) ==> asks(
            r,
            write_power(
                *bmc,
                if system.power_state == PowerState::Off {
                    "On"@
                } else {
                    "GracefulRestart"@
                },
            ),
            Kind::Written,
        ),
        old(io)@ == after(
            seq![
                Ok(Response::Object(document)),
                Ok(Response::Object(bios)),
                Ok(Response::Object(document)),
                Ok(Response::Written(w)),
                Ok(Response::Written(x)),
                Ok(Response::System(system)),
                Ok(Response::Written(y)),
            ],
        ) && unlocked(document) && attribute(bios, "UefiVariableAccess"@) != Some(
            word("Controlled"@),
        ) ==> r is Ok,
{
    if let Fault::HTTPErrorCode { response_body, .. } = e@ {
        text_has_what_stands_in_it(response_body, "read-only"@);
    }
}

/// The state of a job is what it says. One that is scheduled and says that it could not be
/// started is scheduled with errors.
pub proof fn job_state_run<'a>(
    bmc: &Bmc,
    id: &str,
    body: Object,
    state: Seq<char>,
    message: Seq<char>,
    io: &mut Exchange<'a>,
    r: Result<JobState, Stop>,
)
    requires
        call_ensures(Bmc::get_job_state, (bmc, id, io), r),
        lookup(body@, "JobState"@) == Some(word(state)),
        lookup(body@, "Message"@) == Some(word(message)),
    ensures
        old(io)@ == after(seq![]) ==> asks(
            r,
            reading("Managers/iDRAC.Embedded.1/Oem/Dell/Jobs/"@ + id@),
            Kind::Object,
        ),
        old(io)@ == after(seq![Ok(Response::Object(body))]) && state == "Scheduled"@ ==> r == Ok::<
            JobState,
            Stop,
        >(
            if message == "Job processing initialization failure."@ {
                JobState::ScheduledWithErrors
            } else {
                JobState::Scheduled
            },
        ),
        old(io)@ == after(seq![Ok(Response::Object(body))]) && state == "Running"@ ==> r == Ok::<
            JobState,
            Stop,
        >(JobState::Running),
        old(io)@ == after(seq![Ok(Response::Object(body))]) && state == "Completed"@ ==> r == Ok::<
            JobState,
            Stop,
        >(JobState::Completed),
        old(io)@ == after(seq![Ok(Response::Object(body))]) && state == "CompletedWithErrors"@
            ==> r == Ok::<JobState, Stop>(JobState::CompletedWithErrors),
{
    reveal_strlit("Scheduled");
    reveal_strlit("Running");
    reveal_strlit("Completed");
    reveal_strlit("CompletedWithErrors");
    assert("Scheduled"@.len() == 9 && "Running"@.len() == 7 && "Completed"@.len() == 9);
    assert("CompletedWithErrors"@.len() == 19);
    assert("Scheduled"@[0] == 'S' && "Completed"@[0] == 'C');
}

/// Whether the link at `i` is the first that leads to a BOSS controller, with the name `id`.
pub open spec fn leads_to_boss(storage: References, i: int, id: Seq<char>) -> bool {
    0 <= i < storage.members@.len() && has(storage.members@[i].odata_id@, "BOSS"@) && free_of(
        id,
        '/',
    ) && leads_to(storage.members@[i].odata_id@, id) && forall|k: int|
        0 <= k < i ==> !(has((#[trigger] storage.members@[k]).odata_id@, "BOSS"@))
}

/// The BOSS controller is the first storage whose link speaks of one.
pub proof fn boss_controller_run<'a>(
    bmc: &Bmc,
    storage: References,
    i: int,
    id: Seq<char>,
    io: &mut Exchange<'a>,
    r: Result<Option<String>, Stop>,
)
    requires
        call_ensures(Bmc::get_boss_controller, (bmc, io), r),
    ensures
        old(io)@ == after(seq![]) ==> asks(
            r,
            reading("Systems/System.Embedded.1/Storage"@),
            Kind::References,
        ),
        old(io)@ == after(seq![Ok(Response::References(storage))]) && leads_to_boss(
            storage,
            i,
            id,
        ) ==> (r matches Ok(Some(name)) && name@ == id),
        old(io)@ == after(seq![Ok(Response::References(storage))]) && (forall|k: int|
            0 <= k < storage.members@.len() ==> !(has(
                (#[trigger] storage.members@[k]).odata_id@,
                "BOSS"@,
            ))) ==> r == Ok::<Option<String>, Stop>(None),
{
    let p = |link: ODataId| has(link.odata_id@, "BOSS"@);
    if leads_to_boss(storage, i, id) {
        assert forall|k: int| 0 <= k < i implies !p(#[trigger] storage.members@[k]) by {}
        first_where_found(storage.members@, p, i);
        let place = storage.members@[i].odata_id@;
        let head = choose|head: Seq<char>|
            #![trigger head + seq!['/'] + id]
            place == head + seq!['/'] + id;
        after_last_is_the_last_part(head, '/', id);
    }
    if forall|k: int|
        0 <= k < storage.members@.len() ==> !(has(
            (#[trigger] storage.members@[k]).odata_id@,
            "BOSS"@,
        )) {
        assert forall|k: int| 0 <= k < storage.members@.len() implies !p(
            #[trigger] storage.members@[k],
        ) by {}
        first_where_absent(storage.members@, p);
    }
}

/// The request for the state of the lifecycle controller.
pub open spec fn ask_lifecycle_controller(bmc: Bmc) -> RequestView {
    posting(
        "Managers/"@ + bmc.s.manager()
            + "/Oem/Dell/DellLCService/Actions/DellLCService.GetRemoteServicesAPIStatus"@,
        seq![],
    )
}

/// What is answered while the lifecycle controller is in the state `status`.
pub open spec fn not_ready(status: Seq<char>) -> ErrorView {
    Fault::GenericError {
        error:
            "the lifecycle controller is not ready to accept provisioning requests; lc_status: "@
            + status,
    }
}

/// Decommissioning the drives of a controller: once the lifecycle controller is ready, a
/// job is started that erases them at once, whose id is the result.
pub proof fn decommission_run<'a>(
    bmc: &Bmc,
    id: &str,
    services: RemoteServices,
    status: Seq<char>,
    started: Written,
    job: Seq<char>,
    e: RedfishError,
    io: &mut Exchange<'a>,
    r: Result<Option<String>, Stop>,
)
    requires
        call_ensures(Bmc::decommission_storage_controller, (bmc, id, io), r),
        services.lc_status@ == word(status),
    ensures
        old(io)@ == after(seq![]) ==> asks(
            r,
            ask_lifecycle_controller(*bmc),
            Kind::RemoteServices,
        ),
        old(io)@ == after(seq![Err(e)]) ==> fails(r, e@),
        old(io)@ == after(seq![Ok(Response::RemoteServices(services))]) && status != "Ready"@
            ==> fails(r, not_ready(status)),
        old(io)@ == after(seq![Ok(Response::RemoteServices(services))]) && status == "Ready"@
            ==> asks(
            r,
            posting(
                "Systems/System.Embedded.1/Storage/"@ + id@
                    + "/Actions/Oem/DellStorage.ControllerDrivesDecommission"@,
                seq![("@Redfish.OperationApplyTime"@, word("Immediate"@))],
            ),
            Kind::Written,
        ),
        old(io)@ == after(
            seq![Ok(Response::RemoteServices(services)), Ok(Response::Written(started))],
        ) && status == "Ready"@ && starts_job(started, job) ==> (r matches Ok(Some(found))
            && found@ == job),
{
    if starts_job(started, job) {
        job_is_named(started, job);
    }
}

/// Creating a volume on all drives of a BOSS controller: one drive is striped, two are
/// mirrored, and any other number is refused, as is a name that is empty or longer than
/// fifteen bytes. The lifecycle controller has to be ready.
pub proof fn create_volume_run<'a>(
    bmc: &Bmc,
    id: &str,
    name: &str,
    body: Object,
    drives: Seq<JsonView>,
    services: RemoteServices,
    status: Seq<char>,
    started: Written,
    job: Seq<char>,
    io: &mut Exchange<'a>,
    r: Result<Option<String>, Stop>,
)
    requires
        call_ensures(Bmc::create_storage_volume, (bmc, id, name, io), r),
        lookup(body@, "Drives"@) == Some(JsonView::Array(drives)),
        services.lc_status@ == word(status),
    ensures
        old(io)@ == after(seq![]) ==> asks(
            r,
            reading("Systems/System.Embedded.1/Storage/"@ + id@),
            Kind::Object,
        ),
        old(io)@ == after(seq![Ok(Response::Object(body))]) && drives.len() != 1 && drives.len()
            != 2 ==> fails(
            r,
            Fault::GenericError {
                error: "Expected 1 or 2 drives for BOSS controller "@ + id@ + ", found "@
                    + decimal(drives.len()),
            },
        ),
        old(io)@ == after(seq![Ok(Response::Object(body))]) && (drives.len() == 1 || drives.len()
            == 2) && !(1 <= encode_utf8(name@).len() <= 15) ==> fails(
            r,
            Fault::GenericError {
                error: "invalid volume name ("@ + name@
                    + "); must be between 1 and 15 characters long"@,
            },
        ),
        old(io)@ == after(seq![Ok(Response::Object(body))]) && (drives.len() == 1 || drives.len()
            == 2) && 1 <= encode_utf8(name@).len() <= 15 ==> asks(
            r,
            ask_lifecycle_controller(*bmc),
            Kind::RemoteServices,
        ),
        old(io)@ == after(
            seq![Ok(Response::Object(body)), Ok(Response::RemoteServices(services))],
        ) && (drives.len() == 1 || drives.len() == 2) && 1 <= encode_utf8(name@).len() <= 15
            && status != "Ready"@ ==> fails(r, not_ready(status)),
        old(io)@ == after(
            seq![Ok(Response::Object(body)), Ok(Response::RemoteServices(services))],
        ) && (drives.len() == 1 || drives.len() == 2) && 1 <= encode_utf8(name@).len() <= 15
            && status == "Ready"@ ==> asks(
            r,
            posting(
                "Systems/System.Embedded.1/Storage/"@ + id@ + "/Volumes"@,
                seq![
                    ("Name"@, word(name@)),
                    (
                        "RAIDType"@,
                        word(
                            if drives.len() == 1 {
                                "RAID0"@
                            } else {
                                "RAID1"@
                            },
                        ),
                    ),
                    ("Links"@, JsonView::Object(seq![("Drives"@, JsonView::Array(drives))])),
                ],
            ),
            Kind::Written,
        ),
        old(io)@ == after(
            seq![
                Ok(Response::Object(body)),
                Ok(Response::RemoteServices(services)),
                Ok(Response::Written(started)),
            ],
        ) && (drives.len() == 1 || drives.len() == 2) && 1 <= encode_utf8(name@).len() <= 15
            && status == "Ready"@ && starts_job(started, job) ==> (r matches Ok(Some(found))
            && found@ == job),
{
    if starts_job(started, job) {
        job_is_named(started, job);
    }
}

/// Importing settings starts a job, whose id is the result. The machine is shut down for
/// it, and only the BIOS is changed.
pub proof fn import_run<'a>(
    bmc: &Bmc,
    buffer: &str,
    started: Written,
    job: Seq<char>,
    io: &mut Exchange<'a>,
    r: Result<String, Stop>,
)
    requires
        call_ensures(Bmc::import_system_configuration, (bmc, buffer, io), r),
        starts_job(started, job),
    ensures
        old(io)@ == after(seq![]) ==> asks(
            r,
            posting(
                "Managers/iDRAC.Embedded.1/Actions/Oem/EID_674_Manager.ImportSystemConfiguration"@,
                seq![
                    ("ShutdownType"@, word("Forced"@)),
                    ("ShareParameters"@, JsonView::Object(seq![("Target"@, word("BIOS"@))])),
                    ("ImportBuffer"@, word(buffer@)),
                ],
            ),
            Kind::Written,
        ),
        old(io)@ == after(seq![Ok(Response::Written(started))]) ==> (r matches Ok(found) && found@
            == job),
{
    job_is_named(started, job);
}

/// The replies that lead to the boot options of a machine with a card: the card, and then
/// the boot options.
pub open spec fn to_boot_options(
    chassis: Chassis,
    adapters: Members<NetworkAdapter>,
    functions: Seq<Members<NetworkDeviceFunction>>,
    links: References,
    options: Seq<BootOption>,
) -> Seq<Reply> {
    seq![Ok(Response::Chassis(chassis)), Ok(Response::NetworkAdapters(adapters))]
        + function_replies(functions) + seq![Ok(Response::References(links))] + option_replies(
        options,
    )
}

pub(crate) proof fn boot_option_is_expected(
    bmc: Bmc,
    mac: Seq<char>,
    chassis: Chassis,
    adapters: Members<NetworkAdapter>,
    functions: Seq<Members<NetworkDeviceFunction>>,
    i: int,
    description: Seq<char>,
    links: References,
    ids: Seq<Seq<char>>,
    options: Seq<BootOption>,
    before: Seq<Reply>,
    later: Seq<Reply>,
)
    requires
        leads_to_card(chassis, adapters, functions, i, mac),
        of_card(functions.last().members@[i], "DeviceDescription"@) == Some(word(description)),
        lead_to(links.members@, ids),
        options.len() == ids.len(),
    ensures
        ({
            let head = to_boot_options(chassis, adapters, functions, links, options);
            let all = before + head + later;
            let t = Tape { replies: all, pos: before.len() };
            let u = Tape { replies: all, pos: (before.len() + 2 + functions.len()) as nat };
            let w = Tape { replies: all, pos: (before.len() + head.len()) as nat };
            &&& all.len() == before.len() + 3 + functions.len() + options.len() + later.len()
            &&& head.len() == 3 + functions.len() + options.len()
            &&& forall|k: int|
                0 <= k < later.len() ==> #[trigger] later[k] == all[before.len() + head.len() + k]
            &&& bmc.expected_boot_option_flow(mac, t) == Flow::Ready(
                "HTTP Device 1: "@ + description,
                u,
            )
            &&& bmc.boot_order_flow(u) == Flow::Ready(options, w)
        }),
{
    let head = to_boot_options(chassis, adapters, functions, links, options);
    let all = before + head + later;
    let t = Tape { replies: all, pos: before.len() };
    let n = (before.len() + 2 + functions.len()) as nat;
    let u = Tape { replies: all, pos: n };
    let behind = seq![Ok(Response::References(links))] + option_replies(options) + later;
    card_is_found(bmc, mac, chassis, adapters, functions, i, before, behind, Seq::empty());
    assert(before + seq![Ok(Response::Chassis(chassis)), Ok(Response::NetworkAdapters(adapters))]
        + function_replies(functions) + behind =~= all);
    assert(bmc.dpu_nw_device_function_flow(mac, t) == Flow::Ready(
        functions.last().members@[i],
        u,
    ));
    assert(all[n as int] == Reply::Ok(Response::References(links)));
    let v = u.next();
    assert forall|k: int| 0 <= k < options.len() implies v.replies[v.pos + k] == Reply::Ok(
        Response::BootOption(#[trigger] options[k]),
    ) by {
        assert(all[v.pos + k] == option_replies(options)[k]);
    }
    all_options_are_read(bmc.s, links.members@, ids, options, Seq::empty(), v);
    assert(Seq::<BootOption>::empty() + options =~= options);
}

/// Whether the option at `k` is the first with the name `name`.
pub open spec fn first_named(options: Seq<BootOption>, k: int, name: Seq<char>) -> bool {
    0 <= k < options.len() && options[k].display_name@ == name && forall|j: int|
        0 <= j < k ==> (#[trigger] options[j]).display_name@ != name
}

proof fn option_is_put_first(
    bmc: Bmc,
    mac: Seq<char>,
    name: Seq<char>,
    options: Seq<BootOption>,
    k: int,
    t: Tape,
    u: Tape,
    w: Tape,
)
    requires
        bmc.expected_boot_option_flow(mac, t) == Flow::Ready(name, u),
        bmc.boot_order_flow(u) == Flow::Ready(options, w),
    ensures
        (forall|j: int| 0 <= j < options.len() ==> (#[trigger] options[j]).display_name@ != name)
            ==> bmc.set_boot_order_dpu_first_flow(mac, t) == Flow::<Option<Seq<char>>>::Fail(
            Fault::MissingBootOption(name),
            w,
        ),
        k == 0 && first_named(options, k, name) ==> bmc.set_boot_order_dpu_first_flow(mac, t)
            == Flow::<Option<Seq<char>>>::Ready(None, w),
        k > 0 && first_named(options, k, name) ==> bmc.set_boot_order_dpu_first_flow(mac, t) == (
        match job_flow(bmc.put_first_request(options[k]), w) {
            Flow::Ready(job, x) => Flow::Ready(Some(job), x),
            Flow::Fail(e, x) => Flow::Fail(e, x),
            Flow::Wait(q, kind) => Flow::Wait(q, kind),
        }),
{
    let p = is_called(name);
    first_where_is_first(options, p);
    if first_named(options, k, name) {
        assert forall|j: int| 0 <= j < k implies !p(#[trigger] options[j]) by {}
        first_where_found(options, p, k);
    }
}

/// Setting the DPU first: its boot option is the one that boots over HTTP from the card,
/// as the card describes itself. Where that is first already, nothing is done; otherwise
/// the boot order is set to start with it, by a job, whose id is the result.
pub proof fn dpu_first_run<'a>(
    bmc: &Bmc,
    mac: &str,
    chassis: Chassis,
    adapters: Members<NetworkAdapter>,
    functions: Seq<Members<NetworkDeviceFunction>>,
    i: int,
    description: Seq<char>,
    links: References,
    ids: Seq<Seq<char>>,
    options: Seq<BootOption>,
    k: int,
    later: Seq<Reply>,
    started: Written,
    job: Seq<char>,
    io: &mut Exchange<'a>,
    r: Result<Option<String>, Stop>,
)
    requires
        call_ensures(Bmc::set_boot_order_dpu_first, (bmc, mac, io), r),
        leads_to_card(chassis, adapters, functions, i, mac@),
        of_card(functions.last().members@[i], "DeviceDescription"@) == Some(word(description)),
        lead_to(links.members@, ids),
        options.len() == ids.len(),
        starts_job(started, job),
        old(io)@ == after(to_boot_options(chassis, adapters, functions, links, options) + later),
    ensures
        (forall|j: int|
            0 <= j < options.len() ==> (#[trigger] options[j]).display_name@ != "HTTP Device 1: "@
                + description) ==> fails(
            r,
            Fault::MissingBootOption("HTTP Device 1: "@ + description),
        ),
        k == 0 && first_named(options, k, "HTTP Device 1: "@ + description) ==> r == Ok::<
            Option<String>,
            Stop,
        >(None),
        k > 0 && first_named(options, k, "HTTP Device 1: "@ + description) && later.len() == 0
            ==> asks(
            r,
            changing(
                "Systems/"@ + bmc.s.system() + "/Settings"@,
                seq![
                    (
                        "Boot"@,
                        JsonView::Object(seq![("BootOrder"@, words(seq![options[k].id@]))]),
                    ),
                ],
            ),
            Kind::Written,
        ),
        k > 0 && first_named(options, k, "HTTP Device 1: "@ + description) && later == seq![
            Reply::Ok(Response::Written(started)),
        ] ==> (r matches Ok(Some(found)) && found@ == job),
{
    boot_option_is_expected(
        *bmc,
        mac@,
        chassis,
        adapters,
        functions,
        i,
        description,
        links,
        ids,
        options,
        Seq::empty(),
        later,
    );
    let head = to_boot_options(chassis, adapters, functions, links, options);
    assert(Seq::<Reply>::empty() + head + later =~= head + later);
    assert(later.len() > 0 ==> later[0] == (head + later)[head.len() + 0int]);
    let name = "HTTP Device 1: "@ + description;
    let t = old(io)@;
    let u = Tape { replies: t.replies, pos: (2 + functions.len()) as nat };
    let w = Tape { replies: t.replies, pos: head.len() };
    assert(later.len() > 0 ==> w.replies[w.pos as int] == later[0]);
    option_is_put_first(*bmc, mac@, name, options, k, t, u, w);
    if first_named(options, k, name) {
        words_are_texts(seq![options[k].id@]);
    }
    job_is_named(started, job);
}

/// The boot order is set up if and only if its first option is the one that boots over
/// HTTP from the card.
pub proof fn is_boot_order_setup_run<'a>(
    bmc: &Bmc,
    mac: &str,
    chassis: Chassis,
    adapters: Members<NetworkAdapter>,
    functions: Seq<Members<NetworkDeviceFunction>>,
    i: int,
    description: Seq<char>,
    links: References,
    ids: Seq<Seq<char>>,
    options: Seq<BootOption>,
    io: &mut Exchange<'a>,
    r: Result<bool, Stop>,
)
    requires
        call_ensures(Bmc::is_boot_order_setup, (bmc, mac, io), r),
        leads_to_card(chassis, adapters, functions, i, mac@),
        of_card(functions.last().members@[i], "DeviceDescription"@) == Some(word(description)),
        lead_to(links.members@, ids),
        options.len() == ids.len(),
        old(io)@ == after(to_boot_options(chassis, adapters, functions, links, options)),
    ensures
        r == Ok::<bool, Stop>(
            options.len() > 0 && options[0].display_name@ == "HTTP Device 1: "@ + description,
        ),
{
    boot_option_is_expected(
        *bmc,
        mac@,
        chassis,
        adapters,
        functions,
        i,
        description,
        links,
        ids,
        options,
        Seq::empty(),
        Seq::empty(),
    );
    let head = to_boot_options(chassis, adapters, functions, links, options);
    assert(Seq::<Reply>::empty() + head + Seq::<Reply>::empty() =~= head);
}

/// The id of a job is the last part of the location that an answer gives. An answer without
/// one is a failure that says what is missing.
pub proof fn job_ids_are_read(
    url: &str,
    headers: &Option<Location>,
    id: Seq<char>,
    r: Result<String, RedfishError>,
)
    requires
        call_ensures(parse_job_id_from_response_headers, (url, headers), r),
        free_of(id, '/'),
    ensures
        *headers is None ==> (r matches Err(e) && e@ == ErrorView::NoHeader),
        *headers == Some(Location::Missing) ==> (r matches Err(e) && e@ == (ErrorView::MissingKey {
            key: "location"@,
            url: url@,
        })),
        *headers matches Some(Location::NotText(err)) ==> (r matches Err(e) && e@ == (
        ErrorView::InvalidValue { url: url@, field: "location"@, err: err@ })),
        *headers matches Some(Location::Text(location)) ==> (leads_to(location@, id) ==> (
        r matches Ok(found) && found@ == id)),
{
    if let Some(Location::Text(location)) = *headers {
        if leads_to(location@, id) {
            let head = choose|head: Seq<char>|
                #![trigger head + seq!['/'] + id]
                location@ == head + seq!['/'] + id;
            after_last_is_the_last_part(head, '/', id);
        }
    }
}

/// What a network function says of its card stands under its vendor's section. Where it
/// does not, the failure says what is missing.
pub proof fn cards_are_described(f: &NetworkDeviceFunction, r: Result<&Object, RedfishError>)
    requires
        call_ensures(dell_nic_of, (f,), r),
    ensures
        f.oem is None ==> (r matches Err(e) && e@ == (ErrorView::GenericError {
            error: "OEM information is missing"@,
        })),
        f.oem matches Some(oem) ==> match lookup(oem@, "Dell"@) {
            None => r matches Err(e) && e@ == (ErrorView::GenericError {
                error: "Dell OEM information is missing"@,
            }),
            Some(JsonView::Object(dell)) => match lookup(dell, "DellNIC"@) {
                Some(JsonView::Object(nic)) => r matches Ok(found) && found@ == nic,
                _ => r matches Err(e) && e@ == (ErrorView::GenericError {
                    error: "DellNIC information is not a valid object or is missing"@,
                }),
            },
            Some(_) => r matches Err(e) && e@ == (ErrorView::GenericError {
                error: "Dell OEM information is not a valid object"@,
            }),
        },
{
}

/// Where the card of a machine cannot be found, the failure says why: the chassis has no
/// adapters, or none of them has the address.
pub proof fn card_is_not_found<'a>(
    bmc: &Bmc,
    mac: &str,
    chassis: Chassis,
    adapters: Members<NetworkAdapter>,
    io: &mut Exchange<'a>,
    r: Result<&'a NetworkDeviceFunction, Stop>,
)
    requires
        call_ensures(Bmc::get_dpu_nw_device_function, (bmc, mac, io), r),
        adapters.members@.len() == 0,
    ensures
        old(io)@ == after(seq![]) ==> asks(
            r,
            reading("Chassis/"@ + bmc.s.system()),
            Kind::Chassis,
        ),
        old(io)@ == after(seq![Ok(Response::Chassis(chassis))]) && chassis.network_adapters is None
            ==> fails(
            r,
            Fault::MissingKey {
                key: "network_adapters"@,
                url: match chassis.odata {
                    Some(link) => link.odata_id@,
                    None => "empty_odata_id_url"@,
                },
            },
        ),
        old(io)@ == after(
            seq![Ok(Response::Chassis(chassis)), Ok(Response::NetworkAdapters(adapters))],
        ) && chassis.network_adapters is Some ==> fails(
            r,
            Fault::GenericError { error: "could not find network device function for "@ + mac@ },
        ),
{
}

} // verus!
