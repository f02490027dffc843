//! What holds of the operations on Dell machines taken together.
use crate::dell::{
    dell_models, extra_values, for_dell, for_model, for_profile, Bmc, ModelProfiles, Profile,
    VendorProfiles,
};
use crate::dell_actions::{
    free_account, is_called, oem_settings, remote_access_settings, valid_volume_name,
};
use crate::dell_bios::{
    all_checked, bios_expectations, bios_serial_report, checked, lockdown_report, newer_idrac,
    oem_all_checked, remote_access_attributes, remote_access_found, remote_access_report,
    serial_reading, setup_attrs, Expectation,
};
use crate::dell_settings::{
    bios_object, named, serial_comm, serial_port, server_boot, BootDevices, SerialPortExtSettings,
    SerialPortTermSettings, Tpm2HierarchySettings,
};
use crate::error::{ErrorView, Fault};
use crate::exchange::{fetched, sent, Flow, Tape};
use crate::json::{
    extended, extended_is_found, last_value, last_value_absent, last_value_at, lookup, member,
    JsonView, ObjectView,
};
use crate::model::{
    BiosProfileType, BiosSerial, DiffView, EnabledDisabled, RedfishVendor, StatusInternal,
    SystemPowerControl,
};
use crate::search::{first_where, first_where_found, first_where_is_first};
use vstd::prelude::*;
use vstd::string::*;

verus! {

/// A machine in system lockdown is left alone: every change that needs the job
/// queue or the UEFI password is refused, and no request but the one that found
/// the lockdown is sent.
pub proof fn locked_machine_is_left_alone(
    bmc: Bmc,
    mac: Option<Seq<char>>,
    profiles: Seq<VendorProfiles>,
    selected: BiosProfileType,
    current_password: Seq<char>,
    new_password: Seq<char>,
    t: Tape,
    u: Tape,
)
    requires
        bmc.is_lockdown_flow(t) == Flow::Ready(true, u),
    ensures
        bmc.delete_job_queue_flow(t) == Flow::<()>::Fail(Fault::Lockdown, u),
        bmc.clear_tpm_flow(t) == Flow::<()>::Fail(Fault::Lockdown, u),
        bmc.setup_serial_console_flow(t) == Flow::<()>::Fail(Fault::Lockdown, u),
        bmc.machine_setup_flow(mac, profiles, selected, t) == Flow::<()>::Fail(
            Fault::Lockdown,
            u,
        ),
        bmc.perform_ac_power_cycle_flow(t) == Flow::<()>::Fail(Fault::Lockdown, u),
        bmc.change_uefi_password_flow(current_password, new_password, t) == Flow::<
            Option<Seq<char>>,
        >::Fail(Fault::Lockdown, u),
{
}

/// An AC power cycle is refused while the machine is locked, or while the BIOS
/// still controls access to its variables.
pub proof fn locked_machine_keeps_its_power(bmc: Bmc, bios: JsonView, locked: bool, t: Tape, u: Tape, w: Tape)
    requires
        bmc.is_lockdown_flow(t) == Flow::Ready(locked, u),
        bmc.s.bios_attributes_flow(u) == Flow::Ready(bios, w),
        locked || member(bios, "UefiVariableAccess"@) == Some(JsonView::Text("Controlled"@)),
    ensures
        bmc.power_flow(SystemPowerControl::ACPowercycle, t) matches Flow::Fail(
            Fault::GenericError { .. },
            v,
        ) && v == w,
{
}

/// A new account is never one of the first two, which belong to the BMC, nor one
/// that an iDRAC does not have.
pub proof fn new_account_is_a_spare_one(id: nat, t: Tape)
    requires
        3 <= id,
    ensures
        free_account(id, t) matches Flow::Ready(free, _) ==> id <= free <= 16,
    decreases 17 - id,
{
    if id <= 16 {
        match fetched::<crate::model::ManagerAccount>(
            crate::exchange::get("AccountService/Accounts/"@ + crate::text::decimal(id)),
            t,
        ) {
            Flow::Ready(account, u) => {
                new_account_is_a_spare_one(id + 1, u);
            },
            _ => {},
        }
    }
}

/// No changes can be applied while there are pending jobs: nothing is changed before
/// the job queue was cleared.
pub proof fn queue_is_cleared_first(
    bmc: Bmc,
    mac: Option<Seq<char>>,
    profiles: Seq<VendorProfiles>,
    selected: BiosProfileType,
    t: Tape,
)
    requires
        bmc.delete_job_queue_flow(t) !is Ready,
    ensures
        bmc.clear_tpm_flow(t) == bmc.delete_job_queue_flow(t),
        bmc.setup_serial_console_flow(t) == bmc.delete_job_queue_flow(t),
        bmc.machine_setup_flow(mac, profiles, selected, t) == bmc.delete_job_queue_flow(t),
        bmc.perform_ac_power_cycle_flow(t) == bmc.delete_job_queue_flow(t),
{
}

/// Storage is only changed once the lifecycle controller takes requests.
pub proof fn controller_is_ready_first(
    bmc: Bmc,
    id: Seq<char>,
    name: Seq<char>,
    raid: Seq<char>,
    drives: JsonView,
    t: Tape,
)
    ensures
        bmc.lifecycle_controller_is_ready_flow(t) matches Flow::Wait(q, k) ==> {
            &&& bmc.decommission_controller_flow(id, t) == Flow::<Seq<char>>::Wait(q, k)
            &&& valid_volume_name(name) ==> bmc.create_volume_flow(id, name, raid, drives, t)
                == Flow::<Seq<char>>::Wait(q, k)
        },
        bmc.lifecycle_controller_is_ready_flow(t) matches Flow::Fail(e, u) ==> {
            &&& bmc.decommission_controller_flow(id, t) == Flow::<Seq<char>>::Fail(e, u)
            &&& valid_volume_name(name) ==> bmc.create_volume_flow(id, name, raid, drives, t)
                == Flow::<Seq<char>>::Fail(e, u)
        },
{
}

/// A boot order that is set up is left alone: where the DPU is the first boot option
/// already, nothing is sent and there is no job.
pub proof fn boot_order_that_is_set_up_is_left_alone(
    bmc: Bmc,
    mac: Seq<char>,
    names: (Option<Seq<char>>, Option<Seq<char>>),
    t: Tape,
    u: Tape,
)
    requires
        bmc.first_boot_option_flow(mac, t) == Flow::Ready(names, u),
        Bmc::boots_first(names),
    ensures
        bmc.set_boot_order_dpu_first_flow(mac, t) == Flow::<Option<Seq<char>>>::Ready(None, u),
{
    if let Flow::Ready(name, v) = bmc.expected_boot_option_flow(mac, t) {
        if let Flow::Ready(order, w) = bmc.boot_order_flow(v) {
            first_where_found(order, is_called(name), 0);
        }
    }
}

/// The attributes that are changed before the BMC is locked.
pub open spec fn before_lock_settings(entry: BootDevices) -> ObjectView {
    seq![named("Racadm.1.Enable"@, "Disabled"@)] + server_boot(entry, EnabledDisabled::Disabled)
}

/// The attribute that locks the BMC.
pub open spec fn lock_settings() -> ObjectView {
    seq![named("Lockdown.1.SystemLockdown"@, "Enabled"@)]
}

/// The attributes that unlock the BMC.
pub open spec fn unlock_settings(entry: BootDevices) -> ObjectView {
    seq![
        named("Lockdown.1.SystemLockdown"@, "Disabled"@),
        named("Racadm.1.Enable"@, "Enabled"@),
    ] + server_boot(entry, EnabledDisabled::Disabled)
}

proof fn lock_key_lengths()
    ensures
        "Racadm.1.Enable"@.len() == 15,
        "ServerBoot.1.FirstBootDevice"@.len() == 28,
        "ServerBoot.1.BootOnce"@.len() == 21,
        "Lockdown.1.SystemLockdown"@.len() == 25,
{
    reveal_strlit("Racadm.1.Enable");
    reveal_strlit("ServerBoot.1.FirstBootDevice");
    reveal_strlit("ServerBoot.1.BootOnce");
    reveal_strlit("Lockdown.1.SystemLockdown");
}

proof fn before_lock_keys(entry: BootDevices)
    ensures
        before_lock_settings(entry).len() == 3,
        before_lock_settings(entry)[0] == named("Racadm.1.Enable"@, "Disabled"@),
        before_lock_settings(entry)[1].0 == "ServerBoot.1.FirstBootDevice"@,
        before_lock_settings(entry)[2].0 == "ServerBoot.1.BootOnce"@,
{
    assert(server_boot(entry, EnabledDisabled::Disabled).len() == 2);
}

/// Lockdown prevents other settings from being applied, so it is requested only
/// after all others were accepted, and none of those turns it on.
pub proof fn bmc_is_locked_last(bmc: Bmc, entry: BootDevices, t: Tape)
    ensures
        bmc.enable_bmc_lockdown_flow(entry, t) matches Flow::Wait(q, _) && q == bmc.lock_request()
            ==> sent(bmc.before_lock_request(entry), t) is Ready,
        last_value(before_lock_settings(entry), "Lockdown.1.SystemLockdown"@) is None,
{
    lock_key_lengths();
    let before = before_lock_settings(entry);
    before_lock_keys(entry);
    last_value_absent(before, "Lockdown.1.SystemLockdown"@);
    if bmc.before_lock_request(entry) == bmc.lock_request() {
        let a = bmc.before_lock_request(entry).payload->Json_0->Object_0;
        let b = bmc.lock_request().payload->Json_0->Object_0;
        assert(a[1].1->Object_0.len() == 3);
        assert(b[1].1->Object_0.len() == 1);
    }
}

/// What was written is read back: once a BMC has taken the settings that lock it,
/// its status is locked, and once it has taken those that unlock it, unlocked.
pub proof fn lockdown_is_read_back(attrs: ObjectView, entry: BootDevices, url: Seq<char>)
    ensures
        lockdown_report(
            extended(extended(attrs, before_lock_settings(entry)), lock_settings()),
            url,
        ) matches Ok(report) && report.status == StatusInternal::Enabled,
        lockdown_report(extended(attrs, unlock_settings(entry)), url) matches Ok(report)
            && report.status == StatusInternal::Disabled,
{
    lock_key_lengths();
    reveal_strlit("Enabled");
    reveal_strlit("Disabled");
    let before = before_lock_settings(entry);
    let once = extended(attrs, before);
    before_lock_keys(entry);
    last_value_at(before, 0);
    extended_is_found(attrs, before, "Racadm.1.Enable"@);
    let lock = lock_settings();
    assert(lock.len() == 1 && lock[0] == named("Lockdown.1.SystemLockdown"@, "Enabled"@));
    last_value_at(lock, 0);
    last_value_absent(lock, "Racadm.1.Enable"@);
    extended_is_found(once, lock, "Racadm.1.Enable"@);
    extended_is_found(once, lock, "Lockdown.1.SystemLockdown"@);
    let unlock = unlock_settings(entry);
    assert(unlock.len() == 4);
    assert(unlock[0] == named("Lockdown.1.SystemLockdown"@, "Disabled"@));
    assert(unlock[1] == named("Racadm.1.Enable"@, "Enabled"@));
    assert(unlock[2].0 == "ServerBoot.1.FirstBootDevice"@);
    assert(unlock[3].0 == "ServerBoot.1.BootOnce"@);
    last_value_at(unlock, 0);
    last_value_at(unlock, 1);
    extended_is_found(attrs, unlock, "Racadm.1.Enable"@);
    extended_is_found(attrs, unlock, "Lockdown.1.SystemLockdown"@);
}

proof fn all_on_is_enabled(
    attrs: ObjectView,
    url: Seq<char>,
    list: Seq<(Seq<char>, Seq<char>, Seq<char>)>,
)
    requires
        forall|i: int|
            0 <= i < list.len() ==> lookup(attrs, (#[trigger] list[i]).0) == Some(
                JsonView::Text(list[i].1),
            ),
    ensures
        remote_access_found(attrs, url, list) matches Ok(found) && found.1,
    decreases list.len(),
{
    if list.len() > 0 {
        let init = list.drop_last();
        assert forall|i: int| 0 <= i < init.len() implies lookup(attrs, (#[trigger] init[i]).0)
            == Some(JsonView::Text(init[i].1)) by {
            assert(init[i] == list[i]);
        }
        all_on_is_enabled(attrs, url, init);
        assert(list[list.len() - 1] == list.last());
    }
}

/// What was written is read back: once a BMC has taken the settings that set up
/// remote access, its status is enabled.
pub proof fn remote_access_is_read_back(attrs: ObjectView, url: Seq<char>)
    ensures
        remote_access_report(extended(attrs, remote_access_settings()), url) matches Ok(report)
            && report.status == StatusInternal::Enabled,
{
    reveal_strlit("SSH.1.Enable");
    reveal_strlit("SerialRedirection.1.Enable");
    reveal_strlit("IPMILan.1.Enable");
    reveal_strlit("IPMISOL.1.Enable");
    reveal_strlit("IPMISOL.1.BaudRate");
    reveal_strlit("IPMISOL.1.MinPrivilege");
    let settings = remote_access_settings();
    assert(settings.len() == 6);
    assert(settings[0].0 == "SSH.1.Enable"@);
    assert(settings[1].0 == "SerialRedirection.1.Enable"@);
    assert(settings[2].0 == "IPMILan.1.Enable"@);
    assert(settings[3].0 == "IPMISOL.1.Enable"@);
    assert(settings[4].0 == "IPMISOL.1.BaudRate"@);
    assert(settings[5].0 == "IPMISOL.1.MinPrivilege"@);
    // Two of the keys are of the same length.
    assert("IPMILan.1.Enable"@[4] == 'L' && "IPMISOL.1.Enable"@[4] == 'S');
    let written = extended(attrs, settings);
    assert forall|i: int| 0 <= i < 6 implies lookup(written, (#[trigger] settings[i]).0) == Some(
        settings[i].1,
    ) by {
        last_value_at(settings, i);
        extended_is_found(attrs, settings, settings[i].0);
    }
    let list = remote_access_attributes();
    assert(settings[1].0 == list[0].0 && settings[4].0 == list[1].0 && settings[3].0 == list[2].0
        && settings[5].0 == list[3].0 && settings[0].0 == list[4].0 && settings[2].0 == list[5].0);
    all_on_is_enabled(written, url, list);
}

/// What was written is read back: a BIOS that has taken the settings that set up
/// the serial console reports it as enabled, whether or not it has
/// `RedirAfterBoot`.
pub proof fn serial_console_is_read_back(b: BiosSerial, newer: bool, url: Seq<char>)
    requires
        b.serial_comm.deep_view() == Some(serial_comm(newer).text()),
        b.serial_port_address.deep_view() == Some(serial_port(newer).text()),
        b.ext_serial_connector.deep_view() == Some(SerialPortExtSettings::Serial1.text()),
        b.fail_safe_baud.deep_view() == Some("115200"@),
        b.con_term_type.deep_view() == Some(SerialPortTermSettings::Vt100Vt220.text()),
        b.redir_after_boot.deep_view() == Some("Enabled"@) || b.redir_after_boot is None,
    ensures
        bios_serial_report(b, url) matches Ok(report) && report.status == StatusInternal::Enabled,
{
    reveal_strlit("OnConRedir");
    reveal_strlit("OnConRedirAuto");
    reveal_strlit("OnConRedirCom1");
    reveal_strlit("OnConRedirCom2");
    reveal_strlit("OnNoConRedir");
    reveal_strlit("Off");
}

/// Nothing is both on and off where one of the settings has to be one of the two.
proof fn off_is_not_on(
    attrs: ObjectView,
    url: Seq<char>,
    list: Seq<(Seq<char>, Seq<char>, Seq<char>)>,
    i: int,
)
    requires
        0 <= i < list.len(),
        list[i].1 != list[i].2,
        list[i].2 != "any"@,
    ensures
        remote_access_found(attrs, url, list) matches Ok(found) ==> !(found.1 && found.2),
    decreases list.len(),
{
    if i < list.len() - 1 {
        assert(list.drop_last()[i] == list[i]);
        off_is_not_on(attrs, url, list.drop_last(), i);
    }
}

/// Remote access is never on and off at once.
pub proof fn remote_access_is_not_on_and_off(attrs: ObjectView, url: Seq<char>)
    ensures
        remote_access_found(attrs, url, remote_access_attributes()) matches Ok(found) ==> !(found.1
            && found.2),
{
    reveal_strlit("Enabled");
    reveal_strlit("Disabled");
    reveal_strlit("any");
    assert("Enabled"@.len() == 7 && "Disabled"@.len() == 8 && "any"@.len() == 3);
    off_is_not_on(attrs, url, remote_access_attributes(), 0);
}

/// A serial console is never on and off at once, by the settings of a BIOS that has
/// `SerialComm` or `RedirAfterBoot`.
pub proof fn serial_console_is_not_on_and_off(b: BiosSerial, url: Seq<char>)
    requires
        b.serial_comm is Some || b.redir_after_boot is Some,
    ensures
        serial_reading(b, url) matches Ok(reading) ==> !(reading.0 && reading.1),
{
}

/// Whether a machine has taken the settings `o`, but for the one under `but`.
pub open spec fn taken_but(bios: JsonView, o: ObjectView, but: Seq<char>) -> bool {
    forall|i: int|
        0 <= i < o.len() && (#[trigger] o[i]).0 != but ==> member(bios, o[i].0) == Some(o[i].1)
}

proof fn no_deviations(bios: JsonView, list: Seq<Expectation<Seq<char>>>)
    requires
        forall|i: int|
            0 <= i < list.len() ==> checked(bios, #[trigger] list[i]) == Ok::<_, ErrorView>(
                Seq::<DiffView>::empty(),
            ),
    ensures
        all_checked(bios, list) == Ok::<_, ErrorView>(Seq::<DiffView>::empty()),
    decreases list.len(),
{
    if list.len() > 0 {
        let init = list.drop_last();
        assert forall|i: int| 0 <= i < init.len() implies checked(bios, #[trigger] init[i]) == Ok::<
            _,
            ErrorView,
        >(Seq::<DiffView>::empty()) by {
            assert(init[i] == list[i]);
        }
        no_deviations(bios, init);
        assert(list[list.len() - 1] == list.last());
        assert(Seq::<DiffView>::empty() + Seq::<DiffView>::empty() =~= Seq::empty());
    }
}

/// A machine that has taken the BIOS settings of its setup shows no deviation: the
/// settings were made for the attributes `before`, and the machine has them now,
/// with the TPM enabled again after it was cleared. That it has `RedirAfterBoot`
/// does not depend on the settings.
pub proof fn setup_leaves_no_bios_deviation(before: JsonView, bios: JsonView, nic_slot: Seq<char>)
    requires
        taken_but(bios, bios_object(setup_attrs(before, nic_slot)), "Tpm2Hierarchy"@),
        member(bios, "Tpm2Hierarchy"@) == Some(
            JsonView::Text(Tpm2HierarchySettings::Enabled.text()),
        ),
        member(bios, "RedirAfterBoot"@) is Some == member(before, "RedirAfterBoot"@) is Some,
    ensures
        all_checked(bios, bios_expectations(setup_attrs(bios, nic_slot), bios)) == Ok::<
            _,
            ErrorView,
        >(Seq::<DiffView>::empty()),
{
    let a = setup_attrs(before, nic_slot);
    let o = bios_object(a);
    setup_keeps_the_numbering(before, bios, nic_slot);
    let list = bios_expectations(setup_attrs(bios, nic_slot), bios);
    setup_is_as_expected(before, bios, nic_slot);
    assert forall|i: int| 0 <= i < list.len() implies checked(bios, #[trigger] list[i]) == Ok::<
        _,
        ErrorView,
    >(Seq::<DiffView>::empty()) by {
        assert(member(bios, list[i].key) == Some(JsonView::Text(list[i].expected)));
        assert(list[i].domain.has_name(list[i].expected));
    }
    no_deviations(bios, list);
}

/// The serial ports are still numbered in the same way after the setup.
proof fn setup_keeps_the_numbering(before: JsonView, bios: JsonView, nic_slot: Seq<char>)
    requires
        taken_but(bios, bios_object(setup_attrs(before, nic_slot)), "Tpm2Hierarchy"@),
    ensures
        newer_idrac(bios) == newer_idrac(before),
{
    reveal_strlit("Tpm2Hierarchy");
    reveal_strlit("SerialPortAddress");
    reveal_strlit("Serial1");
    reveal_strlit("Serial1Com2Serial2Com1");
    reveal_strlit("Com1");
    let a = setup_attrs(before, nic_slot);
    let o = bios_object(a);
    assert(o[3] == named("SerialPortAddress"@, a.serial_port_address.text()));
    assert("Serial1Com2Serial2Com1"@.subrange(0, 7) =~= "Serial1"@);
}

/// Each attribute that is looked at has the value that it should have, which is one
/// that it can have.
proof fn setup_is_as_expected(before: JsonView, bios: JsonView, nic_slot: Seq<char>)
    requires
        taken_but(bios, bios_object(setup_attrs(before, nic_slot)), "Tpm2Hierarchy"@),
        member(bios, "Tpm2Hierarchy"@) == Some(
            JsonView::Text(Tpm2HierarchySettings::Enabled.text()),
        ),
        member(bios, "RedirAfterBoot"@) is Some == member(before, "RedirAfterBoot"@) is Some,
        newer_idrac(bios) == newer_idrac(before),
    ensures
        ({
            let list = bios_expectations(setup_attrs(bios, nic_slot), bios);
            forall|i: int|
                0 <= i < list.len() ==> member(bios, (#[trigger] list[i]).key) == Some(
                    JsonView::Text(list[i].expected),
                ) && list[i].domain.has_name(list[i].expected)
        }),
{
    reveal_strlit("InBandManageabilityInterface");
    reveal_strlit("UefiVariableAccess");
    reveal_strlit("SerialComm");
    reveal_strlit("SerialPortAddress");
    reveal_strlit("FailSafeBaud");
    reveal_strlit("ConTermType");
    reveal_strlit("RedirAfterBoot");
    reveal_strlit("SriovGlobalEnable");
    reveal_strlit("TpmSecurity");
    reveal_strlit("Tpm2Hierarchy");
    reveal_strlit("Tpm2Algorithm");
    reveal_strlit("HttpDev1EnDis");
    reveal_strlit("PxeDev1EnDis");
    reveal_strlit("HttpDev1Interface");
    let a = setup_attrs(before, nic_slot);
    let o = bios_object(a);
    let list = bios_expectations(setup_attrs(bios, nic_slot), bios);
    let r: int = if a.redir_after_boot is Some {
        1
    } else {
        0
    };
    let m: int = if a.boot_mode is Some {
        1
    } else {
        0
    };
    assert("Tpm2Algorithm"@[4] == 'A' && "Tpm2Hierarchy"@[4] == 'H');
    assert("HttpDev1EnDis"@[0] == 'H' && "Tpm2Hierarchy"@[0] == 'T');
    assert(o[0] == named("InBandManageabilityInterface"@, list[0].expected));
    assert(o[1] == named("UefiVariableAccess"@, list[1].expected));
    assert(o[2] == named("SerialComm"@, list[2].expected));
    assert(o[3] == named("SerialPortAddress"@, list[3].expected));
    assert(o[4] == named("FailSafeBaud"@, list[4].expected));
    assert(o[5] == named("ConTermType"@, list[5].expected));
    if a.redir_after_boot is Some {
        assert(o[6] == named("RedirAfterBoot"@, list[6].expected));
    }
    assert(o[6 + r] == named("SriovGlobalEnable"@, list[6 + r].expected));
    assert(o[7 + r] == named("TpmSecurity"@, list[7 + r].expected));
    assert(list[8 + r].key == "Tpm2Hierarchy"@);
    assert(o[9 + r] == named("Tpm2Algorithm"@, list[9 + r].expected));
    assert(o[10 + r] == named("HttpDev1EnDis"@, list[10 + r].expected));
    assert(o[11 + r] == named("PxeDev1EnDis"@, list[11 + r].expected));
    assert(o[12 + r + m] == named("HttpDev1Interface"@, list[12 + r].expected));
}

/// A BMC that has taken the settings of the setup shows no deviation among the
/// attributes that the setup changes beside the BIOS.
pub proof fn setup_leaves_no_bmc_deviation(attrs: ObjectView)
    ensures
        oem_all_checked(
            JsonView::Object(extended(attrs, oem_settings(JsonView::Object(attrs)))),
        ) == Ok::<_, ErrorView>(Seq::<DiffView>::empty()),
{
    reveal_strlit("WebServer.1.HostHeaderCheck");
    reveal_strlit("IPMILan.1.Enable");
    reveal_strlit("OS-BMC.1.AdminState");
    let settings = oem_settings(JsonView::Object(attrs));
    assert("WebServer.1.HostHeaderCheck"@.len() == 27);
    assert("IPMILan.1.Enable"@.len() == 16);
    assert("OS-BMC.1.AdminState"@.len() == 19);
    assert(settings[0] == named("WebServer.1.HostHeaderCheck"@, "Disabled"@));
    assert(settings[1] == named("IPMILan.1.Enable"@, "Enabled"@));
    assert(2 <= settings.len() <= 3);
    assert(settings.len() == 3 ==> settings[2].0 == "OS-BMC.1.AdminState"@);
    last_value_at(settings, 0);
    last_value_at(settings, 1);
    extended_is_found(attrs, settings, "WebServer.1.HostHeaderCheck"@);
    extended_is_found(attrs, settings, "IPMILan.1.Enable"@);
    extended_is_found(attrs, settings, "OS-BMC.1.AdminState"@);
    if lookup(attrs, "OS-BMC.1.AdminState"@) is Some {
        assert(settings[2] == named("OS-BMC.1.AdminState"@, "Disabled"@));
        last_value_at(settings, 2);
    } else {
        last_value_absent(settings, "OS-BMC.1.AdminState"@);
    }
    assert(Seq::<DiffView>::empty() + Seq::<DiffView>::empty() =~= Seq::empty());
}

/// Whether each vendor stands once in the profiles, each model once for its vendor and
/// each profile once for its model.
pub open spec fn one_of_each(profiles: Seq<VendorProfiles>) -> bool {
    &&& forall|i: int, j: int|
        0 <= i < profiles.len() && 0 <= j < profiles.len() && (#[trigger] profiles[i]).vendor == (
        #[trigger] profiles[j]).vendor ==> i == j
    &&& forall|i: int| 0 <= i < profiles.len() ==> one_of_each_model((#[trigger] profiles[i]).models@)
}

/// Whether each model stands once, and each profile once for its model.
pub open spec fn one_of_each_model(models: Seq<ModelProfiles>) -> bool {
    &&& forall|i: int, j: int|
        0 <= i < models.len() && 0 <= j < models.len() && (#[trigger] models[i]).model@ == (
        #[trigger] models[j]).model@ ==> i == j
    &&& forall|i: int|
        0 <= i < models.len() ==> one_of_each_profile((#[trigger] models[i]).profiles@)
}

/// Whether each profile stands once.
pub open spec fn one_of_each_profile(profiles: Seq<Profile>) -> bool {
    forall|i: int, j: int|
        0 <= i < profiles.len() && 0 <= j < profiles.len() && (#[trigger] profiles[i]).profile == (
        #[trigger] profiles[j]).profile ==> i == j
}

/// Whether there are profiles for Dell.
pub open spec fn names_dell(profiles: Seq<VendorProfiles>) -> bool {
    exists|i: int| 0 <= i < profiles.len() && (#[trigger] profiles[i]).vendor == RedfishVendor::Dell
}

/// Whether the profiles give `values` for a model of Dell in a profile.
pub open spec fn gives_values(
    profiles: Seq<VendorProfiles>,
    model: Seq<char>,
    profile: BiosProfileType,
    values: ObjectView,
) -> bool {
    exists|i: int, j: int, k: int|
        0 <= i < profiles.len() && 0 <= j < profiles[i].models@.len() && 0 <= k
            < profiles[i].models@[j].profiles@.len() && profiles[i].vendor == RedfishVendor::Dell
            && profiles[i].models@[j].model@ == model && (
        #[trigger] profiles[i].models@[j].profiles@[k]).profile == profile
            && profiles[i].models@[j].profiles@[k].values@ == values
}

/// The extra BIOS values for a model of Dell in a profile.
pub open spec fn dell_values(
    profiles: Seq<VendorProfiles>,
    model: Seq<char>,
    profile: BiosProfileType,
) -> Option<ObjectView> {
    match dell_models(profiles) {
        Some(models) => extra_values(models, model, profile),
        None => None,
    }
}

/// Where each stands once, the extra values for a model in a profile are those that
/// the profiles give for them, wherever these stand.
pub proof fn values_are_found_wherever_they_stand(
    profiles: Seq<VendorProfiles>,
    model: Seq<char>,
    profile: BiosProfileType,
    values: ObjectView,
)
    requires
        one_of_each(profiles),
    ensures
        dell_models(profiles) is Some <==> names_dell(profiles),
        dell_values(profiles, model, profile) == Some(values) <==> gives_values(
            profiles,
            model,
            profile,
            values,
        ),
{
    let is_dell = for_dell();
    let is_model = for_model(model);
    let is_profile = for_profile(profile);
    first_where_is_first(profiles, is_dell);
    if names_dell(profiles) {
        let i = choose|i: int|
            0 <= i < profiles.len() && (#[trigger] profiles[i]).vendor == RedfishVendor::Dell;
        assert(is_dell(profiles[i]));
    }
    if let Some(i) = first_where(profiles, is_dell) {
        assert(profiles[i].vendor == RedfishVendor::Dell);
        let models = profiles[i].models@;
        first_where_is_first(models, is_model);
        if let Some(j) = first_where(models, is_model) {
            let list = models[j].profiles@;
            first_where_is_first(list, is_profile);
            if let Some(k) = first_where(list, is_profile) {
                assert(profiles[i].models@[j].profiles@[k].profile == profile);
            }
        }
    }
    if gives_values(profiles, model, profile, values) {
        let (a, b, c) = choose|a: int, b: int, c: int|
            0 <= a < profiles.len() && 0 <= b < profiles[a].models@.len() && 0 <= c
                < profiles[a].models@[b].profiles@.len() && profiles[a].vendor
                == RedfishVendor::Dell && profiles[a].models@[b].model@ == model && (
            #[trigger] profiles[a].models@[b].profiles@[c]).profile == profile
                && profiles[a].models@[b].profiles@[c].values@ == values;
        let models = profiles[a].models@;
        let list = models[b].profiles@;
        assert(one_of_each_model(models));
        assert(one_of_each_profile(list));
        assert(is_dell(profiles[a]) && is_model(models[b]) && is_profile(list[c]));
        assert forall|i: int| 0 <= i < a implies !is_dell(#[trigger] profiles[i]) by {}
        assert forall|i: int| 0 <= i < b implies !is_model(#[trigger] models[i]) by {}
        assert forall|i: int| 0 <= i < c implies !is_profile(#[trigger] list[i]) by {}
        first_where_found(profiles, is_dell, a);
        first_where_found(models, is_model, b);
        first_where_found(list, is_profile, c);
    }
}

/// The order in which the profiles stand makes no difference where each stands once:
/// lists that give the same values for every model and profile are read in the same
/// way.
pub proof fn profiles_stand_in_any_order(
    a: Seq<VendorProfiles>,
    b: Seq<VendorProfiles>,
    model: Seq<char>,
    profile: BiosProfileType,
)
    requires
        one_of_each(a),
        one_of_each(b),
        names_dell(a) == names_dell(b),
        forall|values: ObjectView|
            #[trigger] gives_values(a, model, profile, values) == gives_values(
                b,
                model,
                profile,
                values,
            ),
    ensures
        dell_models(a) is Some == dell_models(b) is Some,
        dell_values(a, model, profile) == dell_values(b, model, profile),
{
    let x = match dell_values(a, model, profile) {
        Some(values) => values,
        None => Seq::empty(),
    };
    let y = match dell_values(b, model, profile) {
        Some(values) => values,
        None => Seq::empty(),
    };
    values_are_found_wherever_they_stand(a, model, profile, x);
    values_are_found_wherever_they_stand(b, model, profile, x);
    values_are_found_wherever_they_stand(a, model, profile, y);
    values_are_found_wherever_they_stand(b, model, profile, y);
    assert(gives_values(a, model, profile, x) == gives_values(b, model, profile, x));
    assert(gives_values(a, model, profile, y) == gives_values(b, model, profile, y));
}

} // verus!
