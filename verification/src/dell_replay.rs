//! Why the operations on Dell machines can be called again from the start with one
//! reply more: once one has finished, more replies change nothing.
use crate::dell::{function_among, job_flow, Bmc, VendorProfiles, MAX_ACCOUNT_ID};
use crate::dell_actions::free_account;
use crate::dell_settings::BootDevices;
use crate::exchange::{fetched, get, Flow, Reply, RequestView, Tape};
use crate::json::{JsonView, ObjectView};
use crate::model::{
    BiosProfileType, DiffView, EnabledDisabled, ManagerAccount, Members, NetworkAdapter,
    NetworkDeviceFunction, RoleId, SystemPowerControl,
};
use crate::replay::{fetched_holds, grown, sent_holds, stays};
use crate::requests::collection_request;
use crate::standard::RedfishStandard;
use crate::standard_replay::{
    bios_attributes_is_stable, boot_options_at_is_stable, power_state_is_stable, system_is_stable,
};
use crate::text::decimal;
use vstd::prelude::*;
use vstd::string::*;

verus! {

/// What `function_among` has come to stays so.
pub broadcast proof fn function_among_is_stable(
    adapters: Seq<NetworkAdapter>,
    mac: Seq<char>,
    t: Tape,
    more: Seq<Reply>,
)
    ensures
        stays(
            function_among(adapters, mac, t),
            #[trigger] function_among(adapters, mac, grown(t, more)),
            more,
        ),
    decreases adapters.len(),
{
    broadcast use fetched_holds;

    if adapters.len() > 0 {
        match adapters[0].network_device_functions {
            None => {
                function_among_is_stable(adapters.drop_first(), mac, t, more);
            },
            Some(link) => {
                if let Flow::Ready(functions, u) = fetched::<Members<NetworkDeviceFunction>>(
                    collection_request(link.odata_id@),
                    t,
                ) {
                    function_among_is_stable(adapters.drop_first(), mac, u, more);
                }
            },
        }
    }
}

/// What `job_flow` has come to stays so.
pub broadcast proof fn job_is_stable(request: RequestView, t: Tape, more: Seq<Reply>)
    ensures
        stays(job_flow(request, t), #[trigger] job_flow(request, grown(t, more)), more),
{
    broadcast use fetched_holds;

}

/// What `manager_attributes_flow` has come to stays so.
pub broadcast proof fn manager_attributes_is_stable(bmc: Bmc, t: Tape, more: Seq<Reply>)
    ensures
        stays(
            bmc.manager_attributes_flow(t),
            #[trigger] bmc.manager_attributes_flow(grown(t, more)),
            more,
        ),
{
    broadcast use fetched_holds;

}

/// What `manager_dell_oem_attributes_flow` has come to stays so.
pub broadcast proof fn manager_dell_oem_attributes_is_stable(
    bmc: Bmc,
    t: Tape,
    more: Seq<Reply>,
)
    ensures
        stays(
            bmc.manager_dell_oem_attributes_flow(t),
            #[trigger] bmc.manager_dell_oem_attributes_flow(grown(t, more)),
            more,
        ),
{
    broadcast use fetched_holds;

}

/// What `is_lockdown_flow` has come to stays so.
pub broadcast proof fn is_lockdown_is_stable(bmc: Bmc, t: Tape, more: Seq<Reply>)
    ensures
        stays(bmc.is_lockdown_flow(t), #[trigger] bmc.is_lockdown_flow(grown(t, more)), more),
{
    broadcast use manager_attributes_is_stable;

}

/// What `lockdown_status_flow` has come to stays so.
pub broadcast proof fn lockdown_status_is_stable(bmc: Bmc, t: Tape, more: Seq<Reply>)
    ensures
        stays(
            bmc.lockdown_status_flow(t),
            #[trigger] bmc.lockdown_status_flow(grown(t, more)),
            more,
        ),
{
    broadcast use manager_attributes_is_stable;

}

/// What `bmc_remote_access_status_flow` has come to stays so.
pub broadcast proof fn bmc_remote_access_status_is_stable(bmc: Bmc, t: Tape, more: Seq<Reply>)
    ensures
        stays(
            bmc.bmc_remote_access_status_flow(t),
            #[trigger] bmc.bmc_remote_access_status_flow(grown(t, more)),
            more,
        ),
{
    broadcast use manager_attributes_is_stable;

}

/// What `bios_serial_console_status_flow` has come to stays so.
pub broadcast proof fn bios_serial_console_status_is_stable(bmc: Bmc, t: Tape, more: Seq<Reply>)
    ensures
        stays(
            bmc.bios_serial_console_status_flow(t),
            #[trigger] bmc.bios_serial_console_status_flow(grown(t, more)),
            more,
        ),
{
    broadcast use fetched_holds;

}

/// What `serial_console_status_flow` has come to stays so.
pub broadcast proof fn serial_console_status_is_stable(bmc: Bmc, t: Tape, more: Seq<Reply>)
    ensures
        stays(
            bmc.serial_console_status_flow(t),
            #[trigger] bmc.serial_console_status_flow(grown(t, more)),
            more,
        ),
{
    broadcast use {bmc_remote_access_status_is_stable, bios_serial_console_status_is_stable};

}

/// What `dpu_nw_device_function_flow` has come to stays so.
pub broadcast proof fn dpu_nw_device_function_is_stable(
    bmc: Bmc,
    mac: Seq<char>,
    t: Tape,
    more: Seq<Reply>,
)
    ensures
        stays(
            bmc.dpu_nw_device_function_flow(mac, t),
            #[trigger] bmc.dpu_nw_device_function_flow(mac, grown(t, more)),
            more,
        ),
{
    broadcast use {fetched_holds, function_among_is_stable};

}

/// What `dell_nic_info_flow` has come to stays so.
pub broadcast proof fn dell_nic_info_is_stable(
    bmc: Bmc,
    mac: Seq<char>,
    t: Tape,
    more: Seq<Reply>,
)
    ensures
        stays(
            bmc.dell_nic_info_flow(mac, t),
            #[trigger] bmc.dell_nic_info_flow(mac, grown(t, more)),
            more,
        ),
{
    broadcast use dpu_nw_device_function_is_stable;

}

/// What `dpu_nic_slot_flow` has come to stays so.
pub broadcast proof fn dpu_nic_slot_is_stable(
    bmc: Bmc,
    mac: Seq<char>,
    t: Tape,
    more: Seq<Reply>,
)
    ensures
        stays(
            bmc.dpu_nic_slot_flow(mac, t),
            #[trigger] bmc.dpu_nic_slot_flow(mac, grown(t, more)),
            more,
        ),
{
    broadcast use dell_nic_info_is_stable;

}

/// What `nic_slot_flow` has come to stays so.
pub broadcast proof fn nic_slot_is_stable(
    bmc: Bmc,
    mac: Option<Seq<char>>,
    t: Tape,
    more: Seq<Reply>,
)
    ensures
        stays(bmc.nic_slot_flow(mac, t), #[trigger] bmc.nic_slot_flow(mac, grown(t, more)), more),
{
    broadcast use dpu_nic_slot_is_stable;

}

/// What `machine_setup_attrs_flow` has come to stays so.
pub broadcast proof fn machine_setup_attrs_is_stable(
    bmc: Bmc,
    nic_slot: Seq<char>,
    t: Tape,
    more: Seq<Reply>,
)
    ensures
        stays(
            bmc.machine_setup_attrs_flow(nic_slot, t),
            #[trigger] bmc.machine_setup_attrs_flow(nic_slot, grown(t, more)),
            more,
        ),
{
    broadcast use bios_attributes_is_stable;

}

/// What `diff_bmc_flow` has come to stays so.
pub broadcast proof fn diff_bmc_is_stable(
    bmc: Bmc,
    diffs: Seq<DiffView>,
    t: Tape,
    more: Seq<Reply>,
)
    ensures
        stays(
            bmc.diff_bmc_flow(diffs, t),
            #[trigger] bmc.diff_bmc_flow(diffs, grown(t, more)),
            more,
        ),
{
    broadcast use {manager_dell_oem_attributes_is_stable, bmc_remote_access_status_is_stable};

}

/// What `diff_bios_bmc_attr_flow` has come to stays so.
pub broadcast proof fn diff_bios_bmc_attr_is_stable(
    bmc: Bmc,
    mac: Option<Seq<char>>,
    t: Tape,
    more: Seq<Reply>,
)
    ensures
        stays(
            bmc.diff_bios_bmc_attr_flow(mac, t),
            #[trigger] bmc.diff_bios_bmc_attr_flow(mac, grown(t, more)),
            more,
        ),
{
    broadcast use {
        bios_attributes_is_stable,
        nic_slot_is_stable,
        machine_setup_attrs_is_stable,
        diff_bmc_is_stable,
    };

}

/// What `free_account` has come to stays so.
pub broadcast proof fn free_account_is_stable(id: nat, t: Tape, more: Seq<Reply>)
    ensures
        stays(free_account(id, t), #[trigger] free_account(id, grown(t, more)), more),
    decreases MAX_ACCOUNT_ID + 1 - id,
{
    broadcast use fetched_holds;

    if id <= MAX_ACCOUNT_ID {
        if let Flow::Ready(account, u) = fetched::<ManagerAccount>(
            get("AccountService/Accounts/"@ + decimal(id)),
            t,
        ) {
            free_account_is_stable(id + 1, u, more);
        }
    }
}

/// What `power_flow` has come to stays so.
pub broadcast proof fn standard_power_is_stable(
    s: RedfishStandard,
    action: SystemPowerControl,
    t: Tape,
    more: Seq<Reply>,
)
    ensures
        stays(s.power_flow(action, t), #[trigger] s.power_flow(action, grown(t, more)), more),
{
    broadcast use sent_holds;

}

/// What `create_user_flow` has come to stays so.
pub broadcast proof fn create_user_is_stable(
    bmc: Bmc,
    username: Seq<char>,
    password: Seq<char>,
    role_id: RoleId,
    t: Tape,
    more: Seq<Reply>,
)
    ensures
        stays(
            bmc.create_user_flow(username, password, role_id, t),
            #[trigger] bmc.create_user_flow(username, password, role_id, grown(t, more)),
            more,
        ),
{
    broadcast use {sent_holds, free_account_is_stable};

}

/// What `delete_job_queue_flow` has come to stays so.
pub broadcast proof fn delete_job_queue_is_stable(bmc: Bmc, t: Tape, more: Seq<Reply>)
    ensures
        stays(
            bmc.delete_job_queue_flow(t),
            #[trigger] bmc.delete_job_queue_flow(grown(t, more)),
            more,
        ),
{
    broadcast use {sent_holds, is_lockdown_is_stable};

}

/// What `is_infinite_boot_enabled_flow` has come to stays so.
pub broadcast proof fn is_infinite_boot_enabled_is_stable(bmc: Bmc, t: Tape, more: Seq<Reply>)
    ensures
        stays(
            bmc.is_infinite_boot_enabled_flow(t),
            #[trigger] bmc.is_infinite_boot_enabled_flow(grown(t, more)),
            more,
        ),
{
    broadcast use fetched_holds;

}

/// What `clear_tpm_flow` has come to stays so.
pub broadcast proof fn clear_tpm_is_stable(bmc: Bmc, t: Tape, more: Seq<Reply>)
    ensures
        stays(bmc.clear_tpm_flow(t), #[trigger] bmc.clear_tpm_flow(grown(t, more)), more),
{
    broadcast use {sent_holds, delete_job_queue_is_stable};

}

/// What `enable_bmc_lockdown_flow` has come to stays so.
pub broadcast proof fn enable_bmc_lockdown_is_stable(
    bmc: Bmc,
    entry: BootDevices,
    t: Tape,
    more: Seq<Reply>,
)
    ensures
        stays(
            bmc.enable_bmc_lockdown_flow(entry, t),
            #[trigger] bmc.enable_bmc_lockdown_flow(entry, grown(t, more)),
            more,
        ),
{
    broadcast use sent_holds;

}

/// What `disable_bios_lockdown_flow` has come to stays so.
pub broadcast proof fn disable_bios_lockdown_is_stable(bmc: Bmc, t: Tape, more: Seq<Reply>)
    ensures
        stays(
            bmc.disable_bios_lockdown_flow(t),
            #[trigger] bmc.disable_bios_lockdown_flow(grown(t, more)),
            more,
        ),
{
    broadcast use sent_holds;

}

/// What `lockdown_bmc_flow` has come to stays so.
pub broadcast proof fn lockdown_bmc_is_stable(
    bmc: Bmc,
    target: EnabledDisabled,
    t: Tape,
    more: Seq<Reply>,
)
    ensures
        stays(
            bmc.lockdown_bmc_flow(target, t),
            #[trigger] bmc.lockdown_bmc_flow(target, grown(t, more)),
            more,
        ),
{
    broadcast use {sent_holds, system_is_stable, enable_bmc_lockdown_is_stable};

}

/// What `lockdown_flow` has come to stays so.
pub broadcast proof fn lockdown_is_stable(
    bmc: Bmc,
    target: EnabledDisabled,
    t: Tape,
    more: Seq<Reply>,
)
    ensures
        stays(
            bmc.lockdown_flow(target, t),
            #[trigger] bmc.lockdown_flow(target, grown(t, more)),
            more,
        ),
{
    broadcast use {disable_bios_lockdown_is_stable, lockdown_bmc_is_stable};

}

/// What `setup_bmc_remote_access_flow` has come to stays so.
pub broadcast proof fn setup_bmc_remote_access_is_stable(bmc: Bmc, t: Tape, more: Seq<Reply>)
    ensures
        stays(
            bmc.setup_bmc_remote_access_flow(t),
            #[trigger] bmc.setup_bmc_remote_access_flow(grown(t, more)),
            more,
        ),
{
    broadcast use sent_holds;

}

/// What `setup_serial_console_flow` has come to stays so.
pub broadcast proof fn setup_serial_console_is_stable(bmc: Bmc, t: Tape, more: Seq<Reply>)
    ensures
        stays(
            bmc.setup_serial_console_flow(t),
            #[trigger] bmc.setup_serial_console_flow(grown(t, more)),
            more,
        ),
{
    broadcast use {
        sent_holds,
        bios_attributes_is_stable,
        delete_job_queue_is_stable,
        setup_bmc_remote_access_is_stable,
    };

}

/// What `machine_setup_oem_flow` has come to stays so.
pub broadcast proof fn machine_setup_oem_is_stable(bmc: Bmc, t: Tape, more: Seq<Reply>)
    ensures
        stays(
            bmc.machine_setup_oem_flow(t),
            #[trigger] bmc.machine_setup_oem_flow(grown(t, more)),
            more,
        ),
{
    broadcast use {sent_holds, manager_dell_oem_attributes_is_stable};

}

/// What `with_extra_values_flow` has come to stays so.
pub broadcast proof fn with_extra_values_is_stable(
    bmc: Bmc,
    body: ObjectView,
    profiles: Seq<VendorProfiles>,
    selected: BiosProfileType,
    t: Tape,
    more: Seq<Reply>,
)
    ensures
        stays(
            bmc.with_extra_values_flow(body, profiles, selected, t),
            #[trigger] bmc.with_extra_values_flow(body, profiles, selected, grown(t, more)),
            more,
        ),
{
    broadcast use system_is_stable;

}

/// What `apply_setup_flow` has come to stays so.
pub broadcast proof fn apply_setup_is_stable(
    bmc: Bmc,
    body: ObjectView,
    has_dpu: bool,
    t: Tape,
    more: Seq<Reply>,
)
    ensures
        stays(
            bmc.apply_setup_flow(body, has_dpu, t),
            #[trigger] bmc.apply_setup_flow(body, has_dpu, grown(t, more)),
            more,
        ),
{
    broadcast use {job_is_stable, setup_bmc_remote_access_is_stable, machine_setup_oem_is_stable};

}

/// What `machine_setup_flow` has come to stays so.
pub broadcast proof fn machine_setup_is_stable(
    bmc: Bmc,
    mac: Option<Seq<char>>,
    profiles: Seq<VendorProfiles>,
    selected: BiosProfileType,
    t: Tape,
    more: Seq<Reply>,
)
    ensures
        stays(
            bmc.machine_setup_flow(mac, profiles, selected, t),
            #[trigger] bmc.machine_setup_flow(mac, profiles, selected, grown(t, more)),
            more,
        ),
{
    broadcast use {
        nic_slot_is_stable,
        machine_setup_attrs_is_stable,
        delete_job_queue_is_stable,
        with_extra_values_is_stable,
        apply_setup_is_stable,
    };

}

/// What `perform_ac_power_cycle_flow` has come to stays so.
pub broadcast proof fn perform_ac_power_cycle_is_stable(bmc: Bmc, t: Tape, more: Seq<Reply>)
    ensures
        stays(
            bmc.perform_ac_power_cycle_flow(t),
            #[trigger] bmc.perform_ac_power_cycle_flow(grown(t, more)),
            more,
        ),
{
    broadcast use {
        sent_holds,
        power_state_is_stable,
        standard_power_is_stable,
        delete_job_queue_is_stable,
    };

}

/// What `power_flow` has come to stays so.
pub broadcast proof fn power_is_stable(
    bmc: Bmc,
    action: SystemPowerControl,
    t: Tape,
    more: Seq<Reply>,
)
    ensures
        stays(bmc.power_flow(action, t), #[trigger] bmc.power_flow(action, grown(t, more)), more),
{
    broadcast use {
        bios_attributes_is_stable,
        is_lockdown_is_stable,
        standard_power_is_stable,
        perform_ac_power_cycle_is_stable,
    };

}

/// What `change_uefi_password_flow` has come to stays so.
pub broadcast proof fn change_uefi_password_is_stable(
    bmc: Bmc,
    current: Seq<char>,
    new: Seq<char>,
    t: Tape,
    more: Seq<Reply>,
)
    ensures
        stays(
            bmc.change_uefi_password_flow(current, new, t),
            #[trigger] bmc.change_uefi_password_flow(current, new, grown(t, more)),
            more,
        ),
{
    broadcast use {sent_holds, job_is_stable, is_lockdown_is_stable};

}

/// What `clear_uefi_password_flow` has come to stays so.
pub broadcast proof fn clear_uefi_password_is_stable(
    bmc: Bmc,
    current: Seq<char>,
    t: Tape,
    more: Seq<Reply>,
)
    ensures
        stays(
            bmc.clear_uefi_password_flow(current, t),
            #[trigger] bmc.clear_uefi_password_flow(current, grown(t, more)),
            more,
        ),
{
    broadcast use {job_is_stable, change_uefi_password_is_stable};

}

/// What `job_state_flow` has come to stays so.
pub broadcast proof fn job_state_is_stable(bmc: Bmc, id: Seq<char>, t: Tape, more: Seq<Reply>)
    ensures
        stays(bmc.job_state_flow(id, t), #[trigger] bmc.job_state_flow(id, grown(t, more)), more),
{
    broadcast use fetched_holds;

}

/// What `expected_boot_option_flow` has come to stays so.
pub broadcast proof fn expected_boot_option_is_stable(
    bmc: Bmc,
    mac: Seq<char>,
    t: Tape,
    more: Seq<Reply>,
)
    ensures
        stays(
            bmc.expected_boot_option_flow(mac, t),
            #[trigger] bmc.expected_boot_option_flow(mac, grown(t, more)),
            more,
        ),
{
    broadcast use dell_nic_info_is_stable;

}

/// What `boot_order_flow` has come to stays so.
pub broadcast proof fn boot_order_is_stable(bmc: Bmc, t: Tape, more: Seq<Reply>)
    ensures
        stays(bmc.boot_order_flow(t), #[trigger] bmc.boot_order_flow(grown(t, more)), more),
{
    broadcast use {fetched_holds, boot_options_at_is_stable};

}

/// What `first_boot_option_flow` has come to stays so.
pub broadcast proof fn first_boot_option_is_stable(
    bmc: Bmc,
    mac: Seq<char>,
    t: Tape,
    more: Seq<Reply>,
)
    ensures
        stays(
            bmc.first_boot_option_flow(mac, t),
            #[trigger] bmc.first_boot_option_flow(mac, grown(t, more)),
            more,
        ),
{
    broadcast use {expected_boot_option_is_stable, boot_order_is_stable};

}

/// What `machine_setup_status_flow` has come to stays so.
pub broadcast proof fn machine_setup_status_is_stable(
    bmc: Bmc,
    mac: Option<Seq<char>>,
    t: Tape,
    more: Seq<Reply>,
)
    ensures
        stays(
            bmc.machine_setup_status_flow(mac, t),
            #[trigger] bmc.machine_setup_status_flow(mac, grown(t, more)),
            more,
        ),
{
    broadcast use {
        lockdown_status_is_stable,
        diff_bios_bmc_attr_is_stable,
        first_boot_option_is_stable,
    };

}

/// What `set_boot_order_dpu_first_flow` has come to stays so.
pub broadcast proof fn set_boot_order_dpu_first_is_stable(
    bmc: Bmc,
    mac: Seq<char>,
    t: Tape,
    more: Seq<Reply>,
)
    ensures
        stays(
            bmc.set_boot_order_dpu_first_flow(mac, t),
            #[trigger] bmc.set_boot_order_dpu_first_flow(mac, grown(t, more)),
            more,
        ),
{
    broadcast use {job_is_stable, expected_boot_option_is_stable, boot_order_is_stable};

}

/// What `boss_controller_flow` has come to stays so.
pub broadcast proof fn boss_controller_is_stable(bmc: Bmc, t: Tape, more: Seq<Reply>)
    ensures
        stays(
            bmc.boss_controller_flow(t),
            #[trigger] bmc.boss_controller_flow(grown(t, more)),
            more,
        ),
{
    broadcast use fetched_holds;

}

/// What `lifecycle_controller_status_flow` has come to stays so.
pub broadcast proof fn lifecycle_controller_status_is_stable(
    bmc: Bmc,
    t: Tape,
    more: Seq<Reply>,
)
    ensures
        stays(
            bmc.lifecycle_controller_status_flow(t),
            #[trigger] bmc.lifecycle_controller_status_flow(grown(t, more)),
            more,
        ),
{
    broadcast use fetched_holds;

}

/// What `lifecycle_controller_is_ready_flow` has come to stays so.
pub broadcast proof fn lifecycle_controller_is_ready_is_stable(
    bmc: Bmc,
    t: Tape,
    more: Seq<Reply>,
)
    ensures
        stays(
            bmc.lifecycle_controller_is_ready_flow(t),
            #[trigger] bmc.lifecycle_controller_is_ready_flow(grown(t, more)),
            more,
        ),
{
    broadcast use lifecycle_controller_status_is_stable;

}

/// What `decommission_controller_flow` has come to stays so.
pub broadcast proof fn decommission_controller_is_stable(
    bmc: Bmc,
    id: Seq<char>,
    t: Tape,
    more: Seq<Reply>,
)
    ensures
        stays(
            bmc.decommission_controller_flow(id, t),
            #[trigger] bmc.decommission_controller_flow(id, grown(t, more)),
            more,
        ),
{
    broadcast use {job_is_stable, lifecycle_controller_is_ready_is_stable};

}

/// What `storage_drives_flow` has come to stays so.
pub broadcast proof fn storage_drives_is_stable(
    bmc: Bmc,
    id: Seq<char>,
    t: Tape,
    more: Seq<Reply>,
)
    ensures
        stays(
            bmc.storage_drives_flow(id, t),
            #[trigger] bmc.storage_drives_flow(id, grown(t, more)),
            more,
        ),
{
    broadcast use fetched_holds;

}

/// What `create_volume_flow` has come to stays so.
pub broadcast proof fn create_volume_is_stable(
    bmc: Bmc,
    id: Seq<char>,
    name: Seq<char>,
    raid: Seq<char>,
    drives: JsonView,
    t: Tape,
    more: Seq<Reply>,
)
    ensures
        stays(
            bmc.create_volume_flow(id, name, raid, drives, t),
            #[trigger] bmc.create_volume_flow(id, name, raid, drives, grown(t, more)),
            more,
        ),
{
    broadcast use {job_is_stable, lifecycle_controller_is_ready_is_stable};

}

/// What `create_storage_volume_flow` has come to stays so.
pub broadcast proof fn create_storage_volume_is_stable(
    bmc: Bmc,
    id: Seq<char>,
    name: Seq<char>,
    t: Tape,
    more: Seq<Reply>,
)
    ensures
        stays(
            bmc.create_storage_volume_flow(id, name, t),
            #[trigger] bmc.create_storage_volume_flow(id, name, grown(t, more)),
            more,
        ),
{
    broadcast use {storage_drives_is_stable, create_volume_is_stable};

}

} // verus!
