//! What is refused on machines of which only the standard is known.
use crate::error::{ErrorView, RedfishError};
use crate::exchange::{Request, Timeout};
use crate::json::Object;
use crate::model::{
    BiosProfileType, Boot, ComponentType, EnabledDisabled, HostPrivilegeLevel, NicMode,
};
use crate::requests::Timestamp;
use crate::standard::RedfishStandard;
use vstd::prelude::*;
use vstd::string::*;

verus! {

/// Whether a call is refused as one that is not supported, with the text `what`.
pub open spec fn refused(r: Result<Request, RedfishError>, what: Seq<char>) -> bool {
    r matches Err(e) && e@ == ErrorView::NotSupported(what)
}

/// Booting depends on the vendor, so it is refused.
pub proof fn boot_calls_are_refused(
    bmc: &RedfishStandard,
    target: Boot,
    boot_array: &[String],
    address: &str,
    boot_interface_mac: &str,
    boot_once: Result<Request, RedfishError>,
    boot_first: Result<Request, RedfishError>,
    change_boot_order: Result<Request, RedfishError>,
    set_boot_order_dpu_first: Result<Request, RedfishError>,
    is_boot_order_setup: Result<Request, RedfishError>,
    enable_infinite_boot: Result<Request, RedfishError>,
    clear_nvram: Result<Request, RedfishError>,
)
    requires
        call_ensures(RedfishStandard::boot_once, (bmc, target), boot_once),
        call_ensures(RedfishStandard::boot_first, (bmc, target), boot_first),
        call_ensures(RedfishStandard::change_boot_order, (bmc, boot_array), change_boot_order),
        call_ensures(
            RedfishStandard::set_boot_order_dpu_first,
            (bmc, address),
            set_boot_order_dpu_first,
        ),
        call_ensures(
            RedfishStandard::is_boot_order_setup,
            (bmc, boot_interface_mac),
            is_boot_order_setup,
        ),
        call_ensures(RedfishStandard::enable_infinite_boot, (bmc,), enable_infinite_boot),
        call_ensures(RedfishStandard::clear_nvram, (bmc,), clear_nvram),
    ensures
        refused(boot_once, "boot_once"@),
        refused(boot_first, "boot_first"@),
        refused(change_boot_order, "change_boot_order"@),
        refused(set_boot_order_dpu_first, "set_boot_order_dpu_first"@),
        refused(is_boot_order_setup, "is_boot_order_setup"@),
        refused(enable_infinite_boot, "enable_infinite_boot"@),
        refused(clear_nvram, "clear_nvram"@),
{
}

/// Setting a machine up depends on the vendor, so it is refused.
pub proof fn setup_calls_are_refused(
    bmc: &RedfishStandard,
    values: &Object,
    interface: Option<&str>,
    selected_profile: BiosProfileType,
    set_bios: Result<Request, RedfishError>,
    reset_bios: Result<Request, RedfishError>,
    machine_setup: Result<Request, RedfishError>,
    machine_setup_status: Result<Request, RedfishError>,
    is_bios_setup: Result<Request, RedfishError>,
    setup_serial_console: Result<Request, RedfishError>,
    serial_console_status: Result<Request, RedfishError>,
    clear_tpm: Result<Request, RedfishError>,
    disable_psu_hot_spare: Result<Request, RedfishError>,
)
    requires
        call_ensures(RedfishStandard::set_bios, (bmc, values), set_bios),
        call_ensures(RedfishStandard::reset_bios, (bmc,), reset_bios),
        call_ensures(
            RedfishStandard::machine_setup,
            (bmc, interface, selected_profile),
            machine_setup,
        ),
        call_ensures(
            RedfishStandard::machine_setup_status,
            (bmc, interface),
            machine_setup_status,
        ),
        call_ensures(RedfishStandard::is_bios_setup, (bmc, interface), is_bios_setup),
        call_ensures(RedfishStandard::setup_serial_console, (bmc,), setup_serial_console),
        call_ensures(RedfishStandard::serial_console_status, (bmc,), serial_console_status),
        call_ensures(RedfishStandard::clear_tpm, (bmc,), clear_tpm),
        call_ensures(RedfishStandard::disable_psu_hot_spare, (bmc,), disable_psu_hot_spare),
    ensures
        refused(set_bios, "set_bios is vendor specific and not available on this platform"@),
        refused(reset_bios, "reset_bios is vendor specific and not available on this platform"@),
        refused(machine_setup, "machine_setup"@),
        refused(machine_setup_status, "machine_setup_status"@),
        refused(is_bios_setup, "is_bios_setup"@),
        refused(setup_serial_console, "setup_serial_console"@),
        refused(serial_console_status, "setup_serial_console"@),
        refused(clear_tpm, "clear_tpm"@),
        refused(disable_psu_hot_spare, "disable_psu_hot_spare"@),
{
}

/// Locking a machine down depends on the vendor, so it is refused.
pub proof fn lockdown_calls_are_refused(
    bmc: &RedfishStandard,
    target: EnabledDisabled,
    enabled: EnabledDisabled,
    level: HostPrivilegeLevel,
    lockdown: Result<Request, RedfishError>,
    lockdown_status: Result<Request, RedfishError>,
    set_idrac_lockdown: Result<Request, RedfishError>,
    set_host_privilege_level: Result<Request, RedfishError>,
)
    requires
        call_ensures(RedfishStandard::lockdown, (bmc, target), lockdown),
        call_ensures(RedfishStandard::lockdown_status, (bmc,), lockdown_status),
        call_ensures(RedfishStandard::set_idrac_lockdown, (bmc, enabled), set_idrac_lockdown),
        call_ensures(
            RedfishStandard::set_host_privilege_level,
            (bmc, level),
            set_host_privilege_level,
        ),
    ensures
        refused(lockdown, "lockdown"@),
        refused(lockdown_status, "lockdown_status"@),
        refused(set_idrac_lockdown, "set_idrac_lockdown"@),
        refused(set_host_privilege_level, "set_host_privilege_level"@),
{
}

/// Logs, sensors, jobs, firmware and storage depend on the vendor, so they are refused.
pub proof fn log_calls_are_refused(
    bmc: &RedfishStandard,
    from: Option<Timestamp>,
    job_id: &str,
    reboot: bool,
    timeout: Timeout,
    component_type: ComponentType,
    component_integrity_id: &str,
    controller_id: &str,
    volume_name: &str,
    get_system_event_log: Result<Request, RedfishError>,
    get_bmc_event_log: Result<Request, RedfishError>,
    get_gpu_sensors: Result<Request, RedfishError>,
    get_job_state: Result<Request, RedfishError>,
    update_firmware_multipart: Result<Request, RedfishError>,
    get_firmware_for_component: Result<Request, RedfishError>,
    decommission_storage_controller: Result<Request, RedfishError>,
    create_storage_volume: Result<Request, RedfishError>,
)
    requires
        call_ensures(RedfishStandard::get_system_event_log, (bmc,), get_system_event_log),
        call_ensures(RedfishStandard::get_bmc_event_log, (bmc, from), get_bmc_event_log),
        call_ensures(RedfishStandard::get_gpu_sensors, (bmc,), get_gpu_sensors),
        call_ensures(RedfishStandard::get_job_state, (bmc, job_id), get_job_state),
        call_ensures(
            RedfishStandard::update_firmware_multipart,
            (bmc, reboot, timeout, component_type),
            update_firmware_multipart,
        ),
        call_ensures(
            RedfishStandard::get_firmware_for_component,
            (bmc, component_integrity_id),
            get_firmware_for_component,
        ),
        call_ensures(
            RedfishStandard::decommission_storage_controller,
            (bmc, controller_id),
            decommission_storage_controller,
        ),
        call_ensures(
            RedfishStandard::create_storage_volume,
            (bmc, controller_id, volume_name),
            create_storage_volume,
        ),
    ensures
        refused(get_system_event_log, "SEL"@),
        refused(get_bmc_event_log, "BMC Event Log"@),
        refused(get_gpu_sensors, "No GPUs on this machine"@),
        refused(get_job_state, "get_job_state"@),
        refused(
            update_firmware_multipart,
            "Multipart firmware updates not currently supported on this platform"@,
        ),
        refused(get_firmware_for_component, "Not implemented for the given vendor."@),
        refused(decommission_storage_controller, "decommission_storage_controller"@),
        refused(create_storage_volume, "create_storage_volume"@),
{
}

/// Network cards depend on the vendor, so calls on them are refused.
pub proof fn network_calls_are_refused(
    bmc: &RedfishStandard,
    system_id: &str,
    id: &str,
    chassis_id: &str,
    port: Option<&str>,
    network_adapter: &str,
    mode: NicMode,
    enabled: EnabledDisabled,
    get_base_network_adapters: Result<Request, RedfishError>,
    get_base_network_adapter: Result<Request, RedfishError>,
    get_network_device_functions: Result<Request, RedfishError>,
    get_network_device_function: Result<Request, RedfishError>,
    get_ports: Result<Request, RedfishError>,
    get_port: Result<Request, RedfishError>,
    get_base_mac_address: Result<Request, RedfishError>,
    enable_rshim_bmc: Result<Request, RedfishError>,
    set_nic_mode: Result<Request, RedfishError>,
    set_host_rshim: Result<Request, RedfishError>,
)
    requires
        call_ensures(
            RedfishStandard::get_base_network_adapters,
            (bmc, system_id),
            get_base_network_adapters,
        ),
        call_ensures(
            RedfishStandard::get_base_network_adapter,
            (bmc, system_id, id),
            get_base_network_adapter,
        ),
        call_ensures(
            RedfishStandard::get_network_device_functions,
            (bmc, chassis_id),
            get_network_device_functions,
        ),
        call_ensures(
            RedfishStandard::get_network_device_function,
            (bmc, chassis_id, id, port),
            get_network_device_function,
        ),
        call_ensures(RedfishStandard::get_ports, (bmc, chassis_id, network_adapter), get_ports),
        call_ensures(RedfishStandard::get_port, (bmc, chassis_id, network_adapter, id), get_port),
        call_ensures(RedfishStandard::get_base_mac_address, (bmc,), get_base_mac_address),
        call_ensures(RedfishStandard::enable_rshim_bmc, (bmc,), enable_rshim_bmc),
        call_ensures(RedfishStandard::set_nic_mode, (bmc, mode), set_nic_mode),
        call_ensures(RedfishStandard::set_host_rshim, (bmc, enabled), set_host_rshim),
    ensures
        refused(get_base_network_adapters, "BaseNetworkAdapter is only supported in iLO5"@),
        refused(get_base_network_adapter, "BaseNetworkAdapter is only supported in iLO5"@),
        refused(get_network_device_functions, "get_network_device_functions"@),
        refused(get_network_device_function, "get_network_device_function"@),
        refused(get_ports, "get_ports"@),
        refused(get_port, "get_port"@),
        refused(get_base_mac_address, "get_base_mac_address"@),
        refused(enable_rshim_bmc, "enable_rshim_bmc"@),
        refused(set_nic_mode, "set_nic_mode"@),
        refused(set_host_rshim, "set_host_rshim"@),
{
}

/// What the standard says nothing of is not known, and what it needs no request for is done.
pub proof fn the_rest_is_left_open(
    bmc: &RedfishStandard,
    target: EnabledDisabled,
    nic_mode: Result<Option<NicMode>, RedfishError>,
    infinite: Result<Option<bool>, RedfishError>,
    rshim: Result<Option<EnabledDisabled>, RedfishError>,
    boss: Result<Option<String>, RedfishError>,
    lockdown: Result<(), RedfishError>,
    timezone: Result<(), RedfishError>,
)
    requires
        call_ensures(RedfishStandard::get_nic_mode, (bmc,), nic_mode),
        call_ensures(RedfishStandard::is_infinite_boot_enabled, (bmc,), infinite),
        call_ensures(RedfishStandard::get_host_rshim, (bmc,), rshim),
        call_ensures(RedfishStandard::get_boss_controller, (bmc,), boss),
        call_ensures(RedfishStandard::lockdown_bmc, (bmc, target), lockdown),
        call_ensures(RedfishStandard::set_utc_timezone, (bmc,), timezone),
    ensures
        nic_mode matches Ok(v) && v is None,
        infinite matches Ok(v) && v is None,
        rshim matches Ok(v) && v is None,
        boss matches Ok(v) && v is None,
        lockdown is Ok,
        timezone is Ok,
{
}

} // verus!
