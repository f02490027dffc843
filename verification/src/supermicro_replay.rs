//! Why the operations on Supermicro machines can be called again from the start with
//! one reply more: once one has finished, more replies change nothing.
use crate::exchange::{fetched, get, sent, Flow, Reply, Tape, Timeout};
use crate::model::{
    Boot, BootInterfaceRef, BootOption, ComponentType, EnabledDisabled, ODataId, PCIeDevice,
    Privilege,
};
use crate::replay::{fetched_holds, grown, sent_holds, stays};
use crate::standard_replay::{
    bios_attributes_is_stable, boot_interface_mac_is_stable, boot_options_at_is_stable,
    members_is_stable, pending_attributes_is_stable, serial_interface_is_stable, system_is_stable,
};
use crate::supermicro::Bmc;
use crate::supermicro_actions::devices_by_id;
use crate::text::after_last;
use vstd::prelude::*;
use vstd::string::*;

verus! {

/// What `devices_by_id` has come to stays so.
pub broadcast proof fn devices_by_id_is_stable(
    chassis: Seq<char>,
    ids: Seq<Seq<char>>,
    found: Seq<PCIeDevice>,
    t: Tape,
    more: Seq<Reply>,
)
    ensures
        stays(
            devices_by_id(chassis, ids, found, t),
            #[trigger] devices_by_id(chassis, ids, found, grown(t, more)),
            more,
        ),
    decreases ids.len(),
{
    broadcast use fetched_holds;

    if ids.len() > 0 {
        if let Flow::Ready(device, u) = fetched::<PCIeDevice>(
            get("Chassis/"@ + chassis + "/PCIeDevices/"@ + ids[0]),
            t,
        ) {
            devices_by_id_is_stable(chassis, ids.drop_first(), found.push(device), u, more);
        }
    }
}

/// What `name_map_flow` has come to stays so.
pub broadcast proof fn name_map_is_stable(bmc: Bmc, t: Tape, more: Seq<Reply>)
    ensures
        stays(bmc.name_map_flow(t), #[trigger] bmc.name_map_flow(grown(t, more)), more),
{
    broadcast use bios_attributes_is_stable;

}

/// What `machine_setup_attrs_flow` has come to stays so.
pub broadcast proof fn machine_setup_attrs_is_stable(bmc: Bmc, t: Tape, more: Seq<Reply>)
    ensures
        stays(
            bmc.machine_setup_attrs_flow(t),
            #[trigger] bmc.machine_setup_attrs_flow(grown(t, more)),
            more,
        ),
{
    broadcast use bios_attributes_is_stable;

}

/// What `machine_setup_flow` has come to stays so.
pub broadcast proof fn machine_setup_is_stable(bmc: Bmc, t: Tape, more: Seq<Reply>)
    ensures
        stays(bmc.machine_setup_flow(t), #[trigger] bmc.machine_setup_flow(grown(t, more)), more),
{
    broadcast use {sent_holds, machine_setup_attrs_is_stable};

}

/// What `serial_console_status_flow` has come to stays so.
pub broadcast proof fn serial_console_status_is_stable(bmc: Bmc, t: Tape, more: Seq<Reply>)
    ensures
        stays(
            bmc.serial_console_status_flow(t),
            #[trigger] bmc.serial_console_status_flow(grown(t, more)),
            more,
        ),
{
    broadcast use {system_is_stable, serial_interface_is_stable};

}

/// What `diff_bios_bmc_attr_flow` has come to stays so.
pub broadcast proof fn diff_bios_bmc_attr_is_stable(bmc: Bmc, t: Tape, more: Seq<Reply>)
    ensures
        stays(
            bmc.diff_bios_bmc_attr_flow(t),
            #[trigger] bmc.diff_bios_bmc_attr_flow(grown(t, more)),
            more,
        ),
{
    broadcast use {
        bios_attributes_is_stable,
        machine_setup_attrs_is_stable,
        serial_console_status_is_stable,
    };

}

/// What `optional_mac_flow` has come to stays so.
pub broadcast proof fn optional_mac_is_stable(
    bmc: Bmc,
    interface: Option<BootInterfaceRef>,
    t: Tape,
    more: Seq<Reply>,
)
    ensures
        stays(
            bmc.optional_mac_flow(interface, t),
            #[trigger] bmc.optional_mac_flow(interface, grown(t, more)),
            more,
        ),
{
    broadcast use boot_interface_mac_is_stable;

}

/// What `fixed_diff_flow` has come to stays so.
pub broadcast proof fn fixed_diff_is_stable(bmc: Bmc, mac: Seq<char>, t: Tape, more: Seq<Reply>)
    ensures
        stays(
            bmc.fixed_diff_flow(mac, t),
            #[trigger] bmc.fixed_diff_flow(mac, grown(t, more)),
            more,
        ),
{
    broadcast use fetched_holds;

}

/// What `boot_order_diff_flow` has come to stays so.
pub broadcast proof fn boot_order_diff_is_stable(
    bmc: Bmc,
    mac: Seq<char>,
    t: Tape,
    more: Seq<Reply>,
)
    ensures
        stays(
            bmc.boot_order_diff_flow(mac, t),
            #[trigger] bmc.boot_order_diff_flow(mac, grown(t, more)),
            more,
        ),
{
    broadcast use {
        fetched_holds,
        system_is_stable,
        boot_options_at_is_stable,
        fixed_diff_is_stable,
    };

}

/// What `optional_boot_diff_flow` has come to stays so.
pub broadcast proof fn optional_boot_diff_is_stable(
    bmc: Bmc,
    mac: Option<Seq<char>>,
    t: Tape,
    more: Seq<Reply>,
)
    ensures
        stays(
            bmc.optional_boot_diff_flow(mac, t),
            #[trigger] bmc.optional_boot_diff_flow(mac, grown(t, more)),
            more,
        ),
{
    broadcast use boot_order_diff_is_stable;

}

/// What `is_ars_121l_dnr_flow` has come to stays so.
pub broadcast proof fn is_ars_121l_dnr_is_stable(bmc: Bmc, t: Tape, more: Seq<Reply>)
    ensures
        stays(
            bmc.is_ars_121l_dnr_flow(t),
            #[trigger] bmc.is_ars_121l_dnr_flow(grown(t, more)),
            more,
        ),
{
    broadcast use system_is_stable;

}

/// What `is_mgx_c2_flow` has come to stays so.
pub broadcast proof fn is_mgx_c2_is_stable(bmc: Bmc, t: Tape, more: Seq<Reply>)
    ensures
        stays(bmc.is_mgx_c2_flow(t), #[trigger] bmc.is_mgx_c2_flow(grown(t, more)), more),
{
    broadcast use fetched_holds;

}

/// What `supports_ipmi_host_iface_flow` has come to stays so.
pub broadcast proof fn supports_ipmi_host_iface_is_stable(bmc: Bmc, t: Tape, more: Seq<Reply>)
    ensures
        stays(
            bmc.supports_ipmi_host_iface_flow(t),
            #[trigger] bmc.supports_ipmi_host_iface_flow(grown(t, more)),
            more,
        ),
{
    broadcast use fetched_holds;

}

/// What `ipmi_host_interface_flow` has come to stays so.
pub broadcast proof fn ipmi_host_interface_is_stable(bmc: Bmc, t: Tape, more: Seq<Reply>)
    ensures
        stays(
            bmc.ipmi_host_interface_flow(t),
            #[trigger] bmc.ipmi_host_interface_flow(grown(t, more)),
            more,
        ),
{
    broadcast use system_is_stable;

}

/// What `kcs_privilege_flow` has come to stays so.
pub broadcast proof fn kcs_privilege_is_stable(bmc: Bmc, t: Tape, more: Seq<Reply>)
    ensures
        stays(bmc.kcs_privilege_flow(t), #[trigger] bmc.kcs_privilege_flow(grown(t, more)), more),
{
    broadcast use {
        fetched_holds,
        is_mgx_c2_is_stable,
        supports_ipmi_host_iface_is_stable,
        ipmi_host_interface_is_stable,
    };

}

/// What `host_interface_flow` has come to stays so.
pub broadcast proof fn host_interface_is_stable(bmc: Bmc, t: Tape, more: Seq<Reply>)
    ensures
        stays(bmc.host_interface_flow(t), #[trigger] bmc.host_interface_flow(grown(t, more)), more),
{
    broadcast use {fetched_holds, members_is_stable};

}

/// What `syslockdown_flow` has come to stays so.
pub broadcast proof fn syslockdown_is_stable(bmc: Bmc, t: Tape, more: Seq<Reply>)
    ensures
        stays(bmc.syslockdown_flow(t), #[trigger] bmc.syslockdown_flow(grown(t, more)), more),
{
    broadcast use fetched_holds;

}

/// What `lockdown_status_flow` has come to stays so.
pub broadcast proof fn lockdown_status_is_stable(bmc: Bmc, t: Tape, more: Seq<Reply>)
    ensures
        stays(
            bmc.lockdown_status_flow(t),
            #[trigger] bmc.lockdown_status_flow(grown(t, more)),
            more,
        ),
{
    broadcast use {
        is_ars_121l_dnr_is_stable,
        kcs_privilege_is_stable,
        host_interface_is_stable,
        syslockdown_is_stable,
    };

}

/// What `machine_setup_status_flow` has come to stays so.
pub broadcast proof fn machine_setup_status_is_stable(
    bmc: Bmc,
    interface: Option<BootInterfaceRef>,
    t: Tape,
    more: Seq<Reply>,
)
    ensures
        stays(
            bmc.machine_setup_status_flow(interface, t),
            #[trigger] bmc.machine_setup_status_flow(interface, grown(t, more)),
            more,
        ),
{
    broadcast use {
        diff_bios_bmc_attr_is_stable,
        optional_mac_is_stable,
        optional_boot_diff_is_stable,
        lockdown_status_is_stable,
    };

}

/// What `clear_tpm_flow` has come to stays so.
pub broadcast proof fn clear_tpm_is_stable(bmc: Bmc, t: Tape, more: Seq<Reply>)
    ensures
        stays(bmc.clear_tpm_flow(t), #[trigger] bmc.clear_tpm_flow(grown(t, more)), more),
{
    broadcast use {sent_holds, bios_attributes_is_stable};

}

/// What `pending_flow` has come to stays so.
pub broadcast proof fn pending_is_stable(bmc: Bmc, t: Tape, more: Seq<Reply>)
    ensures
        stays(bmc.pending_flow(t), #[trigger] bmc.pending_flow(grown(t, more)), more),
{
    broadcast use pending_attributes_is_stable;

}

/// What `pcie_devices_flow` has come to stays so.
pub broadcast proof fn pcie_devices_is_stable(bmc: Bmc, t: Tape, more: Seq<Reply>)
    ensures
        stays(bmc.pcie_devices_flow(t), #[trigger] bmc.pcie_devices_flow(grown(t, more)), more),
{
    broadcast use {members_is_stable, devices_by_id_is_stable};

}

/// What `update_firmware_multipart_flow` has come to stays so.
pub broadcast proof fn update_firmware_multipart_is_stable(
    bmc: Bmc,
    component_type: ComponentType,
    timeout: Timeout,
    t: Tape,
    more: Seq<Reply>,
)
    ensures
        stays(
            bmc.update_firmware_multipart_flow(component_type, timeout, t),
            #[trigger] bmc.update_firmware_multipart_flow(component_type, timeout, grown(t, more)),
            more,
        ),
{
    broadcast use fetched_holds;

}

/// What `set_kcs_privilege_flow` has come to stays so.
pub broadcast proof fn set_kcs_privilege_is_stable(
    bmc: Bmc,
    privilege: Privilege,
    t: Tape,
    more: Seq<Reply>,
)
    ensures
        stays(
            bmc.set_kcs_privilege_flow(privilege, t),
            #[trigger] bmc.set_kcs_privilege_flow(privilege, grown(t, more)),
            more,
        ),
{
    broadcast use {sent_holds, is_mgx_c2_is_stable, supports_ipmi_host_iface_is_stable};

}

/// What `each_host_interface` has come to stays so.
pub broadcast proof fn each_host_interface_is_stable(
    bmc: Bmc,
    ids: Seq<Seq<char>>,
    target: EnabledDisabled,
    t: Tape,
    more: Seq<Reply>,
)
    ensures
        stays(
            bmc.each_host_interface(ids, target, t),
            #[trigger] bmc.each_host_interface(ids, target, grown(t, more)),
            more,
        ),
    decreases ids.len(),
{
    broadcast use sent_holds;

    if ids.len() > 0 {
        if let Flow::Ready(done, u) = sent(bmc.host_interface_request(ids[0], target), t) {
            each_host_interface_is_stable(bmc, ids.drop_first(), target, u, more);
        }
    }
}

/// What `set_host_interfaces_flow` has come to stays so.
pub broadcast proof fn set_host_interfaces_is_stable(
    bmc: Bmc,
    target: EnabledDisabled,
    t: Tape,
    more: Seq<Reply>,
)
    ensures
        stays(
            bmc.set_host_interfaces_flow(target, t),
            #[trigger] bmc.set_host_interfaces_flow(target, grown(t, more)),
            more,
        ),
{
    broadcast use {members_is_stable, each_host_interface_is_stable};

}

/// What `lock_host_interfaces_flow` has come to stays so.
pub broadcast proof fn lock_host_interfaces_is_stable(bmc: Bmc, t: Tape, more: Seq<Reply>)
    ensures
        stays(
            bmc.lock_host_interfaces_flow(t),
            #[trigger] bmc.lock_host_interfaces_flow(grown(t, more)),
            more,
        ),
{
    broadcast use {is_ars_121l_dnr_is_stable, set_host_interfaces_is_stable};

}

/// What `lock_flow` has come to stays so.
pub broadcast proof fn lock_is_stable(bmc: Bmc, t: Tape, more: Seq<Reply>)
    ensures
        stays(bmc.lock_flow(t), #[trigger] bmc.lock_flow(grown(t, more)), more),
{
    broadcast use {sent_holds, set_kcs_privilege_is_stable, lock_host_interfaces_is_stable};

}

/// What `unlock_flow` has come to stays so.
pub broadcast proof fn unlock_is_stable(bmc: Bmc, t: Tape, more: Seq<Reply>)
    ensures
        stays(bmc.unlock_flow(t), #[trigger] bmc.unlock_flow(grown(t, more)), more),
{
    broadcast use {sent_holds, set_kcs_privilege_is_stable, set_host_interfaces_is_stable};

}

/// What `set_boot_order_flow` has come to stays so.
pub broadcast proof fn set_boot_order_is_stable(
    bmc: Bmc,
    target: Boot,
    t: Tape,
    more: Seq<Reply>,
)
    ensures
        stays(
            bmc.set_boot_order_flow(target, t),
            #[trigger] bmc.set_boot_order_flow(target, grown(t, more)),
            more,
        ),
{
    broadcast use {fetched_holds, sent_holds};

}

/// What `boot_first_flow` has come to stays so.
pub broadcast proof fn boot_first_is_stable(bmc: Bmc, target: Boot, t: Tape, more: Seq<Reply>)
    ensures
        stays(
            bmc.boot_first_flow(target, t),
            #[trigger] bmc.boot_first_flow(target, grown(t, more)),
            more,
        ),
{
    broadcast use {sent_holds, set_boot_order_is_stable};

}

/// What `reference_among` has come to stays so.
pub broadcast proof fn reference_among_is_stable(
    bmc: Bmc,
    links: Seq<ODataId>,
    mac: Seq<char>,
    t: Tape,
    more: Seq<Reply>,
)
    ensures
        stays(
            bmc.reference_among(links, mac, t),
            #[trigger] bmc.reference_among(links, mac, grown(t, more)),
            more,
        ),
    decreases links.len(),
{
    broadcast use fetched_holds;

    if links.len() > 0 {
        if let Flow::Ready(option, u) = fetched::<BootOption>(
            bmc.s.boot_option_request(after_last(links[0].odata_id@, '/')),
            t,
        ) {
            reference_among_is_stable(bmc, links.drop_first(), mac, u, more);
        }
    }
}

/// What `try_standard_order_flow` has come to stays so.
pub broadcast proof fn try_standard_order_is_stable(
    bmc: Bmc,
    mac: Seq<char>,
    t: Tape,
    more: Seq<Reply>,
)
    ensures
        stays(
            bmc.try_standard_order_flow(mac, t),
            #[trigger] bmc.try_standard_order_flow(mac, grown(t, more)),
            more,
        ),
{
    broadcast use {fetched_holds, sent_holds, system_is_stable, reference_among_is_stable};

}

/// What `fixed_dpu_first_flow` has come to stays so.
pub broadcast proof fn fixed_dpu_first_is_stable(
    bmc: Bmc,
    mac: Seq<char>,
    t: Tape,
    more: Seq<Reply>,
)
    ensures
        stays(
            bmc.fixed_dpu_first_flow(mac, t),
            #[trigger] bmc.fixed_dpu_first_flow(mac, grown(t, more)),
            more,
        ),
{
    broadcast use {fetched_holds, sent_holds};

}

/// What `set_boot_order_dpu_first_flow` has come to stays so.
pub broadcast proof fn set_boot_order_dpu_first_is_stable(
    bmc: Bmc,
    interface: BootInterfaceRef,
    t: Tape,
    more: Seq<Reply>,
)
    ensures
        stays(
            bmc.set_boot_order_dpu_first_flow(interface, t),
            #[trigger] bmc.set_boot_order_dpu_first_flow(interface, grown(t, more)),
            more,
        ),
{
    broadcast use {
        boot_interface_mac_is_stable,
        try_standard_order_is_stable,
        fixed_dpu_first_is_stable,
    };

}

/// What `is_boot_order_setup_flow` has come to stays so.
pub broadcast proof fn is_boot_order_setup_is_stable(
    bmc: Bmc,
    interface: BootInterfaceRef,
    t: Tape,
    more: Seq<Reply>,
)
    ensures
        stays(
            bmc.is_boot_order_setup_flow(interface, t),
            #[trigger] bmc.is_boot_order_setup_flow(interface, grown(t, more)),
            more,
        ),
{
    broadcast use {boot_interface_mac_is_stable, boot_order_diff_is_stable};

}

} // verus!
