//! Why the standard operations can be called again from the start with one reply
//! more: once one has finished, more replies change nothing.
use crate::exchange::{fetched, get, Flow, Reply, RequestView, Tape};
use crate::inventory::{devices_of, drives_at, in_service, pcie_request, task_flow};
use crate::model::{
    BootInterfaceRef, BootOption, Drives, ManagerAccount, Members, ODataId, PCIeDevice,
};
use crate::replay::{fetched_holds, grown, sent_holds, stays};
use crate::requests::below_entry_point;
use crate::standard::RedfishStandard;
use crate::text::after_last;
use vstd::prelude::*;
use vstd::string::*;

verus! {

/// What `bios_attributes_flow` has come to stays so.
pub broadcast proof fn bios_attributes_is_stable(s: RedfishStandard, t: Tape, more: Seq<Reply>)
    ensures
        stays(s.bios_attributes_flow(t), #[trigger] s.bios_attributes_flow(grown(t, more)), more),
{
    broadcast use fetched_holds;

}

/// What `pending_attributes_flow` has come to stays so.
pub broadcast proof fn pending_attributes_is_stable(
    s: RedfishStandard,
    url: Seq<char>,
    t: Tape,
    more: Seq<Reply>,
)
    ensures
        stays(
            s.pending_attributes_flow(url, t),
            #[trigger] s.pending_attributes_flow(url, grown(t, more)),
            more,
        ),
{
    broadcast use fetched_holds;

}

/// What `pending_with_url_flow` has come to stays so.
pub broadcast proof fn pending_with_url_is_stable(
    s: RedfishStandard,
    url: Seq<char>,
    t: Tape,
    more: Seq<Reply>,
)
    ensures
        stays(
            s.pending_with_url_flow(url, t),
            #[trigger] s.pending_with_url_flow(url, grown(t, more)),
            more,
        ),
{
    broadcast use {bios_attributes_is_stable, pending_attributes_is_stable};

}

/// What `clear_pending_with_url_flow` has come to stays so.
pub broadcast proof fn clear_pending_with_url_is_stable(
    s: RedfishStandard,
    url: Seq<char>,
    t: Tape,
    more: Seq<Reply>,
)
    ensures
        stays(
            s.clear_pending_with_url_flow(url, t),
            #[trigger] s.clear_pending_with_url_flow(url, grown(t, more)),
            more,
        ),
{
    broadcast use {sent_holds, bios_attributes_is_stable, pending_attributes_is_stable};

}

/// What `members_flow` has come to stays so.
pub broadcast proof fn members_is_stable(
    s: RedfishStandard,
    request: RequestView,
    t: Tape,
    more: Seq<Reply>,
)
    ensures
        stays(s.members_flow(request, t), #[trigger] s.members_flow(request, grown(t, more)), more),
{
    broadcast use fetched_holds;

}

/// What `account_among` has come to stays so.
pub broadcast proof fn account_among_is_stable(
    ids: Seq<Seq<char>>,
    username: Seq<char>,
    t: Tape,
    more: Seq<Reply>,
)
    ensures
        stays(
            RedfishStandard::account_among(ids, username, t),
            #[trigger] RedfishStandard::account_among(ids, username, grown(t, more)),
            more,
        ),
    decreases ids.len(),
{
    broadcast use fetched_holds;

    if ids.len() > 0 {
        if let Flow::Ready(account, u) = fetched::<ManagerAccount>(
            get("AccountService/Accounts/"@ + ids[0]),
            t,
        ) {
            account_among_is_stable(ids.drop_first(), username, u, more);
        }
    }
}

/// What `account_by_name_flow` has come to stays so.
pub broadcast proof fn account_by_name_is_stable(
    s: RedfishStandard,
    username: Seq<char>,
    t: Tape,
    more: Seq<Reply>,
)
    ensures
        stays(
            s.account_by_name_flow(username, t),
            #[trigger] s.account_by_name_flow(username, grown(t, more)),
            more,
        ),
{
    broadcast use {members_is_stable, account_among_is_stable};

}

/// What `account_id_flow` has come to stays so.
pub broadcast proof fn account_id_is_stable(
    s: RedfishStandard,
    username: Seq<char>,
    t: Tape,
    more: Seq<Reply>,
)
    ensures
        stays(
            s.account_id_flow(username, t),
            #[trigger] s.account_id_flow(username, grown(t, more)),
            more,
        ),
{
    broadcast use account_by_name_is_stable;

}

/// What `change_username_flow` has come to stays so.
pub broadcast proof fn change_username_is_stable(
    s: RedfishStandard,
    old_name: Seq<char>,
    new_name: Seq<char>,
    t: Tape,
    more: Seq<Reply>,
)
    ensures
        stays(
            s.change_username_flow(old_name, new_name, t),
            #[trigger] s.change_username_flow(old_name, new_name, grown(t, more)),
            more,
        ),
{
    broadcast use {sent_holds, account_id_is_stable};

}

/// What `service_root_flow` has come to stays so.
pub broadcast proof fn service_root_is_stable(s: RedfishStandard, t: Tape, more: Seq<Reply>)
    ensures
        stays(s.service_root_flow(t), #[trigger] s.service_root_flow(grown(t, more)), more),
{
    broadcast use {fetched_holds, members_is_stable};

}

/// What `change_password_by_id_flow` has come to stays so.
pub broadcast proof fn change_password_by_id_is_stable(
    s: RedfishStandard,
    id: Seq<char>,
    new_pass: Seq<char>,
    t: Tape,
    more: Seq<Reply>,
)
    ensures
        stays(
            s.change_password_by_id_flow(id, new_pass, t),
            #[trigger] s.change_password_by_id_flow(id, new_pass, grown(t, more)),
            more,
        ),
{
    broadcast use {sent_holds, service_root_is_stable};

}

/// What `change_password_flow` has come to stays so.
pub broadcast proof fn change_password_is_stable(
    s: RedfishStandard,
    user: Seq<char>,
    new_pass: Seq<char>,
    t: Tape,
    more: Seq<Reply>,
)
    ensures
        stays(
            s.change_password_flow(user, new_pass, t),
            #[trigger] s.change_password_flow(user, new_pass, grown(t, more)),
            more,
        ),
{
    broadcast use {account_id_is_stable, change_password_by_id_is_stable};

}

/// What `accounts_flow` has come to stays so.
pub broadcast proof fn accounts_is_stable(s: RedfishStandard, t: Tape, more: Seq<Reply>)
    ensures
        stays(s.accounts_flow(t), #[trigger] s.accounts_flow(grown(t, more)), more),
{
    broadcast use fetched_holds;

}

/// What `system_flow` has come to stays so.
pub broadcast proof fn system_is_stable(s: RedfishStandard, t: Tape, more: Seq<Reply>)
    ensures
        stays(s.system_flow(t), #[trigger] s.system_flow(grown(t, more)), more),
{
    broadcast use fetched_holds;

}

/// What `power_state_flow` has come to stays so.
pub broadcast proof fn power_state_is_stable(s: RedfishStandard, t: Tape, more: Seq<Reply>)
    ensures
        stays(s.power_state_flow(t), #[trigger] s.power_state_flow(grown(t, more)), more),
{
    broadcast use system_is_stable;

}

/// What `drives_at` has come to stays so.
pub broadcast proof fn drives_at_is_stable(
    links: Seq<Seq<char>>,
    found: Seq<Drives>,
    t: Tape,
    more: Seq<Reply>,
)
    ensures
        stays(drives_at(links, found, t), #[trigger] drives_at(links, found, grown(t, more)), more),
    decreases links.len(),
{
    broadcast use fetched_holds;

    if links.len() > 0 {
        if let Flow::Ready(drive, u) = fetched::<Drives>(get(below_entry_point(links[0])), t) {
            drives_at_is_stable(links.drop_first(), found.push(drive), u, more);
        }
    }
}

/// What `devices_of` has come to stays so.
pub broadcast proof fn devices_of_is_stable(
    list: Seq<Seq<char>>,
    found: Seq<PCIeDevice>,
    t: Tape,
    more: Seq<Reply>,
)
    ensures
        stays(devices_of(list, found, t), #[trigger] devices_of(list, found, grown(t, more)), more),
    decreases list.len(),
{
    broadcast use fetched_holds;

    if list.len() > 0 {
        match fetched::<Members<PCIeDevice>>(pcie_request(list[0]), t) {
            Flow::Ready(m, u) => {
                devices_of_is_stable(
                    list.drop_first(),
                    found + m.members@.filter(|d: PCIeDevice| in_service(d)),
                    u,
                    more,
                );
            },
            Flow::Fail(_, u) => {
                devices_of_is_stable(list.drop_first(), found, u, more);
            },
            Flow::Wait(_, _) => {},
        }
    }
}

/// What `task_flow` has come to stays so.
pub broadcast proof fn task_is_stable(request: RequestView, t: Tape, more: Seq<Reply>)
    ensures
        stays(task_flow(request, t), #[trigger] task_flow(request, grown(t, more)), more),
{
    broadcast use fetched_holds;

}

/// What `systems_flow` has come to stays so.
pub broadcast proof fn systems_is_stable(s: RedfishStandard, t: Tape, more: Seq<Reply>)
    ensures
        stays(s.systems_flow(t), #[trigger] s.systems_flow(grown(t, more)), more),
{
    broadcast use fetched_holds;

}

/// What `managers_flow` has come to stays so.
pub broadcast proof fn managers_is_stable(s: RedfishStandard, t: Tape, more: Seq<Reply>)
    ensures
        stays(s.managers_flow(t), #[trigger] s.managers_flow(grown(t, more)), more),
{
    broadcast use fetched_holds;

}

/// What `drives_flow` has come to stays so.
pub broadcast proof fn drives_is_stable(s: RedfishStandard, t: Tape, more: Seq<Reply>)
    ensures
        stays(s.drives_flow(t), #[trigger] s.drives_flow(grown(t, more)), more),
{
    broadcast use {fetched_holds, drives_at_is_stable};

}

/// What `pcie_devices_for_chassis_flow` has come to stays so.
pub broadcast proof fn pcie_devices_for_chassis_is_stable(
    s: RedfishStandard,
    list: Seq<Seq<char>>,
    t: Tape,
    more: Seq<Reply>,
)
    ensures
        stays(
            s.pcie_devices_for_chassis_flow(list, t),
            #[trigger] s.pcie_devices_for_chassis_flow(list, grown(t, more)),
            more,
        ),
{
    broadcast use devices_of_is_stable;

}

/// What `pcie_devices_flow` has come to stays so.
pub broadcast proof fn pcie_devices_is_stable(s: RedfishStandard, t: Tape, more: Seq<Reply>)
    ensures
        stays(s.pcie_devices_flow(t), #[trigger] s.pcie_devices_flow(grown(t, more)), more),
{
    broadcast use {system_is_stable, pcie_devices_for_chassis_is_stable};

}

/// What `task_by_id_flow` has come to stays so.
pub broadcast proof fn task_by_id_is_stable(
    s: RedfishStandard,
    id: Seq<char>,
    t: Tape,
    more: Seq<Reply>,
)
    ensures
        stays(s.task_by_id_flow(id, t), #[trigger] s.task_by_id_flow(id, grown(t, more)), more),
{
    broadcast use fetched_holds;

}

/// What `first_boot_option_flow` has come to stays so.
pub broadcast proof fn first_boot_option_is_stable(
    s: RedfishStandard,
    t: Tape,
    more: Seq<Reply>,
)
    ensures
        stays(
            s.first_boot_option_flow(t),
            #[trigger] s.first_boot_option_flow(grown(t, more)),
            more,
        ),
{
    broadcast use fetched_holds;

}

/// What `boot_options_at` has come to stays so.
pub broadcast proof fn boot_options_at_is_stable(
    s: RedfishStandard,
    links: Seq<ODataId>,
    found: Seq<BootOption>,
    t: Tape,
    more: Seq<Reply>,
)
    ensures
        stays(
            s.boot_options_at(links, found, t),
            #[trigger] s.boot_options_at(links, found, grown(t, more)),
            more,
        ),
    decreases links.len(),
{
    broadcast use fetched_holds;

    if links.len() > 0 {
        if let Flow::Ready(option, u) = fetched::<BootOption>(
            s.boot_option_request(after_last(links[0].odata_id@, '/')),
            t,
        ) {
            boot_options_at_is_stable(s, links.drop_first(), found.push(option), u, more);
        }
    }
}

/// What `serial_interface_name_flow` has come to stays so.
pub broadcast proof fn serial_interface_name_is_stable(
    s: RedfishStandard,
    t: Tape,
    more: Seq<Reply>,
)
    ensures
        stays(
            s.serial_interface_name_flow(t),
            #[trigger] s.serial_interface_name_flow(grown(t, more)),
            more,
        ),
{
    broadcast use members_is_stable;

}

/// What `serial_interface_flow` has come to stays so.
pub broadcast proof fn serial_interface_is_stable(s: RedfishStandard, t: Tape, more: Seq<Reply>)
    ensures
        stays(s.serial_interface_flow(t), #[trigger] s.serial_interface_flow(grown(t, more)), more),
{
    broadcast use {fetched_holds, serial_interface_name_is_stable};

}

/// What `ipmi_over_lan_flow` has come to stays so.
pub broadcast proof fn ipmi_over_lan_is_stable(s: RedfishStandard, t: Tape, more: Seq<Reply>)
    ensures
        stays(s.ipmi_over_lan_flow(t), #[trigger] s.ipmi_over_lan_flow(grown(t, more)), more),
{
    broadcast use fetched_holds;

}

/// What `boot_interface_mac_flow` has come to stays so.
pub broadcast proof fn boot_interface_mac_is_stable(
    s: RedfishStandard,
    interface: BootInterfaceRef,
    t: Tape,
    more: Seq<Reply>,
)
    ensures
        stays(
            s.boot_interface_mac_flow(interface, t),
            #[trigger] s.boot_interface_mac_flow(interface, grown(t, more)),
            more,
        ),
{
    broadcast use fetched_holds;

}

} // verus!
