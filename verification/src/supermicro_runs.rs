//! What the operations on Supermicro machines do, request by request: for every answer
//! that can come in, what is asked for next and what comes out.
use crate::boot::{
    moved_first, reference_of, reference_position, target_first, target_first_keeps_entries,
};
use crate::error::{Fault, RedfishError};
use crate::exchange::{
    fetched, get, patch, Exchange, Flow, Kind, Method, PayloadView, Reply, Request, RequestView,
    Response, Stop, Tape, Timeout,
};
use crate::json::{
    as_text, extended, extended_is_found, extended_keeps_keys_unique, has_key, last_value, lookup,
    member, rendered, unique_entry_is_found, unique_keys, JsonView, Object, ObjectView,
};
use crate::model::{
    Boot, BootInterfaceRef, BootOption, BootOverride, BootSourceOverrideEnabled,
    BootSourceOverrideMode, BootSourceOverrideTarget, Chassis, ComponentType, ComputerSystem,
    EnabledDisabled, FixedBootOrder, MachineSetupStatus, Manager, Members, ODataId, PCIeDevice,
    Privilege, RedfishVendor, References, SerialInterface, Status, StatusInternal,
    SystemPowerControl, UpdateService, Upload, Written,
};
use crate::outside::{version_order, VersionOrder};
use crate::requests::below_entry_point;
use crate::run::{
    after, asks, body_of, calling, changing, fails, leads_to, lists, names_are_listed, posting,
    reading, word, words, words_are_texts, written_is_found,
};
use crate::standard::RedfishStandard;
use crate::standard_runs::{all_options_are_read, lead_to, option_replies};
use crate::supermicro::{
    mgx_c2_module, option_matches_mac, standard_diff, supported_http_option, Bmc,
};
use crate::search::{first_where, first_where_absent, first_where_found, first_where_is_first};
use crate::supermicro_actions::{any_mgx_c2, devices_by_id};
use crate::supermicro_boot::{
    category_entry, fixed_order_body, override_body, swapped_first, two_enabled,
};
use crate::supermicro_laws::{
    first_of_is_first, last_of_is_there, last_value_is_an_entry, no_deviation_means_all_set,
    rules_are_distinct, rules_with_tpm, settings_are_of_the_machine, settings_follow_a_rule,
};
use crate::supermicro_setup::{
    all_ruled, attribute_diffs, clean_key, group_of, keys_named, name_map_groups_by_canonical_name,
    name_map_partitions, ruled, setup_rules, tpm_value, update_parameters, update_target, Group,
};
use crate::text::{
    after_last, before_first, begins, decimal, has, last_of, lower, upper, without_trailing,
};
use crate::text_laws::{
    after_last_is_the_last_part, before_first_is_free, before_first_is_the_first_part,
    ends_are_taken_off, free_of, prefix_is_taken_away,
};
use vstd::prelude::*;
use vstd::string::*;

verus! {

/// The request that turns system lockdown on or off.
pub open spec fn write_syslockdown(bmc: Bmc, on: bool) -> RequestView {
    changing(
        "Managers/"@ + bmc.s.manager() + "/Oem/Supermicro/SysLockdown"@,
        seq![("SysLockdownEnabled"@, JsonView::Bool(on))],
    )
}

/// The request that sets the KCS privilege to `name`.
pub open spec fn write_kcs(bmc: Bmc, name: Seq<char>) -> RequestView {
    changing(
        "Managers/"@ + bmc.s.manager() + "/Oem/Supermicro/KCSInterface"@,
        seq![("Privilege"@, word(name))],
    )
}

/// The request that turns the IPMI host interface of the system on or off.
pub open spec fn write_ipmi(bmc: Bmc, on: bool) -> RequestView {
    changing(
        "Systems/"@ + bmc.s.system(),
        seq![
            (
                "IPMIHostInterface"@,
                JsonView::Object(seq![("ServiceEnabled"@, JsonView::Bool(on))]),
            ),
        ],
    )
}

/// The request that turns a host interface of the BMC on or off.
pub open spec fn write_host_interface(bmc: Bmc, id: Seq<char>, on: bool) -> RequestView {
    changing(
        "Managers/"@ + bmc.s.manager() + "/HostInterfaces/"@ + id,
        seq![("InterfaceEnabled"@, JsonView::Bool(on))],
    )
}

/// The request for the host interfaces of the BMC.
pub open spec fn read_host_interfaces(bmc: Bmc) -> RequestView {
    reading("Managers/"@ + bmc.s.manager() + "/HostInterfaces"@)
}

/// The request for all chassis.
pub open spec fn read_chassis() -> RequestView {
    reading("Chassis?$expand=.($levels=1)"@)
}

/// Whether one of the chassis is a processor module of an MGX C2 system: an NVIDIA one
/// whose model or part number says so.
pub open spec fn on_mgx_c2(chassis: Members<Chassis>) -> bool {
    exists|i: int|
        0 <= i < chassis.members@.len() && {
            let c = #[trigger] chassis.members@[i];
            (c.manufacturer matches Some(m) && lower(m@) == lower("NVIDIA"@)) && ((c.model matches Some(
                m,
            ) && begins(m@, "PG535"@)) || (c.part_number matches Some(p) && has(p@, "2G535"@)))
        }
}

/// Whether the firmware of the BMC is one that has the IPMI host interface.
pub open spec fn has_ipmi_host_interface(manager: Manager) -> bool {
    version_order(
        match manager.firmware_version {
            Some(version) => version@,
            None => ""@,
        },
        "01.05.01"@,
    ) matches Some(order) && order != VersionOrder::Lt
}

/// Whether a system is one whose host interface has to stay on.
pub open spec fn needs_host_interface(system: ComputerSystem) -> bool {
    system.model matches Some(model) && has(model@, "ARS-121L-DNR"@)
}

proof fn mgx_c2_is_found(chassis: Members<Chassis>)
    ensures
        any_mgx_c2(chassis.members@) == on_mgx_c2(chassis),
{
    if any_mgx_c2(chassis.members@) {
        let i = choose|i: int|
            0 <= i < chassis.members@.len() && mgx_c2_module(#[trigger] chassis.members@[i]);
        assert(mgx_c2_module(chassis.members@[i]));
    }
    if on_mgx_c2(chassis) {
        let i = choose|i: int|
            0 <= i < chassis.members@.len() && {
                let c = #[trigger] chassis.members@[i];
                (c.manufacturer matches Some(m) && lower(m@) == lower("NVIDIA"@)) && ((
                c.model matches Some(m) && begins(m@, "PG535"@)) || (c.part_number matches Some(p)
                    && has(p@, "2G535"@)))
            };
        assert(mgx_c2_module(chassis.members@[i]));
    }
}

proof fn chassis_are_at_the_top()
    ensures
        below_entry_point("/redfish/v1/Chassis"@) + "?$expand=.($levels=1)"@
            == "Chassis?$expand=.($levels=1)"@,
{
    reveal_strlit("/redfish/v1/");
    reveal_strlit("/redfish/v1/Chassis");
    reveal_strlit("?$expand=.($levels=1)");
    reveal_strlit("Chassis");
    reveal_strlit("Chassis?$expand=.($levels=1)");
    assert("/redfish/v1/"@.len() == 12 && "Chassis"@.len() == 7);
    prefix_is_taken_away("/redfish/v1/"@, "Chassis"@);
    assert("/redfish/v1/Chassis"@ =~= "/redfish/v1/"@ + "Chassis"@);
    assert("Chassis"@ + "?$expand=.($levels=1)"@ =~= "Chassis?$expand=.($levels=1)"@);
}

proof fn other_models_are_not_kept(system: ComputerSystem)
    ensures
        has(
            match system.model {
                Some(model) => model@,
                None => ""@,
            },
            "ARS-121L-DNR"@,
        ) == needs_host_interface(system),
{
    reveal_strlit("");
    reveal_strlit("ARS-121L-DNR");
    assert("ARS-121L-DNR"@.len() == 12);
}

/// Whether `replies` answer `n` changes, and each was taken.
pub open spec fn all_taken(replies: Seq<Reply>, n: int) -> bool {
    replies.len() == n && forall|i: int|
        0 <= i < n ==> #[trigger] replies[i] matches Ok(Response::Written(_))
}

/// An unlock, on a machine that has a KCS interface: system lockdown is turned off, the
/// KCS privilege is set to Administrator, and every host interface is turned on, one
/// after the other; where all was taken, the unlock has succeeded.
pub proof fn unlock_run<'a>(
    bmc: &Bmc,
    w: Written,
    chassis: Members<Chassis>,
    x: Written,
    hosts: Object,
    ids: Seq<Seq<char>>,
    later: Seq<Reply>,
    n: int,
    e: RedfishError,
    io: &mut Exchange<'a>,
    r: Result<(), Stop>,
)
    requires
        call_ensures(Bmc::lockdown, (bmc, EnabledDisabled::Disabled, io), r),
        !on_mgx_c2(chassis),
        lists(hosts, ids),
        0 <= n <= ids.len(),
        all_taken(later, n),
    ensures
        old(io)@ == after(seq![]) ==> asks(r, write_syslockdown(*bmc, false), Kind::Written),
        old(io)@ == after(seq![Err(e)]) ==> fails(r, e@),
        old(io)@ == after(
            seq![Ok(Response::Written(w)), Ok(Response::ChassisList(chassis)), Err(e)],
        ) ==> fails(r, e@),
        old(io)@ == after(
            seq![
                Ok(Response::Written(w)),
                Ok(Response::ChassisList(chassis)),
                Ok(Response::Written(x)),
                Err(e),
            ],
        ) ==> fails(r, e@),
        old(io)@ == after(seq![Ok(Response::Written(w))]) ==> asks(
            r,
            read_chassis(),
            Kind::ChassisList,
        ),
        old(io)@ == after(seq![Ok(Response::Written(w)), Ok(Response::ChassisList(chassis))])
            ==> asks(r, write_kcs(*bmc, "Administrator"@), Kind::Written),
        old(io)@ == after(
            seq![
                Ok(Response::Written(w)),
                Ok(Response::ChassisList(chassis)),
                Ok(Response::Written(x)),
            ],
        ) ==> asks(r, read_host_interfaces(*bmc), Kind::Object),
        old(io)@ == after(
            seq![
                Ok(Response::Written(w)),
                Ok(Response::ChassisList(chassis)),
                Ok(Response::Written(x)),
                Ok(Response::Object(hosts)),
            ] + later,
        ) && n < ids.len() ==> asks(
            r,
            write_host_interface(*bmc, ids[n], true),
            Kind::Written,
        ),
        old(io)@ == after(
            seq![
                Ok(Response::Written(w)),
                Ok(Response::ChassisList(chassis)),
                Ok(Response::Written(x)),
                Ok(Response::Object(hosts)),
            ] + later,
        ) && n == ids.len() ==> r is Ok,
{
    chassis_are_at_the_top();
    mgx_c2_is_found(chassis);
    names_are_listed(hosts, ids, "Managers/"@ + bmc.s.manager() + "/HostInterfaces"@);
    let head: Seq<Reply> = seq![
        Ok(Response::Written(w)),
        Ok(Response::ChassisList(chassis)),
        Ok(Response::Written(x)),
        Ok(Response::Object(hosts)),
    ];
    let u = Tape { replies: head + later, pos: 4 };
    assert(u.replies.subrange(4, 4 + n) =~= later);
    taken_so_far(*bmc, ids, EnabledDisabled::Enabled, u, later);
}

/// A lock, on a machine that has a KCS interface: every host interface is turned off,
/// one after the other, the KCS privilege is set to Callback, and system lockdown is
/// turned on; where all was taken, the lock has succeeded.
pub proof fn lock_run<'a>(
    bmc: &Bmc,
    system: ComputerSystem,
    hosts: Object,
    ids: Seq<Seq<char>>,
    later: Seq<Reply>,
    n: int,
    chassis: Members<Chassis>,
    w: Written,
    x: Written,
    e: RedfishError,
    io: &mut Exchange<'a>,
    r: Result<(), Stop>,
)
    requires
        call_ensures(Bmc::lockdown, (bmc, EnabledDisabled::Enabled, io), r),
        !needs_host_interface(system),
        !on_mgx_c2(chassis),
        lists(hosts, ids),
        0 <= n <= ids.len(),
        all_taken(later, n),
    ensures
        old(io)@ == after(seq![]) ==> asks(
            r,
            reading("Systems/"@ + bmc.s.system() + "/"@),
            Kind::System,
        ),
        old(io)@ == after(seq![Err(e)]) ==> fails(r, e@),
        old(io)@ == after(seq![Ok(Response::System(system))]) ==> asks(
            r,
            read_host_interfaces(*bmc),
            Kind::Object,
        ),
        old(io)@ == after(
            seq![Ok(Response::System(system)), Ok(Response::Object(hosts))] + later,
        ) && n < ids.len() ==> asks(
            r,
            write_host_interface(*bmc, ids[n], false),
            Kind::Written,
        ),
        old(io)@ == after(
            seq![Ok(Response::System(system)), Ok(Response::Object(hosts))] + later,
        ) && n == ids.len() ==> asks(r, read_chassis(), Kind::ChassisList),
        old(io)@ == after(
            seq![Ok(Response::System(system)), Ok(Response::Object(hosts))] + later + seq![
                Ok(Response::ChassisList(chassis)),
            ],
        ) && n == ids.len() ==> asks(r, write_kcs(*bmc, "Callback"@), Kind::Written),
        old(io)@ == after(
            seq![Ok(Response::System(system)), Ok(Response::Object(hosts))] + later + seq![
                Ok(Response::ChassisList(chassis)),
                Ok(Response::Written(w)),
            ],
        ) && n == ids.len() ==> asks(r, write_syslockdown(*bmc, true), Kind::Written),
        old(io)@ == after(
            seq![Ok(Response::System(system)), Ok(Response::Object(hosts))] + later + seq![
                Ok(Response::ChassisList(chassis)),
                Ok(Response::Written(w)),
                Ok(Response::Written(x)),
            ],
        ) && n == ids.len() ==> r is Ok,
{
    chassis_are_at_the_top();
    other_models_are_not_kept(system);
    mgx_c2_is_found(chassis);
    names_are_listed(hosts, ids, "Managers/"@ + bmc.s.manager() + "/HostInterfaces"@);
    let t = old(io)@;
    if t.replies.len() >= 2 + n && t.replies.subrange(2, 2 + n) == later {
        let all = Tape { replies: t.replies, pos: 2 };
        taken_so_far(*bmc, ids, EnabledDisabled::Disabled, all, later);
    }
    let head = seq![Ok(Response::System(system)), Ok(Response::Object(hosts))];
    let one: Seq<Reply> = seq![Ok(Response::ChassisList(chassis))];
    let two: Seq<Reply> = seq![Ok(Response::ChassisList(chassis)), Ok(Response::Written(w))];
    let three: Seq<Reply> = seq![
        Ok(Response::ChassisList(chassis)),
        Ok(Response::Written(w)),
        Ok(Response::Written(x)),
    ];
    assert((head + later).subrange(2, 2 + n) =~= later);
    assert((head + later + one).subrange(2, 2 + n) =~= later);
    assert((head + later + two).subrange(2, 2 + n) =~= later);
    assert((head + later + three).subrange(2, 2 + n) =~= later);
}

proof fn taken_so_far(
    bmc: Bmc,
    ids: Seq<Seq<char>>,
    target: EnabledDisabled,
    t: Tape,
    later: Seq<Reply>,
)
    requires
        all_taken(later, later.len() as int),
        later.len() <= ids.len(),
        t.replies.len() >= t.pos + later.len(),
        t.replies.subrange(t.pos as int, (t.pos + later.len()) as int) == later,
    ensures
        later.len() < ids.len() && t.replies.len() == t.pos + later.len()
            ==> bmc.each_host_interface(ids, target, t) == Flow::<()>::Wait(
            write_host_interface(bmc, ids[later.len() as int], target == EnabledDisabled::Enabled),
            Kind::Written,
        ),
        later.len() == ids.len() ==> bmc.each_host_interface(ids, target, t) == Flow::<()>::Ready(
            (),
            Tape { replies: t.replies, pos: t.pos + later.len() },
        ),
    decreases later.len(),
{
    if later.len() > 0 {
        assert(t.replies[t.pos as int] == later[0]);
        let rest = later.drop_first();
        assert(t.replies.subrange((t.pos + 1) as int, (t.pos + later.len()) as int) =~= rest);
        assert forall|i: int| 0 <= i < rest.len() implies #[trigger] rest[i] matches Ok(
            Response::Written(_),
        ) by {
            assert(rest[i] == later[i + 1]);
        }
        taken_so_far(bmc, ids.drop_first(), target, t.next(), rest);
    }
}

/// The KCS privilege is written as it is asked for, by its name. A processor module of an
/// MGX C2 system has the IPMI host interface in its place, which is on for
/// administrators alone; where the firmware has none, nothing is written.
pub proof fn set_kcs_privilege_run<'a>(
    bmc: &Bmc,
    privilege: Privilege,
    name: Seq<char>,
    chassis: Members<Chassis>,
    manager: Manager,
    w: Written,
    e: RedfishError,
    io: &mut Exchange<'a>,
    r: Result<(), Stop>,
)
    requires
        call_ensures(Bmc::set_kcs_privilege, (bmc, privilege, io), r),
        privilege == Privilege::Administrator ==> name == "Administrator"@,
        privilege == Privilege::Operator ==> name == "Operator"@,
        privilege == Privilege::User ==> name == "User"@,
        privilege == Privilege::Callback ==> name == "Callback"@,
    ensures
        old(io)@ == after(seq![]) ==> asks(r, read_chassis(), Kind::ChassisList),
        old(io)@ == after(seq![Err(e)]) ==> fails(r, e@),
        !on_mgx_c2(chassis) && old(io)@ == after(seq![Ok(Response::ChassisList(chassis))]) ==> asks(
            r,
            write_kcs(*bmc, name),
            Kind::Written,
        ),
        !on_mgx_c2(chassis) && old(io)@ == after(
            seq![Ok(Response::ChassisList(chassis)), Ok(Response::Written(w))],
        ) ==> r is Ok,
        !on_mgx_c2(chassis) && old(io)@ == after(
            seq![Ok(Response::ChassisList(chassis)), Err(e)],
        ) ==> fails(r, e@),
        on_mgx_c2(chassis) && old(io)@ == after(seq![Ok(Response::ChassisList(chassis))]) ==> asks(
            r,
            reading("Managers/"@ + bmc.s.manager()),
            Kind::Manager,
        ),
        on_mgx_c2(chassis) && old(io)@ == after(
            seq![Ok(Response::ChassisList(chassis)), Ok(Response::Manager(manager))],
        ) && has_ipmi_host_interface(manager) ==> asks(
            r,
            write_ipmi(*bmc, privilege == Privilege::Administrator),
            Kind::Written,
        ),
        on_mgx_c2(chassis) && old(io)@ == after(
            seq![
                Ok(Response::ChassisList(chassis)),
                Ok(Response::Manager(manager)),
                Ok(Response::Written(w)),
            ],
        ) && has_ipmi_host_interface(manager) ==> r is Ok,
        on_mgx_c2(chassis) && old(io)@ == after(
            seq![Ok(Response::ChassisList(chassis)), Ok(Response::Manager(manager))],
        ) && !has_ipmi_host_interface(manager) ==> r is Ok,
{
    chassis_are_at_the_top();
    mgx_c2_is_found(chassis);
}

/// An unlock, on an MGX C2 system: the IPMI host interface is turned on in place of the
/// KCS privilege, where the firmware has it; the host interfaces follow.
pub proof fn unlock_run_on_mgx_c2<'a>(
    bmc: &Bmc,
    w: Written,
    chassis: Members<Chassis>,
    manager: Manager,
    x: Written,
    io: &mut Exchange<'a>,
    r: Result<(), Stop>,
)
    requires
        call_ensures(Bmc::lockdown, (bmc, EnabledDisabled::Disabled, io), r),
        on_mgx_c2(chassis),
    ensures
        old(io)@ == after(seq![Ok(Response::Written(w)), Ok(Response::ChassisList(chassis))])
            ==> asks(r, reading("Managers/"@ + bmc.s.manager()), Kind::Manager),
        old(io)@ == after(
            seq![
                Ok(Response::Written(w)),
                Ok(Response::ChassisList(chassis)),
                Ok(Response::Manager(manager)),
            ],
        ) && has_ipmi_host_interface(manager) ==> asks(
            r,
            write_ipmi(*bmc, true),
            Kind::Written,
        ),
        old(io)@ == after(
            seq![
                Ok(Response::Written(w)),
                Ok(Response::ChassisList(chassis)),
                Ok(Response::Manager(manager)),
                Ok(Response::Written(x)),
            ],
        ) && has_ipmi_host_interface(manager) ==> asks(
            r,
            read_host_interfaces(*bmc),
            Kind::Object,
        ),
        old(io)@ == after(
            seq![
                Ok(Response::Written(w)),
                Ok(Response::ChassisList(chassis)),
                Ok(Response::Manager(manager)),
            ],
        ) && !has_ipmi_host_interface(manager) ==> asks(
            r,
            read_host_interfaces(*bmc),
            Kind::Object,
        ),
{
    chassis_are_at_the_top();
    mgx_c2_is_found(chassis);
}

/// A lock, on a machine that needs its host interfaces: they are left as they are, and
/// the lock begins with the KCS privilege, or, on an MGX C2 system, with the IPMI host
/// interface, where the firmware has it.
pub proof fn lock_run_with_host_interfaces<'a>(
    bmc: &Bmc,
    system: ComputerSystem,
    chassis: Members<Chassis>,
    manager: Manager,
    w: Written,
    x: Written,
    e: RedfishError,
    io: &mut Exchange<'a>,
    r: Result<(), Stop>,
)
    requires
        call_ensures(Bmc::lockdown, (bmc, EnabledDisabled::Enabled, io), r),
        needs_host_interface(system),
    ensures
        old(io)@ == after(seq![Ok(Response::System(system))]) ==> asks(
            r,
            read_chassis(),
            Kind::ChassisList,
        ),
        !on_mgx_c2(chassis) && old(io)@ == after(
            seq![Ok(Response::System(system)), Ok(Response::ChassisList(chassis))],
        ) ==> asks(r, write_kcs(*bmc, "Callback"@), Kind::Written),
        !on_mgx_c2(chassis) && old(io)@ == after(
            seq![
                Ok(Response::System(system)),
                Ok(Response::ChassisList(chassis)),
                Ok(Response::Written(w)),
            ],
        ) ==> asks(r, write_syslockdown(*bmc, true), Kind::Written),
        !on_mgx_c2(chassis) && old(io)@ == after(
            seq![
                Ok(Response::System(system)),
                Ok(Response::ChassisList(chassis)),
                Ok(Response::Written(w)),
                Ok(Response::Written(x)),
            ],
        ) ==> r is Ok,
        !on_mgx_c2(chassis) && old(io)@ == after(
            seq![Ok(Response::System(system)), Ok(Response::ChassisList(chassis)), Err(e)],
        ) ==> fails(r, e@),
        !on_mgx_c2(chassis) && old(io)@ == after(
            seq![
                Ok(Response::System(system)),
                Ok(Response::ChassisList(chassis)),
                Ok(Response::Written(w)),
                Err(e),
            ],
        ) ==> fails(r, e@),
        on_mgx_c2(chassis) && old(io)@ == after(
            seq![Ok(Response::System(system)), Ok(Response::ChassisList(chassis))],
        ) ==> asks(r, reading("Managers/"@ + bmc.s.manager()), Kind::Manager),
        on_mgx_c2(chassis) && has_ipmi_host_interface(manager) && old(io)@ == after(
            seq![
                Ok(Response::System(system)),
                Ok(Response::ChassisList(chassis)),
                Ok(Response::Manager(manager)),
            ],
        ) ==> asks(r, write_ipmi(*bmc, false), Kind::Written),
        on_mgx_c2(chassis) && has_ipmi_host_interface(manager) && old(io)@ == after(
            seq![
                Ok(Response::System(system)),
                Ok(Response::ChassisList(chassis)),
                Ok(Response::Manager(manager)),
                Ok(Response::Written(w)),
            ],
        ) ==> asks(r, write_syslockdown(*bmc, true), Kind::Written),
        on_mgx_c2(chassis) && !has_ipmi_host_interface(manager) && old(io)@ == after(
            seq![
                Ok(Response::System(system)),
                Ok(Response::ChassisList(chassis)),
                Ok(Response::Manager(manager)),
            ],
        ) ==> asks(r, write_syslockdown(*bmc, true), Kind::Written),
{
    chassis_are_at_the_top();
    other_models_are_not_kept(system);
    mgx_c2_is_found(chassis);
}

/// The lockdown of a machine with one host interface and a KCS interface is read off four
/// documents. It is on where system lockdown is on, the privilege is Callback and the
/// host interface is off or has to stay on; it is off where system lockdown is off, the
/// privilege is Administrator and the host interface is on; anything else is partial.
pub proof fn lockdown_status_run<'a>(
    bmc: &Bmc,
    hosts: Object,
    id: Seq<char>,
    host: Object,
    chassis: Members<Chassis>,
    kcs: Object,
    lockdown: Object,
    system: ComputerSystem,
    host_on: bool,
    privilege: Seq<char>,
    locked: bool,
    e: RedfishError,
    io: &mut Exchange<'a>,
    r: Result<Status, Stop>,
)
    requires
        call_ensures(Bmc::lockdown_status, (bmc, io), r),
        lists(hosts, seq![id]),
        lookup(host@, "InterfaceEnabled"@) == Some(JsonView::Bool(host_on)),
        !on_mgx_c2(chassis),
        lookup(kcs@, "Privilege"@) == Some(word(privilege)),
        privilege == "Administrator"@ || privilege == "Operator"@ || privilege == "User"@
            || privilege == "Callback"@,
        lookup(lockdown@, "SysLockdownEnabled"@) == Some(JsonView::Bool(locked)),
    ensures
        old(io)@ == after(seq![]) ==> asks(r, read_host_interfaces(*bmc), Kind::Object),
        old(io)@ == after(seq![Err(e)]) ==> fails(r, e@),
        old(io)@ == after(seq![Ok(Response::Object(hosts))]) ==> asks(
            r,
            reading("Managers/"@ + bmc.s.manager() + "/HostInterfaces/"@ + id),
            Kind::Object,
        ),
        old(io)@ == after(seq![Ok(Response::Object(hosts)), Ok(Response::Object(host))]) ==> asks(
            r,
            read_chassis(),
            Kind::ChassisList,
        ),
        old(io)@ == after(
            seq![
                Ok(Response::Object(hosts)),
                Ok(Response::Object(host)),
                Ok(Response::ChassisList(chassis)),
            ],
        ) ==> asks(
            r,
            reading("Managers/"@ + bmc.s.manager() + "/Oem/Supermicro/KCSInterface"@),
            Kind::Object,
        ),
        old(io)@ == after(
            seq![
                Ok(Response::Object(hosts)),
                Ok(Response::Object(host)),
                Ok(Response::ChassisList(chassis)),
                Ok(Response::Object(kcs)),
            ],
        ) ==> asks(
            r,
            reading("Managers/"@ + bmc.s.manager() + "/Oem/Supermicro/SysLockdown"@),
            Kind::Object,
        ),
        old(io)@ == after(
            seq![
                Ok(Response::Object(hosts)),
                Ok(Response::Object(host)),
                Ok(Response::ChassisList(chassis)),
                Ok(Response::Object(kcs)),
                Ok(Response::Object(lockdown)),
            ],
        ) ==> asks(r, reading("Systems/"@ + bmc.s.system() + "/"@), Kind::System),
        old(io)@ == after(
            seq![
                Ok(Response::Object(hosts)),
                Ok(Response::Object(host)),
                Ok(Response::ChassisList(chassis)),
                Ok(Response::Object(kcs)),
                Ok(Response::Object(lockdown)),
                Ok(Response::System(system)),
            ],
        ) ==> {
            &&& r is Ok
            &&& r->Ok_0.status == StatusInternal::Enabled <==> locked && privilege == "Callback"@
                && (!host_on || needs_host_interface(system))
            &&& r->Ok_0.status == StatusInternal::Disabled <==> !locked && privilege
                == "Administrator"@ && host_on
            &&& r->Ok_0.message@ == "SysLockdownEnabled="@ + shown(locked)
                + ", kcs_privilege=Some(\n    "@ + privilege + ",\n), host_interface_enabled="@
                + shown(host_on)
        },
{
    chassis_are_at_the_top();
    other_models_are_not_kept(system);
    mgx_c2_is_found(chassis);
    names_are_listed(hosts, seq![id], "Managers/"@ + bmc.s.manager() + "/HostInterfaces"@);
    privileges_differ();
    let a = "SysLockdownEnabled="@ + shown(locked);
    let b = ", host_interface_enabled="@;
    reveal_strlit(", kcs_privilege=");
    reveal_strlit("Some(\n    ");
    reveal_strlit(",\n)");
    reveal_strlit(", host_interface_enabled=");
    reveal_strlit(", kcs_privilege=Some(\n    ");
    reveal_strlit(",\n), host_interface_enabled=");
    assert(a + ", kcs_privilege="@ + ("Some(\n    "@ + privilege + ",\n)"@) + b =~= a
        + ", kcs_privilege=Some(\n    "@ + privilege + ",\n), host_interface_enabled="@);
}

/// A truth value in words.
pub open spec fn shown(b: bool) -> Seq<char> {
    if b {
        "true"@
    } else {
        "false"@
    }
}

proof fn privileges_differ()
    ensures
        "Administrator"@ != "Operator"@,
        "Administrator"@ != "User"@,
        "Administrator"@ != "Callback"@,
        "Operator"@ != "User"@,
        "Operator"@ != "Callback"@,
        "User"@ != "Callback"@,
{
    reveal_strlit("Administrator");
    reveal_strlit("Operator");
    reveal_strlit("User");
    reveal_strlit("Callback");
    assert("Administrator"@.len() == 13 && "Operator"@.len() == 8 && "User"@.len() == 4);
    assert("Callback"@.len() == 8 && "Operator"@[0] == 'O' && "Callback"@[0] == 'C');
}

/// What was written is read back: a machine with one host interface and a KCS interface
/// whose documents have taken the three changes that an unlock asks for is reported as
/// unlocked, and one that has taken those of a lock as locked. `first`, `second` and
/// `third` are the requests that the operation waits on.
pub proof fn written_lockdown_is_read_back<'a>(
    bmc: &Bmc,
    target: EnabledDisabled,
    hosts: Object,
    id: Seq<char>,
    chassis: Members<Chassis>,
    system: ComputerSystem,
    a: Written,
    b: Written,
    before_host: Object,
    before_kcs: Object,
    before_lockdown: Object,
    host: Object,
    kcs: Object,
    lockdown: Object,
    host_request: RequestView,
    kcs_request: RequestView,
    lockdown_request: RequestView,
    at_host: &mut Exchange<'a>,
    for_host: Result<(), Stop>,
    at_kcs: &mut Exchange<'a>,
    for_kcs: Result<(), Stop>,
    at_lockdown: &mut Exchange<'a>,
    for_lockdown: Result<(), Stop>,
    io: &mut Exchange<'a>,
    r: Result<Status, Stop>,
)
    requires
        lists(hosts, seq![id]),
        !on_mgx_c2(chassis),
        !needs_host_interface(system),
        call_ensures(Bmc::lockdown, (bmc, target, at_host), for_host),
        call_ensures(Bmc::lockdown, (bmc, target, at_kcs), for_kcs),
        call_ensures(Bmc::lockdown, (bmc, target, at_lockdown), for_lockdown),
        target == EnabledDisabled::Enabled ==> {
            &&& old(at_host)@ == after(
                seq![Ok(Response::System(system)), Ok(Response::Object(hosts))],
            )
            &&& old(at_kcs)@ == after(
                seq![
                    Ok(Response::System(system)),
                    Ok(Response::Object(hosts)),
                    Ok(Response::Written(a)),
                    Ok(Response::ChassisList(chassis)),
                ],
            )
            &&& old(at_lockdown)@ == after(
                seq![
                    Ok(Response::System(system)),
                    Ok(Response::Object(hosts)),
                    Ok(Response::Written(a)),
                    Ok(Response::ChassisList(chassis)),
                    Ok(Response::Written(b)),
                ],
            )
        },
        target == EnabledDisabled::Disabled ==> {
            &&& old(at_lockdown)@ == after(seq![])
            &&& old(at_kcs)@ == after(
                seq![Ok(Response::Written(a)), Ok(Response::ChassisList(chassis))],
            )
            &&& old(at_host)@ == after(
                seq![
                    Ok(Response::Written(a)),
                    Ok(Response::ChassisList(chassis)),
                    Ok(Response::Written(b)),
                    Ok(Response::Object(hosts)),
                ],
            )
        },
        asks(for_host, host_request, Kind::Written),
        asks(for_kcs, kcs_request, Kind::Written),
        asks(for_lockdown, lockdown_request, Kind::Written),
        host@ == extended(before_host@, body_of(host_request)),
        kcs@ == extended(before_kcs@, body_of(kcs_request)),
        lockdown@ == extended(before_lockdown@, body_of(lockdown_request)),
        call_ensures(Bmc::lockdown_status, (bmc, io), r),
        old(io)@ == after(
            seq![
                Ok(Response::Object(hosts)),
                Ok(Response::Object(host)),
                Ok(Response::ChassisList(chassis)),
                Ok(Response::Object(kcs)),
                Ok(Response::Object(lockdown)),
                Ok(Response::System(system)),
            ],
        ),
    ensures
        r is Ok,
        target == EnabledDisabled::Enabled ==> r->Ok_0.status == StatusInternal::Enabled
            && lookup(kcs@, "Privilege"@) == Some(word("Callback"@)),
        target == EnabledDisabled::Disabled ==> r->Ok_0.status == StatusInternal::Disabled
            && lookup(kcs@, "Privilege"@) == Some(word("Administrator"@)),
        host_request.url == "Managers/"@ + bmc.s.manager() + "/HostInterfaces/"@ + id,
        kcs_request.url == "Managers/"@ + bmc.s.manager() + "/Oem/Supermicro/KCSInterface"@,
        lockdown_request.url == "Managers/"@ + bmc.s.manager() + "/Oem/Supermicro/SysLockdown"@,
{
    let on = target == EnabledDisabled::Disabled;
    let name = if on {
        "Administrator"@
    } else {
        "Callback"@
    };
    let e = Fault::NoContent;
    chassis_are_at_the_top();
    other_models_are_not_kept(system);
    mgx_c2_is_found(chassis);
    names_are_listed(hosts, seq![id], "Managers/"@ + bmc.s.manager() + "/HostInterfaces"@);
    reveal_with_fuel(Bmc::each_host_interface, 3);
    assert(host_request == write_host_interface(*bmc, id, on));
    assert(kcs_request == write_kcs(*bmc, name));
    assert(lockdown_request == write_syslockdown(*bmc, !on));
    written_is_found(before_host@, "InterfaceEnabled"@, JsonView::Bool(on));
    written_is_found(before_kcs@, "Privilege"@, word(name));
    written_is_found(before_lockdown@, "SysLockdownEnabled"@, JsonView::Bool(!on));
    lockdown_status_run(
        bmc,
        hosts,
        id,
        host,
        chassis,
        kcs,
        lockdown,
        system,
        on,
        name,
        !on,
        e,
        io,
        r,
    );
    privileges_differ();
}

/// Whether the attribute `key` has the canonical name `name`: the key is the name with an
/// ending that one or more underscores part from it, or the name alone, without an
/// underscore.
pub open spec fn is_named(key: Seq<char>, name: Seq<char>) -> bool {
    if free_of(key, '_') {
        key == name
    } else {
        &&& name.len() == 0 || name.last() != '_'
        &&& exists|line: Seq<char>, ending: Seq<char>|
            #![trigger name + line + ending]
            key == name + line + ending && only_underscores(line) && free_of(ending, '_')
    }
}

/// Whether `line` is one or more underscores.
pub open spec fn only_underscores(line: Seq<char>) -> bool {
    line.len() > 0 && forall|i: int| 0 <= i < line.len() ==> #[trigger] line[i] == '_'
}

proof fn part_behind_is_free(s: Seq<char>, c: char)
    ensures
        last_of(s, c) matches Some(l) ==> forall|i: int| l < i < s.len() ==> #[trigger] s[i] != c,
    decreases s.len(),
{
    if s.len() > 0 && s.last() != c {
        let init = s.drop_last();
        part_behind_is_free(init, c);
        last_of_is_there(init, c);
        if let Some(l) = last_of(s, c) {
            assert forall|i: int| l < i < s.len() implies #[trigger] s[i] != c by {
                if i < init.len() {
                    assert(init[i] == s[i]);
                }
            }
        }
    }
}

/// The canonical name of a key is the one name that it has.
pub proof fn key_has_one_name(key: Seq<char>, name: Seq<char>)
    ensures
        is_named(key, name) <==> clean_key(key) == name,
{
    let c = '_';
    last_of_is_there(key, c);
    part_behind_is_free(key, c);
    if let Some(l) = last_of(key, c) {
        let start = key.take(l);
        let r = without_trailing(start, c);
        ends_are_taken_off(start, c);
        let line = key.subrange(r.len() as int, l + 1);
        let ending = key.skip(l + 1);
        assert(key =~= r + line + ending);
        assert forall|i: int| 0 <= i < line.len() implies #[trigger] line[i] == c by {
            if r.len() + i < l {
                assert(start[r.len() + i] == key[r.len() + i]);
            }
        }
        if is_named(key, name) {
            let (line, ending) = choose|line: Seq<char>, ending: Seq<char>|
                #![trigger name + line + ending]
                key == name + line + ending && only_underscores(line) && free_of(ending, '_');
            let n = name.len() as int;
            let end = n + line.len();
            assert(key[end - 1] == line[line.len() - 1]);
            if l >= end {
                assert(key[l] == ending[l - end]);
            }
            assert(l == end - 1);
            assert forall|i: int| n <= i < l implies #[trigger] key[i] == c by {
                assert(key[i] == line[i - n]);
            }
            if r.len() > n {
                assert(r.last() == key[r.len() - 1]);
            }
            if r.len() < n {
                assert(start[n - 1] == key[n - 1]);
                assert(key[n - 1] == name[n - 1]);
            }
            assert(r =~= name);
        }
    }
}

/// Whether a machine that is set up has `value` under the attributes with the canonical
/// name `name`. The TPM is turned on by the word `on`.
pub open spec fn required(name: Seq<char>, on: Seq<char>, value: JsonView) -> bool {
    ||| name == "QuietBoot"@ && value == JsonView::Bool(false)
    ||| name == "Re-tryBoot"@ && value == word("EFI Boot"@)
    ||| name == "CSMSupport"@ && value == word("Disabled"@)
    ||| name == "SecureBootEnable"@ && value == JsonView::Bool(false)
    ||| name == "TXTSupport"@ && value == word("Enabled"@)
    ||| name == "DeviceSelect"@ && value == word("TPM 2.0"@)
    ||| name == "IntelVTforDirectedI/O(VT-d)"@ && value == word("Enable"@)
    ||| name == "IntelVirtualizationTechnology"@ && value == word("Enable"@)
    ||| name == "SR-IOVSupport"@ && value == word("Enabled"@)
    ||| name == "SR_IOVSupport"@ && value == word("Enabled"@)
    ||| name == "IPv4HTTPSupport"@ && value == word("Enabled"@)
    ||| name == "IPv4PXESupport"@ && value == word("Disabled"@)
    ||| name == "IPv6HTTPSupport"@ && value == word("Disabled"@)
    ||| name == "IPv6PXESupport"@ && value == word("Disabled"@)
    ||| name == "SecurityDeviceSupport"@ && value == word(on)
}

proof fn rules_are_those_required(on: Seq<char>, name: Seq<char>, value: JsonView)
    ensures
        required(name, on, value) <==> exists|j: int|
            0 <= j < rules_with_tpm(on).len() && #[trigger] rules_with_tpm(on)[j] == (name, value),
{
    let rules = rules_with_tpm(on);
    assert(rules.len() == 15);
    if required(name, on, value) {
        assert(rules[0] == ("QuietBoot"@, JsonView::Bool(false)));
        assert(rules[1] == ("Re-tryBoot"@, word("EFI Boot"@)));
        assert(rules[2] == ("CSMSupport"@, word("Disabled"@)));
        assert(rules[3] == ("SecureBootEnable"@, JsonView::Bool(false)));
        assert(rules[4] == ("TXTSupport"@, word("Enabled"@)));
        assert(rules[5] == ("DeviceSelect"@, word("TPM 2.0"@)));
        assert(rules[6] == ("IntelVTforDirectedI/O(VT-d)"@, word("Enable"@)));
        assert(rules[7] == ("IntelVirtualizationTechnology"@, word("Enable"@)));
        assert(rules[8] == ("SR-IOVSupport"@, word("Enabled"@)));
        assert(rules[9] == ("SR_IOVSupport"@, word("Enabled"@)));
        assert(rules[10] == ("IPv4HTTPSupport"@, word("Enabled"@)));
        assert(rules[11] == ("IPv4PXESupport"@, word("Disabled"@)));
        assert(rules[12] == ("IPv6HTTPSupport"@, word("Disabled"@)));
        assert(rules[13] == ("IPv6PXESupport"@, word("Disabled"@)));
        assert(rules[14] == ("SecurityDeviceSupport"@, word(on)));
    }
}

/// Whether `settings` are those of a setup, for a machine with the attributes `attrs`:
/// each is of an attribute that the machine has and has the value that is required of
/// it, and each attribute of which a value is required is set to it.
pub open spec fn sets_up(settings: ObjectView, attrs: ObjectView, on: Seq<char>) -> bool {
    &&& unique_keys(settings)
    &&& forall|i: int|
        0 <= i < settings.len() ==> has_key(attrs, (#[trigger] settings[i]).0) && exists|
            name: Seq<char>,
        |
            #[trigger] is_named(settings[i].0, name) && required(name, on, settings[i].1)
    &&& forall|key: Seq<char>, name: Seq<char>, value: JsonView|
        has_key(attrs, key) && #[trigger] is_named(key, name) && #[trigger] required(
            name,
            on,
            value,
        ) ==> lookup(settings, key) == Some(value)
}

proof fn entry_follows_the_rule(
    attrs: ObjectView,
    rules: Seq<(Seq<char>, JsonView)>,
    key: Seq<char>,
    j: int,
)
    requires
        0 <= j < rules.len(),
        has_key(attrs, key),
        clean_key(key) == rules[j].0,
    ensures
        exists|i: int|
            0 <= i < all_ruled(attrs, rules).len() && #[trigger] all_ruled(attrs, rules)[i] == (
                key,
                rules[j].1,
            ),
    decreases rules.len(),
{
    let init = rules.drop_last();
    let before = all_ruled(attrs, init);
    let all = all_ruled(attrs, rules);
    if j < init.len() {
        entry_follows_the_rule(attrs, init, key, j);
        let i = choose|i: int|
            0 <= i < before.len() && #[trigger] before[i] == (key, init[j].1);
        assert(all[i] == (key, rules[j].1));
    } else {
        let keys = keys_named(attrs, rules.last().0);
        name_map_groups_by_canonical_name(attrs, rules.last().0);
        name_map_partitions(attrs, rules.last().0, key);
        assert(keys.contains(key));
        let k = choose|k: int| 0 <= k < keys.len() && keys[k] == key;
        assert(all[before.len() + k] == (key, rules[j].1));
    }
}

proof fn entries_agree(attrs: ObjectView, on: Seq<char>, key: Seq<char>, value: JsonView)
    requires
        last_value(all_ruled(attrs, rules_with_tpm(on)), key) == Some(value),
    ensures
        has_key(attrs, key),
        required(clean_key(key), on, value),
        forall|v: JsonView| #[trigger] required(clean_key(key), on, v) ==> v == value,
{
    let rules = rules_with_tpm(on);
    let all = all_ruled(attrs, rules);
    last_value_is_an_entry(all, key);
    let i = choose|i: int| 0 <= i < all.len() && #[trigger] all[i] == (key, value);
    settings_follow_a_rule(attrs, rules, i);
    settings_are_of_the_machine(attrs, rules, i);
    let j = choose|j: int|
        0 <= j < rules.len() && (#[trigger] rules[j]).0 == clean_key(all[i].0) && rules[j].1
            == all[i].1;
    assert(rules[j] == (clean_key(key), value));
    rules_are_those_required(on, clean_key(key), value);
    rules_are_distinct(on);
    assert forall|v: JsonView| #[trigger] required(clean_key(key), on, v) implies v == value by {
        rules_are_those_required(on, clean_key(key), v);
        let k = choose|k: int| 0 <= k < rules.len() && #[trigger] rules[k] == (clean_key(key), v);
        assert(rules[k].0 == rules[j].0);
    }
}

proof fn rules_set_up(attrs: ObjectView, on: Seq<char>)
    ensures
        sets_up(
            extended(
                Seq::empty(),
                all_ruled(attrs, setup_rules()) + ruled(
                    attrs,
                    ("SecurityDeviceSupport"@, JsonView::Text(on)),
                ),
            ),
            attrs,
            on,
        ),
{
    let rules = rules_with_tpm(on);
    let all = all_ruled(attrs, rules);
    assert(rules.drop_last() =~= setup_rules());
    let settings = extended(Seq::empty(), all);
    extended_keeps_keys_unique(Seq::empty(), all);
    assert forall|i: int| 0 <= i < settings.len() implies has_key(attrs, (#[trigger] settings[i]).0)
        && exists|name: Seq<char>|
        #[trigger] is_named(settings[i].0, name) && required(name, on, settings[i].1) by {
        let key = settings[i].0;
        unique_entry_is_found(settings, i);
        extended_is_found(Seq::empty(), all, key);
        assert(last_value(all, key) == Some(settings[i].1));
        entries_agree(attrs, on, key, settings[i].1);
        key_has_one_name(key, clean_key(key));
        assert(is_named(key, clean_key(key)));
    }
    assert forall|key: Seq<char>, name: Seq<char>, value: JsonView|
        has_key(attrs, key) && #[trigger] is_named(key, name) && #[trigger] required(
            name,
            on,
            value,
        ) implies lookup(settings, key) == Some(value) by {
        key_has_one_name(key, name);
        rules_are_those_required(on, name, value);
        let j = choose|j: int| 0 <= j < rules.len() && #[trigger] rules[j] == (name, value);
        entry_follows_the_rule(attrs, rules, key, j);
        last_value_is_an_entry(all, key);
        extended_is_found(Seq::empty(), all, key);
        let found = last_value(all, key)->0;
        entries_agree(attrs, on, key, found);
    }
}

/// Whether the first attribute whose key begins with SecurityDeviceSupport has the value
/// `state`.
pub open spec fn tpm_is(attrs: ObjectView, state: JsonView) -> bool {
    exists|i: int|
        #![trigger attrs[i]]
        0 <= i < attrs.len() && begins(attrs[i].0, "SecurityDeviceSupport"@) && attrs[i].1 == state
            && forall|k: int|
            0 <= k < i ==> !begins((#[trigger] attrs[k]).0, "SecurityDeviceSupport"@)
}

/// Whether no key begins with SecurityDeviceSupport.
pub open spec fn without_tpm(attrs: ObjectView) -> bool {
    forall|i: int|
        0 <= i < attrs.len() ==> !begins((#[trigger] attrs[i]).0, "SecurityDeviceSupport"@)
}

proof fn tpm_keys_begin(key: Seq<char>)
    ensures
        begins(before_first(key, '_'), "SecurityDeviceSupport"@) <==> begins(
            key,
            "SecurityDeviceSupport"@,
        ),
{
    let p = "SecurityDeviceSupport"@;
    reveal_strlit("SecurityDeviceSupport");
    assert(p.len() == 21);
    first_of_is_first(key, '_');
    let head = before_first(key, '_');
    if begins(key, p) {
        assert forall|i: int| 0 <= i < 21 implies #[trigger] key[i] != '_' by {
            assert(key.subrange(0, 21)[i] == p[i]);
        }
        assert(head.subrange(0, 21) =~= key.subrange(0, 21));
    }
    if begins(head, p) {
        assert(head.subrange(0, 21) =~= key.subrange(0, 21));
    }
}

proof fn tpm_state_is_read(attrs: ObjectView, state: JsonView)
    ensures
        tpm_is(attrs, state) ==> tpm_value(JsonView::Object(attrs)) == as_text(Some(state)),
        without_tpm(attrs) ==> tpm_value(JsonView::Object(attrs)) is None,
{
    let p = |e: (Seq<char>, JsonView)| begins(before_first(e.0, '_'), "SecurityDeviceSupport"@);
    assert forall|i: int| 0 <= i < attrs.len() implies p(#[trigger] attrs[i]) == begins(
        attrs[i].0,
        "SecurityDeviceSupport"@,
    ) by {
        tpm_keys_begin(attrs[i].0);
    }
    if tpm_is(attrs, state) {
        let i = choose|i: int|
            #![trigger attrs[i]]
            0 <= i < attrs.len() && begins(attrs[i].0, "SecurityDeviceSupport"@) && attrs[i].1
                == state && forall|k: int|
                0 <= k < i ==> !begins((#[trigger] attrs[k]).0, "SecurityDeviceSupport"@);
        first_where_found(attrs, p, i);
    }
    if without_tpm(attrs) {
        first_where_absent(attrs, p);
    }
}

/// Whether the TPM of a machine in the state `state` is turned on by the word `on`: the
/// one of the two pairs of words that the state is from.
pub open spec fn turned_on_by(state: JsonView, on: Seq<char>) -> bool {
    ||| (state == word("Enabled"@) || state == word("Disabled"@)) && on == "Enabled"@
    ||| (state == word("Enable"@) || state == word("Disable"@)) && on == "Enable"@
}

proof fn words_differ()
    ensures
        "Enabled"@ != "Enable"@,
        "Enabled"@ != "Disable"@,
        "Disabled"@ != "Enable"@,
        "Disabled"@ != "Disable"@,
        "Enabled"@ != "Disabled"@,
        "Enable"@ != "Disable"@,
{
    reveal_strlit("Enabled");
    reveal_strlit("Disabled");
    reveal_strlit("Enable");
    reveal_strlit("Disable");
    assert("Enabled"@.len() == 7 && "Disabled"@.len() == 8 && "Enable"@.len() == 6);
    assert("Disable"@.len() == 7 && "Disable"@[0] == 'D' && "Enabled"@[0] == 'E');
}

/// A machine setup: the BIOS attributes are read twice, and the ones of which something is
/// required are written, each with the value that is required of it, and no others. A
/// machine whose TPM cannot be turned on is left alone.
pub proof fn machine_setup_run<'a>(
    bmc: &Bmc,
    bios: Object,
    attrs: ObjectView,
    current: Object,
    now: ObjectView,
    state: JsonView,
    on: Seq<char>,
    w: Written,
    e: RedfishError,
    io: &mut Exchange<'a>,
    r: Result<Option<String>, Stop>,
)
    requires
        call_ensures(Bmc::machine_setup, (bmc, io), r),
        lookup(bios@, "Attributes"@) == Some(JsonView::Object(attrs)),
        lookup(current@, "Attributes"@) == Some(JsonView::Object(now)),
    ensures
        old(io)@ == after(seq![]) ==> asks(
            r,
            reading("Systems/"@ + bmc.s.system() + "/Bios"@),
            Kind::Object,
        ),
        old(io)@ == after(seq![Err(e)]) ==> fails(r, e@),
        old(io)@ == after(seq![Ok(Response::Object(bios))]) ==> asks(
            r,
            reading("Systems/"@ + bmc.s.system() + "/Bios"@),
            Kind::Object,
        ),
        old(io)@ == after(seq![Ok(Response::Object(bios)), Ok(Response::Object(current))])
            && tpm_is(now, state) && turned_on_by(state, on) ==> exists|settings: ObjectView|
            #[trigger] sets_up(settings, attrs, on) && asks(
                r,
                changing(
                    "Systems/"@ + bmc.s.system() + "/Bios"@,
                    seq![("Attributes"@, JsonView::Object(settings))],
                ),
                Kind::Written,
            ),
        old(io)@ == after(
            seq![
                Ok(Response::Object(bios)),
                Ok(Response::Object(current)),
                Ok(Response::Written(w)),
            ],
        ) && tpm_is(now, state) && turned_on_by(state, on) ==> r == Ok::<Option<String>, Stop>(
            None,
        ),
        old(io)@ == after(
            seq![Ok(Response::Object(bios)), Ok(Response::Object(current)), Err(e)],
        ) && tpm_is(now, state) && turned_on_by(state, on) ==> fails(r, e@),
        old(io)@ == after(seq![Ok(Response::Object(bios)), Ok(Response::Object(current))])
            && tpm_is(now, state) && (state matches JsonView::Text(_)) && !turned_on_by(
            state,
            "Enabled"@,
        ) && !turned_on_by(state, "Enable"@) ==> fails(
            r,
            Fault::GenericError { error: "Unexpected SecurityDeviceSupport value"@ },
        ),
        old(io)@ == after(seq![Ok(Response::Object(bios)), Ok(Response::Object(current))]) && (
        without_tpm(now) || (tpm_is(now, state) && !(state matches JsonView::Text(_)))) ==> fails(
            r,
            Fault::GenericError { error: "Missing SecurityDeviceSupport value"@ },
        ),
{
    tpm_state_is_read(now, state);
    words_differ();
    rules_set_up(attrs, on);
}

/// The attributes that a machine should have, by name: an attribute with one of the
/// canonical names has the value beside it.
pub proof fn setup_attrs_by_name<'a>(
    bmc: &Bmc,
    bios: Object,
    attrs: ObjectView,
    current: Object,
    now: ObjectView,
    state: JsonView,
    on: Seq<char>,
    key: Seq<char>,
    io: &mut Exchange<'a>,
    r: Result<Object, Stop>,
)
    requires
        call_ensures(Bmc::machine_setup_attrs, (bmc, io), r),
        lookup(bios@, "Attributes"@) == Some(JsonView::Object(attrs)),
        lookup(current@, "Attributes"@) == Some(JsonView::Object(now)),
        tpm_is(now, state),
        turned_on_by(state, on),
        old(io)@ == after(seq![Ok(Response::Object(bios)), Ok(Response::Object(current))]),
        has_key(attrs, key),
    ensures
        r is Ok,
        is_named(key, "QuietBoot"@) ==> last_value(r->Ok_0@, key) == Some(JsonView::Bool(false)),
        is_named(key, "Re-tryBoot"@) ==> last_value(r->Ok_0@, key) == Some(word("EFI Boot"@)),
        is_named(key, "CSMSupport"@) ==> last_value(r->Ok_0@, key) == Some(word("Disabled"@)),
        is_named(key, "SecureBootEnable"@) ==> last_value(r->Ok_0@, key) == Some(JsonView::Bool(false)),
        is_named(key, "TXTSupport"@) ==> last_value(r->Ok_0@, key) == Some(word("Enabled"@)),
        is_named(key, "DeviceSelect"@) ==> last_value(r->Ok_0@, key) == Some(word("TPM 2.0"@)),
        is_named(key, "IntelVTforDirectedI/O(VT-d)"@) ==> last_value(r->Ok_0@, key) == Some(
            word("Enable"@),
        ),
        is_named(key, "IntelVirtualizationTechnology"@) ==> last_value(r->Ok_0@, key) == Some(
            word("Enable"@),
        ),
        is_named(key, "SR-IOVSupport"@) ==> last_value(r->Ok_0@, key) == Some(word("Enabled"@)),
        is_named(key, "SR_IOVSupport"@) ==> last_value(r->Ok_0@, key) == Some(word("Enabled"@)),
        is_named(key, "IPv4HTTPSupport"@) ==> last_value(r->Ok_0@, key) == Some(word("Enabled"@)),
        is_named(key, "IPv4PXESupport"@) ==> last_value(r->Ok_0@, key) == Some(word("Disabled"@)),
        is_named(key, "IPv6HTTPSupport"@) ==> last_value(r->Ok_0@, key) == Some(word("Disabled"@)),
        is_named(key, "IPv6PXESupport"@) ==> last_value(r->Ok_0@, key) == Some(word("Disabled"@)),
        is_named(key, "SecurityDeviceSupport"@) ==> last_value(r->Ok_0@, key) == Some(word(on)),
{
    tpm_state_is_read(now, state);
    words_differ();
    rules_set_up(attrs, on);
    extended_is_found(Seq::empty(), r->Ok_0@, key);
    assert(required("QuietBoot"@, on, JsonView::Bool(false)));
    assert(required("Re-tryBoot"@, on, word("EFI Boot"@)));
    assert(required("CSMSupport"@, on, word("Disabled"@)));
    assert(required("SecureBootEnable"@, on, JsonView::Bool(false)));
    assert(required("TXTSupport"@, on, word("Enabled"@)));
    assert(required("DeviceSelect"@, on, word("TPM 2.0"@)));
    assert(required("IntelVTforDirectedI/O(VT-d)"@, on, word("Enable"@)));
    assert(required("IntelVirtualizationTechnology"@, on, word("Enable"@)));
    assert(required("SR-IOVSupport"@, on, word("Enabled"@)));
    assert(required("SR_IOVSupport"@, on, word("Enabled"@)));
    assert(required("IPv4HTTPSupport"@, on, word("Enabled"@)));
    assert(required("IPv4PXESupport"@, on, word("Disabled"@)));
    assert(required("IPv6HTTPSupport"@, on, word("Disabled"@)));
    assert(required("IPv6PXESupport"@, on, word("Disabled"@)));
    assert(required("SecurityDeviceSupport"@, on, word(on)));
}

/// Whether an entry of a boot order has the reference `target`: it is the reference, or
/// the reference and a description behind a colon.
pub open spec fn refers_to(entry: Seq<char>, target: Seq<char>) -> bool {
    free_of(target, ':') && (entry == target || exists|rest: Seq<char>|
        #![trigger target + seq![':'] + rest]
        entry == target + seq![':'] + rest)
}

pub(crate) proof fn reference_is_of_the_entry(entry: Seq<char>, target: Seq<char>)
    ensures
        reference_of(entry) == target <==> refers_to(entry, target),
{
    before_first_is_free(entry, ':');
    if refers_to(entry, target) {
        if entry == target {
            before_first_is_the_first_part(target, ':', Seq::empty());
        } else {
            let rest = choose|rest: Seq<char>|
                #![trigger target + seq![':'] + rest]
                entry == target + seq![':'] + rest;
            before_first_is_the_first_part(target, ':', rest);
        }
    }
}

/// Whether `new` is the boot order `order` with `target` first: the first entry that refers
/// to it comes to the front and the others keep their order, or, where no entry does, it
/// is added in front of them.
pub open spec fn puts_first(new: Seq<Seq<char>>, order: Seq<Seq<char>>, target: Seq<char>) -> bool {
    if exists|i: int| 0 <= i < order.len() && refers_to(#[trigger] order[i], target) {
        exists|i: int|
            0 <= i < order.len() && refers_to(#[trigger] order[i], target) && (forall|k: int|
                0 <= k < i ==> !refers_to(#[trigger] order[k], target)) && new == seq![order[i]]
                + order.remove(i)
    } else {
        new == seq![target] + order
    }
}

/// Whether a boot option is the one of the DPU with the MAC address `mac`: it boots over
/// HTTP on IPv4 from a Mellanox or NVIDIA card, and has the address in its name.
pub open spec fn boots_dpu(name: Seq<char>, mac: Seq<char>) -> bool {
    (has(name, "UEFI HTTP IPv4 Mellanox Network Adapter"@) || has(
        name,
        "UEFI HTTP IPv4 Nvidia Network Adapter"@,
    )) && has(upper(name), upper(mac))
}

/// The request that sets the boot order to `order`.
pub open spec fn write_boot_order(bmc: Bmc, order: Seq<Seq<char>>) -> RequestView {
    changing(
        "Systems/"@ + bmc.s.system(),
        seq![("Boot"@, JsonView::Object(seq![("BootOrder"@, words(order))]))],
    )
}

pub(crate) proof fn target_is_put_first(order: Seq<Seq<char>>, target: Seq<char>)
    ensures
        puts_first(target_first(order, target), order, target),
        order.len() > 0 ==> (reference_of(order[0]) == target <==> refers_to(order[0], target)),
        target_first(order, target).len() > 0,
        free_of(target, ':') ==> refers_to(target_first(order, target)[0], target),
        (exists|i: int| 0 <= i < order.len() && refers_to(#[trigger] order[i], target))
            ==> target_first(order, target).to_multiset() == order.to_multiset(),
        !(exists|i: int| 0 <= i < order.len() && refers_to(#[trigger] order[i], target))
            ==> target_first(order, target).to_multiset() == order.to_multiset().insert(target),
{
    let p = |entry: Seq<char>| reference_of(entry) == target;
    assert forall|i: int| 0 <= i < order.len() implies p(#[trigger] order[i]) == refers_to(
        order[i],
        target,
    ) by {
        reference_is_of_the_entry(order[i], target);
    }
    first_where_is_first(order, p);
    target_first_keeps_entries(order, target);
    if let Some(i) = reference_position(order, target) {
        assert(moved_first(order, i) =~= seq![order[i]] + order.remove(i));
        assert(refers_to(order[i], target));
    } else {
        reference_is_of_the_entry(target, target);
    }
}

proof fn reference_comes_from_an_option(bmc: Bmc, links: Seq<ODataId>, mac: Seq<char>, t: Tape)
    ensures
        bmc.reference_among(links, mac, t) matches Flow::Wait(q, _) ==> q.method == Method::Get,
        bmc.reference_among(links, mac, t) matches Flow::Ready(target, u) ==> u.replies == t.replies
            && exists|i: int|
            t.pos <= i < t.replies.len() && (#[trigger] t.replies[i] matches Ok(
                Response::BootOption(option),
            ) && boots_dpu(option.display_name@, mac) && option.boot_option_reference@ == target),
    decreases links.len(),
{
    if links.len() > 0 {
        if let Flow::Ready(option, u) = fetched::<BootOption>(
            bmc.s.boot_option_request(after_last(links[0].odata_id@, '/')),
            t,
        ) {
            reference_comes_from_an_option(bmc, links.drop_first(), mac, u);
            assert(t.replies[t.pos as int] == Reply::Ok(Response::BootOption(option)));
        }
    }
}

/// Whether `q` sets the boot order of the system in the reply at `place` so that a DPU
/// comes first: the replies hold a boot option of the DPU with the MAC address `mac`, and
/// the new order is the present one with the reference of that option first. It has the
/// entries of the present order, each as often as it is there, and no others but the
/// reference, where the order had no entry for it.
pub open spec fn puts_dpu_first(
    bmc: Bmc,
    q: RequestView,
    replies: Seq<Reply>,
    place: int,
    mac: Seq<char>,
) -> bool {
    exists|i: int, new: Seq<Seq<char>>|
        #![trigger replies[i], write_boot_order(bmc, new)]
        place < i < replies.len() && (replies[place] matches Ok(Response::System(system)) && (
        replies[i] matches Ok(Response::BootOption(option)) && {
            let order = system.boot.boot_order.deep_view();
            let target = option.boot_option_reference@;
            &&& order.len() > 0
            &&& boots_dpu(option.display_name@, mac)
            &&& q == write_boot_order(bmc, new)
            &&& puts_first(new, order, target)
            &&& new.len() > 0
            &&& free_of(target, ':') ==> refers_to(new[0], target) && !refers_to(order[0], target)
            &&& if exists|k: int| 0 <= k < order.len() && refers_to(#[trigger] order[k], target) {
                new.to_multiset() == order.to_multiset()
            } else {
                new.to_multiset() == order.to_multiset().insert(target)
            }
        }))
}

/// Whenever setting the DPU first waits on a change, that change sets the boot order that
/// the system has, with the DPU first.
pub proof fn standard_order_puts_dpu_first<'a>(
    bmc: &Bmc,
    mac: &str,
    io: &mut Exchange<'a>,
    r: Result<bool, Stop>,
)
    requires
        call_ensures(Bmc::try_set_standard_boot_order_dpu_first, (bmc, mac, io), r),
    ensures
        r matches Err(Stop::Wait(q, kind)) ==> (q@.method != Method::Get ==> kind == Kind::Written
            && puts_dpu_first(*bmc, q@, old(io)@.replies, old(io)@.pos as int, mac@)),
{
    standard_order_request(*bmc, mac@, old(io)@);
}

proof fn standard_order_request(bmc: Bmc, mac: Seq<char>, t: Tape)
    ensures
        bmc.try_standard_order_flow(mac, t) matches Flow::Wait(q, kind) ==> (q.method != Method::Get
            ==> kind == Kind::Written && puts_dpu_first(bmc, q, t.replies, t.pos as int, mac)),
{
    if let Flow::Ready(system, u) = bmc.s.system_flow(t) {
        let order = system.boot.boot_order.deep_view();
        if let Flow::Ready(options, v) = fetched::<References>(
            get(bmc.s.system_path("/BootOptions"@)),
            u,
        ) {
            reference_comes_from_an_option(bmc, options.members@, mac, v);
            if let Flow::Ready(target, w) = bmc.reference_among(options.members@, mac, v) {
                target_is_put_first(order, target);
                let i = choose|i: int|
                    v.pos <= i < v.replies.len() && (#[trigger] v.replies[i] matches Ok(
                        Response::BootOption(option),
                    ) && boots_dpu(option.display_name@, mac) && option.boot_option_reference@
                        == target);
                let new = target_first(order, target);
                assert(t.replies[i] == v.replies[i]);
                words_are_texts(new);
                assert(bmc.boot_order_request(new) == write_boot_order(bmc, new));
            }
        }
    }
}

/// Whenever setting the boot order with the DPU first waits on a change of the system, that
/// change sets the boot order that the system has, with the DPU first. The MAC address
/// is the one given, or that of the interface that was read first.
pub proof fn boot_order_puts_dpu_first<'a>(
    bmc: &Bmc,
    interface: BootInterfaceRef,
    io: &mut Exchange<'a>,
    r: Result<Option<String>, Stop>,
)
    requires
        call_ensures(Bmc::set_boot_order_dpu_first, (bmc, interface, io), r),
    ensures
        r matches Err(Stop::Wait(q, kind)) ==> (q@.method != Method::Get && q@.url == "Systems/"@
            + bmc.s.system() ==> kind == Kind::Written && match interface {
            BootInterfaceRef::Mac(mac) => puts_dpu_first(
                *bmc,
                q@,
                old(io)@.replies,
                old(io)@.pos as int,
                mac@,
            ),
            BootInterfaceRef::InterfaceId(_) => old(io)@.replies[old(io)@.pos as int] matches Ok(
                Response::EthernetInterface(found),
            ) && (found.mac_address matches Some(mac) && puts_dpu_first(
                *bmc,
                q@,
                old(io)@.replies,
                (old(io)@.pos + 1) as int,
                mac@,
            )),
        }),
{
    let t = old(io)@;
    reveal_strlit("/Oem/Supermicro/FixedBootOrder");
    assert((("Systems/"@ + bmc.s.system()) + "/Oem/Supermicro/FixedBootOrder"@).len() > ("Systems/"@
        + bmc.s.system()).len());
    match interface {
        BootInterfaceRef::Mac(mac) => {
            standard_order_request(*bmc, mac@, t);
        },
        BootInterfaceRef::InterfaceId(id) => {
            if let Flow::Ready(mac, u) = bmc.s.boot_interface_mac_flow(interface, t) {
                standard_order_request(*bmc, mac, u);
            }
        },
    }
}

proof fn options_are_read(
    bmc: Bmc,
    links: Seq<ODataId>,
    ids: Seq<Seq<char>>,
    options: Seq<BootOption>,
    mac: Seq<char>,
    t: Tape,
)
    requires
        lead_to(links, ids),
        options.len() <= links.len(),
        t.replies.len() >= t.pos + options.len(),
        t.replies.subrange(t.pos as int, (t.pos + options.len()) as int) == option_replies(options),
        forall|i: int|
            0 <= i < options.len() - 1 ==> !boots_dpu((#[trigger] options[i]).display_name@, mac),
    ensures
        ({
            let f = bmc.reference_among(links, mac, t);
            let found = options.len() > 0 && boots_dpu(options.last().display_name@, mac);
            &&& found ==> f == Flow::Ready(
                options.last().boot_option_reference@,
                Tape { replies: t.replies, pos: t.pos + options.len() },
            )
            &&& !found && options.len() == links.len() ==> f == Flow::<Seq<char>>::Fail(
                Fault::NotSupported("No match for Mellanox HTTP adapter boot"@),
                Tape { replies: t.replies, pos: t.pos + options.len() },
            )
            &&& !found && options.len() < links.len() && t.replies.len() == t.pos + options.len()
                ==> f == Flow::<Seq<char>>::Wait(
                reading(
                    "Systems/"@ + bmc.s.system() + "/BootOptions/"@ + ids[options.len() as int],
                ),
                Kind::BootOption,
            )
        }),
    decreases options.len(),
{
    if links.len() > 0 {
        let place = links[0].odata_id@;
        let head = choose|head: Seq<char>|
            #![trigger head + seq!['/'] + ids[0]]
            place == head + seq!['/'] + ids[0];
        after_last_is_the_last_part(head, '/', ids[0]);
    }
    if options.len() > 0 {
        let some = t.replies.subrange(t.pos as int, (t.pos + options.len()) as int);
        assert(some[0] == t.replies[t.pos as int]);
        assert(some[0] == Reply::Ok(Response::BootOption(options[0])));
        let rest = options.drop_first();
        let u = t.next();
        if !boots_dpu(options[0].display_name@, mac) {
            let others = t.replies.subrange((t.pos + 1) as int, (t.pos + options.len()) as int);
            assert forall|i: int| 0 <= i < rest.len() implies #[trigger] others[i]
                == option_replies(rest)[i] by {
                assert(some[i + 1] == option_replies(options)[i + 1]);
                assert(some[i + 1] == t.replies[t.pos + 1 + i]);
                assert(rest[i] == options[i + 1]);
            }
            assert(others =~= option_replies(rest));
            assert forall|i: int| 0 <= i < rest.len() - 1 implies !boots_dpu(
                (#[trigger] rest[i]).display_name@,
                mac,
            ) by {
                assert(rest[i] == options[i + 1]);
            }
            let more = links.drop_first();
            let names = ids.drop_first();
            assert forall|i: int| 0 <= i < names.len() implies free_of(#[trigger] names[i], '/') by {
                assert(leads_to(links[i + 1].odata_id@, ids[i + 1]));
            }
            assert forall|i: int| 0 <= i < names.len() implies leads_to(
                (#[trigger] more[i]).odata_id@,
                names[i],
            ) by {
                assert(more[i] == links[i + 1]);
            }
            assert(lead_to(more, names));
            options_are_read(bmc, more, names, rest, mac, u);
        }
    }
}

/// Setting the DPU first, on a system with a boot order: the boot options are read one by
/// one, up to that of the DPU; an order that starts with it is left alone, and any other
/// is written with it first. Where no option is that of the DPU, the operation fails.
pub proof fn dpu_first_run<'a>(
    bmc: &Bmc,
    mac: &str,
    system: ComputerSystem,
    links: References,
    ids: Seq<Seq<char>>,
    options: Seq<BootOption>,
    w: Written,
    later: Seq<Reply>,
    io: &mut Exchange<'a>,
    r: Result<Option<String>, Stop>,
)
    requires
        call_ensures(Bmc::set_boot_order_dpu_first, (bmc, BootInterfaceRef::Mac(mac), io), r),
        system.boot.boot_order@.len() > 0,
        lead_to(links.members@, ids),
        options.len() <= ids.len(),
        forall|i: int|
            0 <= i < options.len() - 1 ==> !boots_dpu((#[trigger] options[i]).display_name@, mac@),
    ensures
        old(io)@ == after(seq![]) ==> asks(
            r,
            reading("Systems/"@ + bmc.s.system() + "/"@),
            Kind::System,
        ),
        old(io)@ == after(seq![Ok(Response::System(system))]) ==> asks(
            r,
            reading("Systems/"@ + bmc.s.system() + "/BootOptions"@),
            Kind::References,
        ),
        old(io)@ == after(
            seq![Ok(Response::System(system)), Ok(Response::References(links))] + option_replies(
                options,
            ) + later,
        ) ==> {
            let order = system.boot.boot_order.deep_view();
            let target = options.last().boot_option_reference@;
            if options.len() > 0 && boots_dpu(options.last().display_name@, mac@) {
                &&& refers_to(order[0], target) ==> r == Ok::<Option<String>, Stop>(None)
                &&& !refers_to(order[0], target) && later.len() == 0 ==> exists|new: Seq<Seq<char>>|
                    puts_first(new, order, target) && asks(
                        r,
                        #[trigger] write_boot_order(*bmc, new),
                        Kind::Written,
                    )
                &&& !refers_to(order[0], target) && later == seq![Reply::Ok(Response::Written(w))]
                    ==> r == Ok::<Option<String>, Stop>(None)
            } else if options.len() == ids.len() {
                fails(r, Fault::NotSupported("No match for Mellanox HTTP adapter boot"@))
            } else {
                later.len() == 0 ==> asks(
                    r,
                    reading(
                        "Systems/"@ + bmc.s.system() + "/BootOptions/"@
                            + ids[options.len() as int],
                    ),
                    Kind::BootOption,
                )
            }
        },
{
    let all = seq![Ok(Response::System(system)), Ok(Response::References(links))] + option_replies(
        options,
    ) + later;
    if old(io)@ == after(all) {
        let u = Tape { replies: all, pos: 2 };
        let order = system.boot.boot_order.deep_view();
        let target = options.last().boot_option_reference@;
        assert(all.subrange(2, 2 + options.len() as int) =~= option_replies(options));
        assert(all.len() == 2 + options.len() + later.len());
        assert(later.len() == 1 ==> all[2 + options.len() as int] == later[0]);
        options_are_read(*bmc, links.members@, ids, options, mac@, u);
        target_is_put_first(order, target);
        words_are_texts(target_first(order, target));
        let new = target_first(order, target);
        assert(bmc.boot_order_request(new) == write_boot_order(*bmc, new));
    }
}

/// Whether `entry` stands for a category in a fixed boot order: the first of `entries` that
/// begins with the category's name, or, where none does, that name.
pub open spec fn stands_for(entry: Seq<char>, entries: Seq<Seq<char>>, category: Seq<char>) -> bool {
    ||| exists|i: int|
        0 <= i < entries.len() && entry == entries[i] && begins(#[trigger] entries[i], category)
            && forall|k: int| 0 <= k < i ==> !begins(#[trigger] entries[k], category)
    ||| entry == category && forall|k: int|
        0 <= k < entries.len() ==> !begins(#[trigger] entries[k], category)
}

/// Whether `new` enables two entries of a fixed boot order and disables the others.
pub open spec fn enables(new: Seq<Seq<char>>, n: nat, first: Seq<char>, second: Seq<char>) -> bool {
    new.len() == n && new[0] == first && new[1] == second && forall|i: int|
        2 <= i < n ==> #[trigger] new[i] == "Disabled"@
}

/// Whether `new` is `devices` with the one at `i` and the first in each other's place.
pub open spec fn exchanged(new: Seq<Seq<char>>, devices: Seq<Seq<char>>, i: int) -> bool {
    new.len() == devices.len() && new[0] == devices[i] && new[i] == devices[0] && forall|k: int|
        0 < k < devices.len() && k != i ==> #[trigger] new[k] == devices[k]
}

/// The request that sets the fixed boot order and the order of the network devices.
pub open spec fn write_fixed_order(bmc: Bmc, order: Seq<Seq<char>>, network: Seq<Seq<char>>) -> RequestView {
    changing(
        "Systems/"@ + bmc.s.system() + "/Oem/Supermicro/FixedBootOrder"@,
        seq![("FixedBootOrder"@, words(order)), ("UEFINetwork"@, words(network))],
    )
}

/// The request for the fixed boot order.
pub open spec fn read_fixed_order(bmc: Bmc) -> RequestView {
    reading("Systems/"@ + bmc.s.system() + "/Oem/Supermicro/FixedBootOrder"@)
}

proof fn category_is_found(entries: Seq<Seq<char>>, category: Seq<char>)
    ensures
        stands_for(category_entry(entries, category), entries, category),
{
    first_where_is_first(entries, |entry: Seq<char>| begins(entry, category));
}

proof fn fixed_order_is_written(
    bmc: Bmc,
    order: Seq<Seq<char>>,
    network: Seq<Seq<char>>,
    first: Seq<char>,
    second: Seq<char>,
    n: nat,
    i: int,
)
    requires
        n >= 2,
    ensures
        enables(two_enabled(first, second, n), n, first, second),
        0 <= i < network.len() ==> exchanged(swapped_first(network, i), network, i),
        patch(bmc.fixed_order_path(), fixed_order_body(order, network)) == write_fixed_order(
            bmc,
            order,
            network,
        ),
{
    words_are_texts(order);
    words_are_texts(network);
}

/// Whether the device at `i` is the first for the DPU with the MAC address `mac`.
pub open spec fn first_for_dpu(network: Seq<Seq<char>>, i: int, mac: Seq<char>) -> bool {
    0 <= i < network.len() && boots_dpu(network[i], mac) && forall|k: int|
        0 <= k < i ==> !boots_dpu(#[trigger] network[k], mac)
}

/// Setting the DPU first, on a system without a boot order: the fixed boot order is written,
/// with the network first, the hard disk second and everything else disabled, and with
/// the DPU as the first network device. A system that does not know boot orders is
/// treated alike; any other failure is the failure.
pub proof fn dpu_first_run_in_fixed_order<'a>(
    bmc: &Bmc,
    mac: &str,
    system: ComputerSystem,
    f: FixedBootOrder,
    i: int,
    w: Written,
    e: RedfishError,
    status_code: u16,
    body: Seq<char>,
    io: &mut Exchange<'a>,
    r: Result<Option<String>, Stop>,
)
    requires
        call_ensures(Bmc::set_boot_order_dpu_first, (bmc, BootInterfaceRef::Mac(mac), io), r),
        system.boot.boot_order@.len() == 0,
        f.fixed_boot_order@.len() >= 2,
    ensures
        old(io)@ == after(seq![Ok(Response::System(system))]) ==> asks(
            r,
            read_fixed_order(*bmc),
            Kind::FixedBootOrder,
        ),
        old(io)@ == after(seq![Err(e)]) ==> if (e@ matches Fault::HTTPErrorCode {
            status_code,
            response_body,
            ..
        } && status_code == 400 && has(response_body, "PropertyUnknown"@) && has(
            response_body,
            "BootOrder"@,
        )) {
            asks(r, read_fixed_order(*bmc), Kind::FixedBootOrder)
        } else {
            fails(r, e@)
        },
        old(io)@ == after(
            seq![Ok(Response::System(system)), Ok(Response::FixedBootOrder(f))],
        ) && first_for_dpu(f.uefi_network.deep_view(), i, mac@) ==> exists|
            order: Seq<Seq<char>>,
            network: Seq<Seq<char>>,
        |
            {
                &&& asks(r, #[trigger] write_fixed_order(*bmc, order, network), Kind::Written)
                &&& exchanged(network, f.uefi_network.deep_view(), i)
                &&& enables(order, f.fixed_boot_order@.len(), order[0], order[1])
                &&& stands_for(order[0], f.fixed_boot_order.deep_view(), "UEFI Network"@)
                &&& stands_for(order[1], f.fixed_boot_order.deep_view(), "UEFI Hard Disk"@)
            },
        old(io)@ == after(
            seq![
                Ok(Response::System(system)),
                Ok(Response::FixedBootOrder(f)),
                Ok(Response::Written(w)),
            ],
        ) && first_for_dpu(f.uefi_network.deep_view(), i, mac@) ==> r == Ok::<Option<String>, Stop>(
            None,
        ),
        old(io)@ == after(
            seq![Ok(Response::System(system)), Ok(Response::FixedBootOrder(f))],
        ) && (forall|k: int|
            0 <= k < f.uefi_network@.len() ==> !boots_dpu(
                #[trigger] f.uefi_network.deep_view()[k],
                mac@,
            )) ==> fails(
            r,
            Fault::NotSupported(
                "No match for Mellanox/Nvidia HTTP adapter with MAC address "@ + mac@
                    + " in network boot order"@,
            ),
        ),
{
    let devices = f.uefi_network.deep_view();
    let entries = f.fixed_boot_order.deep_view();
    let p = |entry: Seq<char>| option_matches_mac(entry, mac@);
    assert forall|k: int| 0 <= k < devices.len() implies p(#[trigger] devices[k]) == boots_dpu(
        devices[k],
        mac@,
    ) by {}
    if first_for_dpu(devices, i, mac@) {
        first_where_found(devices, p, i);
        category_is_found(entries, "UEFI Network"@);
        category_is_found(entries, "UEFI Hard Disk"@);
        let first = category_entry(entries, "UEFI Network"@);
        let second = category_entry(entries, "UEFI Hard Disk"@);
        let order = two_enabled(first, second, entries.len());
        let network = swapped_first(devices, i);
        fixed_order_is_written(*bmc, order, network, first, second, entries.len(), i);
        fixed_order_is_written(*bmc, order, devices, first, second, entries.len(), i);
    }
    if forall|k: int|
        0 <= k < f.uefi_network@.len() ==> !boots_dpu(
            #[trigger] f.uefi_network.deep_view()[k],
            mac@,
        ) {
        first_where_absent(devices, p);
    }
}

/// Whether a boot option or a network device boots over HTTP on IPv4 from a Mellanox or
/// NVIDIA card.
pub open spec fn boots_card(name: Seq<char>) -> bool {
    has(name, "UEFI HTTP IPv4 Mellanox Network Adapter"@) || has(
        name,
        "UEFI HTTP IPv4 Nvidia Network Adapter"@,
    )
}

/// Booting from the hard disk first, or from the network: the fixed boot order is written
/// with that category first and the other second. For the network, the first card that
/// boots over HTTP becomes the first network device.
pub proof fn set_boot_order_run<'a>(
    bmc: &Bmc,
    target: Boot,
    f: FixedBootOrder,
    i: int,
    w: Written,
    e: RedfishError,
    io: &mut Exchange<'a>,
    r: Result<(), Stop>,
)
    requires
        call_ensures(Bmc::set_boot_order, (bmc, target, io), r),
        f.fixed_boot_order@.len() >= 2,
    ensures
        old(io)@ == after(seq![]) ==> asks(r, read_fixed_order(*bmc), Kind::FixedBootOrder),
        old(io)@ == after(seq![Err(e)]) ==> fails(r, e@),
        old(io)@ == after(seq![Ok(Response::FixedBootOrder(f))]) && target == Boot::HardDisk
            ==> exists|order: Seq<Seq<char>>, network: Seq<Seq<char>>|
            {
                &&& asks(r, #[trigger] write_fixed_order(*bmc, order, network), Kind::Written)
                &&& network == f.uefi_network.deep_view()
                &&& enables(order, f.fixed_boot_order@.len(), "UEFI Hard Disk"@, order[1])
                &&& stands_for(order[1], f.fixed_boot_order.deep_view(), "UEFI Network"@)
            },
        old(io)@ == after(seq![Ok(Response::FixedBootOrder(f))]) && target != Boot::HardDisk && 0
            <= i < f.uefi_network@.len() && boots_card(f.uefi_network.deep_view()[i]) && (forall|
            k: int,
        |
            0 <= k < i ==> !boots_card(#[trigger] f.uefi_network.deep_view()[k])) ==> exists|
            order: Seq<Seq<char>>,
            network: Seq<Seq<char>>,
        |
            {
                &&& asks(r, #[trigger] write_fixed_order(*bmc, order, network), Kind::Written)
                &&& exchanged(network, f.uefi_network.deep_view(), i)
                &&& enables(order, f.fixed_boot_order@.len(), order[0], "UEFI Hard Disk"@)
                &&& stands_for(order[0], f.fixed_boot_order.deep_view(), "UEFI Network"@)
            },
        old(io)@ == after(seq![Ok(Response::FixedBootOrder(f)), Err(e)]) && target
            == Boot::HardDisk ==> fails(r, e@),
        old(io)@ == after(seq![Ok(Response::FixedBootOrder(f)), Ok(Response::Written(w))]) && (
        target == Boot::HardDisk || exists|k: int|
            0 <= k < f.uefi_network@.len() && boots_card(#[trigger] f.uefi_network.deep_view()[k]))
            ==> r is Ok,
        old(io)@ == after(seq![Ok(Response::FixedBootOrder(f))]) && target != Boot::HardDisk && (
        forall|k: int|
            0 <= k < f.uefi_network@.len() ==> !boots_card(
                #[trigger] f.uefi_network.deep_view()[k],
            )) ==> fails(
            r,
            Fault::NotSupported(
                "No match for a Mellanox/NVIDIA UEFI HTTP IPv4 adapter in network boot order"@,
            ),
        ),
{
    let devices = f.uefi_network.deep_view();
    let entries = f.fixed_boot_order.deep_view();
    let p = |entry: Seq<char>| supported_http_option(entry);
    assert forall|k: int| 0 <= k < devices.len() implies p(#[trigger] devices[k]) == boots_card(
        devices[k],
    ) by {}
    first_where_is_first(devices, p);
    category_is_found(entries, "UEFI Network"@);
    let category = category_entry(entries, "UEFI Network"@);
    let disk = "UEFI Hard Disk"@;
    fixed_order_is_written(
        *bmc,
        two_enabled(disk, category, entries.len()),
        devices,
        disk,
        category,
        entries.len(),
        i,
    );
    if 0 <= i < devices.len() && boots_card(devices[i]) && forall|k: int|
        0 <= k < i ==> !boots_card(#[trigger] devices[k]) {
        first_where_found(devices, p, i);
        fixed_order_is_written(
            *bmc,
            two_enabled(category, disk, entries.len()),
            swapped_first(devices, i),
            category,
            disk,
            entries.len(),
            i,
        );
        fixed_order_is_written(
            *bmc,
            two_enabled(category, disk, entries.len()),
            devices,
            category,
            disk,
            entries.len(),
            i,
        );
    }
}

/// The request that overrides the boot order, in UEFI mode.
pub open spec fn write_override(bmc: Bmc, target: Seq<char>, enabled: Seq<char>) -> RequestView {
    changing(
        "Systems/"@ + bmc.s.system(),
        seq![
            (
                "Boot"@,
                JsonView::Object(
                    seq![
                        ("BootSourceOverrideTarget"@, word(target)),
                        ("BootSourceOverrideEnabled"@, word(enabled)),
                        ("BootSourceOverrideMode"@, word("UEFI"@)),
                    ],
                ),
            ),
        ],
    )
}

/// How boot devices are named as the target of an override.
pub open spec fn override_name(target: Boot) -> Seq<char> {
    match target {
        Boot::Pxe => "Pxe"@,
        Boot::HardDisk => "Hdd"@,
        Boot::UefiHttp => "UefiHttp"@,
    }
}

proof fn override_without_uri(
    target: BootSourceOverrideTarget,
    enabled: BootSourceOverrideEnabled,
    mode: Option<BootSourceOverrideMode>,
    names: (Seq<char>, Seq<char>, Seq<char>),
)
    requires
        names.0 == target.text(),
        names.1 == enabled.text(),
        names.2 == (match mode {
            Some(mode) => mode.text(),
            None => "UEFI"@,
        }),
    ensures
        override_body(target, enabled, mode, None) == seq![
            ("BootSourceOverrideTarget"@, word(names.0)),
            ("BootSourceOverrideEnabled"@, word(names.1)),
            ("BootSourceOverrideMode"@, word(names.2)),
        ],
{
    assert(override_body(target, enabled, mode, None) =~= seq![
        ("BootSourceOverrideTarget"@, word(names.0)),
        ("BootSourceOverrideEnabled"@, word(names.1)),
        ("BootSourceOverrideMode"@, word(names.2)),
    ]);
}

/// Booting from a device once overrides the boot order once.
pub proof fn boot_once_request(bmc: &Bmc, target: Boot, q: Request)
    requires
        call_ensures(Bmc::boot_once, (bmc, target), q),
    ensures
        q@ == write_override(*bmc, override_name(target), "Once"@),
{
    override_without_uri(
        BootSourceOverrideTarget::of(target),
        BootSourceOverrideEnabled::Once,
        None,
        (override_name(target), "Once"@, "UEFI"@),
    );
}

/// A machine that has no fixed boot order boots from a device first by an override that
/// stays.
pub proof fn boot_first_run<'a>(
    bmc: &Bmc,
    target: Boot,
    e: RedfishError,
    w: Written,
    io: &mut Exchange<'a>,
    r: Result<(), Stop>,
)
    requires
        call_ensures(Bmc::boot_first, (bmc, target, io), r),
    ensures
        old(io)@ == after(seq![]) ==> asks(r, read_fixed_order(*bmc), Kind::FixedBootOrder),
        old(io)@ == after(seq![Err(e)]) ==> if (e@ matches Fault::HTTPErrorCode { status_code, .. }
            && status_code == 404) {
            asks(r, write_override(*bmc, override_name(target), "Continuous"@), Kind::Written)
        } else {
            fails(r, e@)
        },
        old(io)@ == after(seq![Err(e), Ok(Response::Written(w))]) && (
        e@ matches Fault::HTTPErrorCode { status_code, .. } && status_code == 404) ==> r is Ok,
{
    override_without_uri(
        BootSourceOverrideTarget::of(target),
        BootSourceOverrideEnabled::Continuous,
        None,
        (override_name(target), "Continuous"@, "UEFI"@),
    );
}

/// Otherwise booting from a device first is setting the boot order: whatever comes of the
/// one on the same replies comes of the other.
pub proof fn boot_first_sets_the_order<'a>(
    bmc: &Bmc,
    target: Boot,
    io: &mut Exchange<'a>,
    r: Result<(), Stop>,
    other: &mut Exchange<'a>,
    s: Result<(), Stop>,
)
    requires
        call_ensures(Bmc::boot_first, (bmc, target, io), r),
        call_ensures(Bmc::set_boot_order, (bmc, target, other), s),
        old(io)@ == old(other)@,
    ensures
        s is Ok ==> r is Ok,
        s matches Err(Stop::Wait(q, k)) ==> asks(r, q@, k),
        s matches Err(Stop::Fail(e)) ==> (!(e@ matches Fault::HTTPErrorCode { status_code, .. }
            && status_code == 404) ==> fails(r, e@)),
{
}

/// An override holds what was asked for, by the names of the two, and the mode, which is
/// UEFI unless it was given; the address to boot from comes last, where there is one.
pub proof fn boot_override_request(
    bmc: &Bmc,
    settings: &BootOverride,
    q: Request,
    target: &'static str,
    enabled: &'static str,
)
    requires
        call_ensures(Bmc::set_boot_override, (bmc, settings), q),
        call_ensures(BootSourceOverrideTarget::name, (&settings.target,), target),
        call_ensures(BootSourceOverrideEnabled::name, (&settings.enabled,), enabled),
    ensures
        settings.http_boot_uri is None && (settings.mode is None || settings.mode == Some(
            BootSourceOverrideMode::UEFI,
        )) ==> q@ == write_override(*bmc, target@, enabled@),
        settings.http_boot_uri is None && settings.mode == Some(BootSourceOverrideMode::Legacy)
            ==> q@ == changing(
            "Systems/"@ + bmc.s.system(),
            seq![
                (
                    "Boot"@,
                    JsonView::Object(
                        seq![
                            ("BootSourceOverrideTarget"@, word(target@)),
                            ("BootSourceOverrideEnabled"@, word(enabled@)),
                            ("BootSourceOverrideMode"@, word("Legacy"@)),
                        ],
                    ),
                ),
            ],
        ),
        settings.http_boot_uri matches Some(uri) ==> q@ == changing(
            "Systems/"@ + bmc.s.system(),
            seq![
                (
                    "Boot"@,
                    JsonView::Object(
                        seq![
                            ("BootSourceOverrideTarget"@, word(target@)),
                            ("BootSourceOverrideEnabled"@, word(enabled@)),
                            (
                                "BootSourceOverrideMode"@,
                                word(
                                    if settings.mode == Some(BootSourceOverrideMode::Legacy) {
                                        "Legacy"@
                                    } else {
                                        "UEFI"@
                                    },
                                ),
                            ),
                            ("HttpBootUri"@, word(uri@)),
                        ],
                    ),
                ),
            ],
        ),
{
    let mode = if settings.mode == Some(BootSourceOverrideMode::Legacy) {
        "Legacy"@
    } else {
        "UEFI"@
    };
    override_without_uri(
        settings.target,
        settings.enabled,
        settings.mode,
        (target@, enabled@, mode),
    );
    if let Some(uri) = settings.http_boot_uri {
        assert(override_body(settings.target, settings.enabled, settings.mode, Some(uri@)) =~= seq![
            ("BootSourceOverrideTarget"@, word(target@)),
            ("BootSourceOverrideEnabled"@, word(enabled@)),
            (
                "BootSourceOverrideMode"@,
                word(
                    if settings.mode == Some(BootSourceOverrideMode::Legacy) {
                        "Legacy"@
                    } else {
                        "UEFI"@
                    },
                ),
            ),
            ("HttpBootUri"@, word(uri@)),
        ]);
    }
}

/// A boot order is written as it is given, and the fixed one is what is read.
pub proof fn boot_order_requests(bmc: &Bmc, order: &Vec<String>, q: Request, read: Request)
    requires
        call_ensures(Bmc::change_boot_order, (bmc, order), q),
        call_ensures(Bmc::get_boot_order, (bmc,), read),
    ensures
        q@ == write_boot_order(*bmc, order.deep_view()),
        read@ == read_fixed_order(*bmc),
{
    words_are_texts(order.deep_view());
}

/// The lockdown of an MGX C2 system is read off the IPMI host interface in place of the KCS
/// privilege. Where the firmware has none, it counts for nothing.
pub proof fn lockdown_status_run_on_mgx_c2<'a>(
    bmc: &Bmc,
    hosts: Object,
    id: Seq<char>,
    host: Object,
    chassis: Members<Chassis>,
    manager: Manager,
    system: ComputerSystem,
    lockdown: Object,
    host_on: bool,
    locked: bool,
    io: &mut Exchange<'a>,
    r: Result<Status, Stop>,
)
    requires
        call_ensures(Bmc::lockdown_status, (bmc, io), r),
        lists(hosts, seq![id]),
        lookup(host@, "InterfaceEnabled"@) == Some(JsonView::Bool(host_on)),
        on_mgx_c2(chassis),
        lookup(lockdown@, "SysLockdownEnabled"@) == Some(JsonView::Bool(locked)),
    ensures
        old(io)@ == after(
            seq![
                Ok(Response::Object(hosts)),
                Ok(Response::Object(host)),
                Ok(Response::ChassisList(chassis)),
            ],
        ) ==> asks(r, reading("Managers/"@ + bmc.s.manager()), Kind::Manager),
        has_ipmi_host_interface(manager) && old(io)@ == after(
            seq![
                Ok(Response::Object(hosts)),
                Ok(Response::Object(host)),
                Ok(Response::ChassisList(chassis)),
                Ok(Response::Manager(manager)),
            ],
        ) ==> asks(r, reading("Systems/"@ + bmc.s.system() + "/"@), Kind::System),
        has_ipmi_host_interface(manager) && system.ipmi_host_interface is None && old(io)@ == after(
            seq![
                Ok(Response::Object(hosts)),
                Ok(Response::Object(host)),
                Ok(Response::ChassisList(chassis)),
                Ok(Response::Manager(manager)),
                Ok(Response::System(system)),
            ],
        ) ==> fails(
            r,
            Fault::MissingKey {
                key: "IPMIHostInterface"@,
                url: "Systems/"@ + bmc.s.system(),
            },
        ),
        has_ipmi_host_interface(manager) && old(io)@ == after(
            seq![
                Ok(Response::Object(hosts)),
                Ok(Response::Object(host)),
                Ok(Response::ChassisList(chassis)),
                Ok(Response::Manager(manager)),
                Ok(Response::System(system)),
                Ok(Response::Object(lockdown)),
                Ok(Response::System(system)),
            ],
        ) ==> (system.ipmi_host_interface matches Some(interface) ==> {
            &&& r is Ok
            &&& r->Ok_0.status == StatusInternal::Enabled <==> locked && !interface.service_enabled
                && (!host_on || needs_host_interface(system))
            &&& r->Ok_0.status == StatusInternal::Disabled <==> !locked && interface.service_enabled
                && host_on
        }),
        !has_ipmi_host_interface(manager) && old(io)@ == after(
            seq![
                Ok(Response::Object(hosts)),
                Ok(Response::Object(host)),
                Ok(Response::ChassisList(chassis)),
                Ok(Response::Manager(manager)),
                Ok(Response::Object(lockdown)),
                Ok(Response::System(system)),
            ],
        ) ==> {
            &&& r is Ok
            &&& r->Ok_0.status == StatusInternal::Enabled <==> locked && (!host_on
                || needs_host_interface(system))
            &&& r->Ok_0.status == StatusInternal::Disabled <==> !locked && host_on
            &&& r->Ok_0.message@ == "SysLockdownEnabled="@ + shown(locked) + ", kcs_privilege="@
                + "None"@ + ", host_interface_enabled="@ + shown(host_on)
        },
{
    chassis_are_at_the_top();
    other_models_are_not_kept(system);
    mgx_c2_is_found(chassis);
    names_are_listed(hosts, seq![id], "Managers/"@ + bmc.s.manager() + "/HostInterfaces"@);
}

/// A machine is expected to have one host interface. With any other number of them, the
/// lockdown cannot be told.
pub proof fn one_host_interface_is_expected<'a>(
    bmc: &Bmc,
    hosts: Object,
    ids: Seq<Seq<char>>,
    io: &mut Exchange<'a>,
    r: Result<Status, Stop>,
)
    requires
        call_ensures(Bmc::lockdown_status, (bmc, io), r),
        lists(hosts, ids),
        ids.len() != 1,
        old(io)@ == after(seq![Ok(Response::Object(hosts))]),
    ensures
        fails(
            r,
            Fault::InvalidValue {
                url: "Managers/"@ + bmc.s.manager() + "/HostInterfaces"@,
                field: "Members"@,
                err: "Expected a single host interface, found "@ + decimal(ids.len()),
            },
        ),
{
    names_are_listed(hosts, ids, "Managers/"@ + bmc.s.manager() + "/HostInterfaces"@);
}

/// The requests that turn one thing on or off.
pub proof fn switch_requests(
    bmc: &Bmc,
    target: EnabledDisabled,
    id: &str,
    enabled: bool,
    lockdown: Request,
    syslockdown: Request,
    ipmi: Request,
    host: Request,
)
    requires
        call_ensures(Bmc::lockdown_bmc, (bmc, target), lockdown),
        call_ensures(Bmc::set_syslockdown, (bmc, target), syslockdown),
        call_ensures(Bmc::set_ipmi_host_interface, (bmc, enabled), ipmi),
        call_ensures(Bmc::set_host_interface, (bmc, id, target), host),
    ensures
        target == EnabledDisabled::Enabled ==> {
            &&& lockdown@ == write_syslockdown(*bmc, true)
            &&& syslockdown@ == write_syslockdown(*bmc, true)
            &&& host@ == write_host_interface(*bmc, id@, true)
        },
        target == EnabledDisabled::Disabled ==> {
            &&& lockdown@ == write_syslockdown(*bmc, false)
            &&& syslockdown@ == write_syslockdown(*bmc, false)
            &&& host@ == write_host_interface(*bmc, id@, false)
        },
        ipmi@ == write_ipmi(*bmc, enabled),
{
}

/// The requests that change the power state. An AC power cycle is an action of the vendor.
pub proof fn power_requests(
    bmc: &Bmc,
    action: SystemPowerControl,
    name: &'static str,
    q: Result<Request, RedfishError>,
    supported: bool,
)
    requires
        call_ensures(Bmc::power, (bmc, action), q),
        call_ensures(SystemPowerControl::name, (&action,), name),
        call_ensures(Bmc::ac_powercycle_supported_by_power, (bmc,), supported),
    ensures
        supported,
        q is Ok,
        action == SystemPowerControl::ACPowercycle ==> q->Ok_0@ == posting(
            "Systems/"@ + bmc.s.system() + "/Actions/Oem/OemSystemExtensions.Reset"@,
            seq![("ResetType"@, word("ACCycle"@))],
        ),
        action != SystemPowerControl::ACPowercycle ==> q->Ok_0@ == posting(
            "Systems/"@ + bmc.s.system() + "/Actions/ComputerSystem.Reset"@,
            seq![("ResetType"@, word(name@))],
        ),
{
}

/// The requests that reset things, clear the UEFI password and lift the limit on failed
/// logins.
pub proof fn reset_requests(
    bmc: &Bmc,
    current: &str,
    bios: Request,
    defaults: Request,
    policy: Request,
    password: Request,
    console: Result<(), RedfishError>,
)
    requires
        call_ensures(Bmc::reset_bios, (bmc,), bios),
        call_ensures(Bmc::bmc_reset_to_defaults, (bmc,), defaults),
        call_ensures(Bmc::set_machine_password_policy, (bmc,), policy),
        call_ensures(Bmc::clear_uefi_password, (bmc, current), password),
        call_ensures(Bmc::setup_serial_console, (bmc,), console),
    ensures
        bios@ == calling("Systems/"@ + bmc.s.system() + "/Bios/Actions/Bios.ResetBios"@),
        defaults@ == posting(
            "Managers/"@ + bmc.s.manager() + "/Actions/Oem/SmcManagerConfig.Reset"@,
            seq![("Option"@, word("ClearConfig"@))],
        ),
        policy@ == changing(
            "AccountService"@,
            seq![
                ("AccountLockoutThreshold"@, JsonView::Number("0"@)),
                ("AccountLockoutDuration"@, JsonView::Number("0"@)),
                ("AccountLockoutCounterResetAfter"@, JsonView::Number("0"@)),
            ],
        ),
        password@ == posting(
            "Systems/"@ + bmc.s.system() + (if bmc.s.known_vendor() == Some(RedfishVendor::Hpe) {
                "/Bios/Settings/Actions/Bios.ChangePasswords"@
            } else {
                "/Bios/Actions/Bios.ChangePassword"@
            }),
            seq![
                ("PasswordName"@, word("AdministratorPassword"@)),
                ("OldPassword"@, word(current@)),
                ("NewPassword"@, word(""@)),
            ],
        ),
        console is Ok,
{
}

/// Clearing the TPM: the first attribute whose key begins with PendingOperation is set to
/// clear it. A machine without one cannot.
pub proof fn clear_tpm_run<'a>(
    bmc: &Bmc,
    bios: Object,
    attrs: ObjectView,
    i: int,
    w: Written,
    e: RedfishError,
    io: &mut Exchange<'a>,
    r: Result<(), Stop>,
)
    requires
        call_ensures(Bmc::clear_tpm, (bmc, io), r),
        lookup(bios@, "Attributes"@) == Some(JsonView::Object(attrs)),
    ensures
        old(io)@ == after(seq![]) ==> asks(
            r,
            reading("Systems/"@ + bmc.s.system() + "/Bios"@),
            Kind::Object,
        ),
        old(io)@ == after(seq![Err(e)]) ==> fails(r, e@),
        old(io)@ == after(seq![Ok(Response::Object(bios))]) && 0 <= i < attrs.len() && begins(
            attrs[i].0,
            "PendingOperation"@,
        ) && (forall|k: int| 0 <= k < i ==> !begins((#[trigger] attrs[k]).0, "PendingOperation"@))
            ==> asks(
            r,
            changing(
                "Systems/"@ + bmc.s.system() + "/Bios"@,
                seq![
                    (
                        "Attributes"@,
                        JsonView::Object(seq![(attrs[i].0, word("TPM Clear"@))]),
                    ),
                ],
            ),
            Kind::Written,
        ),
        old(io)@ == after(seq![Ok(Response::Object(bios)), Ok(Response::Written(w))]) && (exists|
            k: int,
        |
            0 <= k < attrs.len() && begins((#[trigger] attrs[k]).0, "PendingOperation"@)) ==> r is Ok,
        old(io)@ == after(seq![Ok(Response::Object(bios))]) && (forall|k: int|
            0 <= k < attrs.len() ==> !begins((#[trigger] attrs[k]).0, "PendingOperation"@))
            ==> fails(
            r,
            Fault::NotSupported("Cannot clear_tpm, PendingOperation BIOS attr missing"@),
        ),
{
    let p = |e: (Seq<char>, JsonView)| begins(e.0, "PendingOperation"@);
    first_where_is_first(attrs, p);
    if 0 <= i < attrs.len() && p(attrs[i]) && forall|k: int|
        0 <= k < i ==> !begins((#[trigger] attrs[k]).0, "PendingOperation"@) {
        assert forall|k: int| 0 <= k < i implies !p(#[trigger] attrs[k]) by {}
        first_where_found(attrs, p, i);
    }
}

/// Pending changes are those that the settings document lists. One without attributes has
/// none.
pub proof fn pending_run<'a>(
    bmc: &Bmc,
    document: Object,
    pending: ObjectView,
    e: RedfishError,
    io: &mut Exchange<'a>,
    r: Result<Object, Stop>,
)
    requires
        call_ensures(Bmc::pending, (bmc, io), r),
    ensures
        old(io)@ == after(seq![]) ==> asks(
            r,
            reading("Systems/"@ + bmc.s.system() + "/Bios/SD"@),
            Kind::Object,
        ),
        old(io)@ == after(seq![Ok(Response::Object(document))]) && lookup(
            document@,
            "Attributes"@,
        ) == Some(JsonView::Object(pending)) ==> (r matches Ok(found) && found@ == pending),
        old(io)@ == after(seq![Ok(Response::Object(document))]) && lookup(
            document@,
            "Attributes"@,
        ) is None ==> (r matches Ok(found) && found@.len() == 0),
        old(io)@ == after(seq![Err(e)]) && !(e@ is MissingKey) ==> fails(r, e@),
{
}

/// Firmware that an upload is for, and what is kept of the old one.
pub open spec fn upload_settings(component: ComponentType) -> ObjectView {
    match component {
        ComponentType::UEFI => seq![
            ("Targets"@, words(seq!["/redfish/v1/Systems/1/Bios"@])),
            ("@Redfish.OperationApplyTime"@, word("Immediate"@)),
            (
                "Oem"@,
                JsonView::Object(
                    seq![
                        (
                            "Supermicro"@,
                            JsonView::Object(
                                seq![
                                    (
                                        "BIOS"@,
                                        JsonView::Object(
                                            seq![
                                                ("PreserveME"@, JsonView::Bool(true)),
                                                ("PreserveNVRAM"@, JsonView::Bool(true)),
                                                ("PreserveSMBIOS"@, JsonView::Bool(true)),
                                                ("BackupBIOS"@, JsonView::Bool(false)),
                                            ],
                                        ),
                                    ),
                                ],
                            ),
                        ),
                    ],
                ),
            ),
        ],
        ComponentType::BMC => seq![
            ("Targets"@, words(seq!["/redfish/v1/Managers/1"@])),
            ("@Redfish.OperationApplyTime"@, word("Immediate"@)),
            (
                "Oem"@,
                JsonView::Object(
                    seq![
                        (
                            "Supermicro"@,
                            JsonView::Object(
                                seq![
                                    (
                                        "BMC"@,
                                        JsonView::Object(
                                            seq![
                                                ("PreserveCfg"@, JsonView::Bool(true)),
                                                ("PreserveSdr"@, JsonView::Bool(true)),
                                                ("PreserveSsl"@, JsonView::Bool(true)),
                                                ("BackupBMC"@, JsonView::Bool(true)),
                                            ],
                                        ),
                                    ),
                                ],
                            ),
                        ),
                    ],
                ),
            ),
        ],
        ComponentType::CPLDMB => seq![
            (
                "Targets"@,
                words(seq!["/redfish/v1/UpdateService/FirmwareInventory/CPLD_Motherboard"@]),
            ),
            ("@Redfish.OperationApplyTime"@, word("Immediate"@)),
        ],
        ComponentType::CPLDMID => seq![
            (
                "Targets"@,
                words(seq!["/redfish/v1/UpdateService/FirmwareInventory/CPLD_Backplane_1"@]),
            ),
            ("@Redfish.OperationApplyTime"@, word("Immediate"@)),
        ],
        _ => seq![
            ("Targets"@, words(seq!["Unrecognized component type"@])),
            ("@Redfish.OperationApplyTime"@, word("Immediate"@)),
        ],
    }
}

proof fn upload_is_for_the_component(component: ComponentType)
    ensures
        update_parameters(component) == upload_settings(component),
{
    words_are_texts(seq![update_target(component)]);
    assert(update_parameters(component) =~= upload_settings(component));
}

/// A firmware upload goes to where the update service takes images, with the settings for
/// the component, and is followed by the task that the answer names.
pub proof fn update_firmware_run<'a>(
    bmc: &Bmc,
    reboot: bool,
    component: ComponentType,
    timeout: Timeout,
    service: UpdateService,
    upload: Upload,
    e: RedfishError,
    io: &mut Exchange<'a>,
    r: Result<String, Stop>,
)
    requires
        call_ensures(Bmc::update_firmware_multipart, (bmc, reboot, timeout, component, io), r),
    ensures
        old(io)@ == after(seq![]) ==> asks(
            r,
            reading(bmc.s.update_service_path()),
            Kind::UpdateService,
        ),
        old(io)@ == after(seq![Err(e)]) ==> fails(r, e@),
        old(io)@ == after(seq![Ok(Response::UpdateService(service))])
            && service.multipart_http_push_uri@.len() == 0 ==> fails(
            r,
            Fault::NotSupported("Host BMC does not support HTTP multipart push"@),
        ),
        old(io)@ == after(seq![Ok(Response::UpdateService(service))])
            && service.multipart_http_push_uri@.len() > 0 ==> asks(
            r,
            (RequestView {
                method: Method::Post,
                url: service.multipart_http_push_uri@,
                payload: PayloadView::Multipart {
                    parameters: rendered(JsonView::Object(upload_settings(component))),
                    drop_redfish_url: true,
                },
                headers: Seq::empty(),
                timeout: Some(timeout),
            }),
            Kind::Upload,
        ),
        old(io)@ == after(
            seq![Ok(Response::UpdateService(service)), Ok(Response::Upload(upload))],
        ) && service.multipart_http_push_uri@.len() > 0 ==> match upload.task_id {
            Some(id) => r matches Ok(task) && task@ == id@,
            None => fails(
                r,
                Fault::JsonDeserializeError {
                    url: service.multipart_http_push_uri@,
                    body: upload.body@,
                },
            ),
        },
{
    upload_is_for_the_component(component);
}

/// The serial console is on where the system lets sessions in over SSH and the serial
/// interface has the line settings of 115200 8N1 without flow control. A system that says
/// nothing of it is not supported.
pub proof fn serial_console_status_run<'a>(
    bmc: &Bmc,
    ports: Object,
    names: Seq<Seq<char>>,
    port: SerialInterface,
    system: ComputerSystem,
    io: &mut Exchange<'a>,
    r: Result<Status, Stop>,
)
    requires
        call_ensures(Bmc::serial_console_status, (bmc, io), r),
        lists(ports, names),
        names.len() > 0,
    ensures
        old(io)@ == after(seq![]) ==> asks(
            r,
            reading("Managers/"@ + bmc.s.manager() + "/SerialInterfaces"@),
            Kind::Object,
        ),
        old(io)@ == after(seq![Ok(Response::Object(ports))]) ==> asks(
            r,
            reading("Managers/"@ + bmc.s.manager() + "/SerialInterfaces/"@ + names[0]),
            Kind::SerialInterface,
        ),
        old(io)@ == after(
            seq![Ok(Response::Object(ports)), Ok(Response::SerialInterface(port))],
        ) ==> asks(r, reading("Systems/"@ + bmc.s.system() + "/"@), Kind::System),
        old(io)@ == after(
            seq![
                Ok(Response::Object(ports)),
                Ok(Response::SerialInterface(port)),
                Ok(Response::System(system)),
            ],
        ) ==> match system.serial_console {
            Some(console) => {
                let on = console.ssh.service_enabled && console.max_concurrent_sessions != Some(
                    0i64,
                ) && port.bit_rate@ == "115200"@ && port.data_bits@ == "8"@ && port.flow_control@
                    == "None"@ && port.interface_enabled && port.parity@ == "None"@
                    && port.stop_bits@ == "1"@ && (port.signal_type matches Some(signal)
                    ==> signal@ == "Rs232"@);
                &&& r is Ok
                &&& r->Ok_0.message@ == ""@
                &&& on ==> r->Ok_0.status == StatusInternal::Enabled
                &&& !on ==> r->Ok_0.status == StatusInternal::Disabled
            },
            None => fails(
                r,
                Fault::NotSupported(
                    "No SerialConsole in System object. Maybe it's in Manager and you have old firmware?"@,
                ),
            ),
        },
{
    names_are_listed(ports, names, "Managers/"@ + bmc.s.manager() + "/SerialInterfaces"@);
}

proof fn devices_are_read(
    chassis: Seq<char>,
    ids: Seq<Seq<char>>,
    devices: Seq<PCIeDevice>,
    found: Seq<PCIeDevice>,
    t: Tape,
)
    requires
        devices.len() <= ids.len(),
        t.replies.len() == t.pos + devices.len(),
        forall|i: int|
            0 <= i < devices.len() ==> t.replies[t.pos + i] == Reply::Ok(
                Response::PcieDevice(#[trigger] devices[i]),
            ),
    ensures
        devices.len() < ids.len() ==> devices_by_id(chassis, ids, found, t) == Flow::<
            Seq<PCIeDevice>,
        >::Wait(
            reading("Chassis/"@ + chassis + "/PCIeDevices/"@ + ids[devices.len() as int]),
            Kind::PcieDevice,
        ),
        devices.len() == ids.len() ==> (devices_by_id(chassis, ids, found, t) matches Flow::Ready(
            all,
            _,
        ) && all == found + devices),
    decreases devices.len(),
{
    if devices.len() > 0 {
        let rest = devices.drop_first();
        assert(t.replies[t.pos + 0int] == Reply::Ok(Response::PcieDevice(devices[0])));
        assert forall|i: int| 0 <= i < rest.len() implies t.next().replies[t.next().pos + i]
            == Reply::Ok(Response::PcieDevice(#[trigger] rest[i])) by {
            assert(rest[i] == devices[i + 1]);
        }
        devices_are_read(chassis, ids.drop_first(), rest, found.push(devices[0]), t.next());
        assert(found.push(devices[0]) + rest =~= found + devices);
    } else {
        assert(found + devices =~= found);
    }
}

/// The PCIe devices are those of the first chassis, each read by its name, in the order in
/// which they are listed. A machine without a chassis has no answer.
pub proof fn pcie_devices_run<'a>(
    bmc: &Bmc,
    all: Object,
    chassis: Seq<Seq<char>>,
    listed: Object,
    ids: Seq<Seq<char>>,
    devices: Seq<PCIeDevice>,
    io: &mut Exchange<'a>,
    r: Result<Vec<&'a PCIeDevice>, Stop>,
)
    requires
        call_ensures(Bmc::pcie_devices, (bmc, io), r),
        lists(all, chassis),
        lists(listed, ids),
        devices.len() <= ids.len(),
    ensures
        old(io)@ == after(seq![]) ==> asks(r, reading("Chassis/"@), Kind::Object),
        old(io)@ == after(seq![Ok(Response::Object(all))]) && chassis.len() == 0 ==> fails(
            r,
            Fault::NoContent,
        ),
        old(io)@ == after(seq![Ok(Response::Object(all))]) && chassis.len() > 0 ==> asks(
            r,
            reading("Chassis/"@ + chassis[0] + "/PCIeDevices"@),
            Kind::Object,
        ),
        old(io)@ == after(
            seq![Ok(Response::Object(all)), Ok(Response::Object(listed))] + Seq::new(
                devices.len(),
                |i: int| Reply::Ok(Response::PcieDevice(devices[i])),
            ),
        ) && chassis.len() > 0 && devices.len() < ids.len() ==> asks(
            r,
            reading("Chassis/"@ + chassis[0] + "/PCIeDevices/"@ + ids[devices.len() as int]),
            Kind::PcieDevice,
        ),
        old(io)@ == after(
            seq![Ok(Response::Object(all)), Ok(Response::Object(listed))] + Seq::new(
                devices.len(),
                |i: int| Reply::Ok(Response::PcieDevice(devices[i])),
            ),
        ) && chassis.len() > 0 && devices.len() == ids.len() ==> (r matches Ok(found)
            && found.deep_view() == devices),
{
    names_are_listed(all, chassis, "Chassis/"@);
    names_are_listed(listed, ids, "Chassis/"@ + chassis[0] + "/PCIeDevices"@);
    let replies = seq![Ok(Response::Object(all)), Ok(Response::Object(listed))] + Seq::new(
        devices.len(),
        |i: int| Reply::Ok(Response::PcieDevice(devices[i])),
    );
    let u = Tape { replies, pos: 2 };
    assert forall|i: int| 0 <= i < devices.len() implies u.replies[u.pos + i] == Reply::Ok(
        Response::PcieDevice(#[trigger] devices[i]),
    ) by {}
    devices_are_read(chassis[0], ids, devices, Seq::empty(), u);
    assert(Seq::<PCIeDevice>::empty() + devices =~= devices);
}

/// Whether a machine with the attributes `attrs` shows, in `have`, every value that is
/// required of them.
pub open spec fn shows_setup(have: ObjectView, attrs: ObjectView, on: Seq<char>) -> bool {
    forall|key: Seq<char>, name: Seq<char>, value: JsonView|
        has_key(attrs, key) && #[trigger] is_named(key, name) && #[trigger] required(
            name,
            on,
            value,
        ) ==> (lookup(have, key) matches Some(v) && rendered(v) == rendered(value))
}

/// Whether the serial console is on, as a serial interface and the system say.
pub open spec fn console_on(port: SerialInterface, system: ComputerSystem) -> bool {
    &&& system.serial_console matches Some(console) && console.ssh.service_enabled
        && console.max_concurrent_sessions != Some(0i64)
    &&& port.bit_rate@ == "115200"@ && port.data_bits@ == "8"@ && port.flow_control@ == "None"@
    &&& port.interface_enabled && port.parity@ == "None"@ && port.stop_bits@ == "1"@
    &&& port.signal_type matches Some(signal) ==> signal@ == "Rs232"@
}

proof fn setup_shows(have: ObjectView, attrs: ObjectView, on: Seq<char>)
    ensures
        attribute_diffs(
            JsonView::Object(have),
            all_ruled(attrs, setup_rules()) + ruled(
                attrs,
                ("SecurityDeviceSupport"@, JsonView::Text(on)),
            ),
        ).len() == 0 <==> shows_setup(have, attrs, on),
{
    let rules = rules_with_tpm(on);
    let all = all_ruled(attrs, rules);
    let bios = JsonView::Object(have);
    assert(rules.drop_last() =~= setup_rules());
    no_deviation_means_all_set(bios, all);
    if shows_setup(have, attrs, on) {
        assert forall|i: int| 0 <= i < all.len() implies (member(
            bios,
            (#[trigger] all[i]).0,
        ) matches Some(v) && rendered(v) == rendered(all[i].1)) by {
            let key = all[i].0;
            settings_follow_a_rule(attrs, rules, i);
            settings_are_of_the_machine(attrs, rules, i);
            let j = choose|j: int|
                0 <= j < rules.len() && (#[trigger] rules[j]).0 == clean_key(all[i].0)
                    && rules[j].1 == all[i].1;
            assert(rules[j] == (clean_key(key), all[i].1));
            rules_are_those_required(on, clean_key(key), all[i].1);
            key_has_one_name(key, clean_key(key));
            assert(is_named(key, clean_key(key)) && required(clean_key(key), on, all[i].1));
        }
    }
    if forall|i: int|
        0 <= i < all.len() ==> (member(bios, (#[trigger] all[i]).0) matches Some(v) && rendered(v)
            == rendered(all[i].1)) {
        assert forall|key: Seq<char>, name: Seq<char>, value: JsonView|
            has_key(attrs, key) && #[trigger] is_named(key, name) && #[trigger] required(
                name,
                on,
                value,
            ) implies (lookup(have, key) matches Some(v) && rendered(v) == rendered(value)) by {
            key_has_one_name(key, name);
            rules_are_those_required(on, name, value);
            let j = choose|j: int| 0 <= j < rules.len() && #[trigger] rules[j] == (name, value);
            entry_follows_the_rule(attrs, rules, key, j);
            let i = choose|i: int| 0 <= i < all.len() && #[trigger] all[i] == (key, rules[j].1);
            assert(member(bios, all[i].0) == lookup(have, key));
        }
    }
}

/// The BIOS is set up if and only if the serial console is on and every attribute of which
/// a value is required has it.
pub proof fn is_bios_setup_run<'a>(
    bmc: &Bmc,
    ports: Object,
    names: Seq<Seq<char>>,
    port: SerialInterface,
    system: ComputerSystem,
    first: Object,
    have: ObjectView,
    second: Object,
    attrs: ObjectView,
    third: Object,
    now: ObjectView,
    state: JsonView,
    on: Seq<char>,
    io: &mut Exchange<'a>,
    r: Result<bool, Stop>,
)
    requires
        call_ensures(Bmc::is_bios_setup, (bmc, io), r),
        lists(ports, names),
        names.len() > 0,
        system.serial_console is Some,
        lookup(first@, "Attributes"@) == Some(JsonView::Object(have)),
        lookup(second@, "Attributes"@) == Some(JsonView::Object(attrs)),
        lookup(third@, "Attributes"@) == Some(JsonView::Object(now)),
        tpm_is(now, state),
        turned_on_by(state, on),
    ensures
        old(io)@ == after(
            seq![
                Ok(Response::Object(ports)),
                Ok(Response::SerialInterface(port)),
                Ok(Response::System(system)),
            ],
        ) ==> asks(r, reading("Systems/"@ + bmc.s.system() + "/Bios"@), Kind::Object),
        old(io)@ == after(
            seq![
                Ok(Response::Object(ports)),
                Ok(Response::SerialInterface(port)),
                Ok(Response::System(system)),
                Ok(Response::Object(first)),
                Ok(Response::Object(second)),
                Ok(Response::Object(third)),
            ],
        ) ==> r == Ok::<bool, Stop>(console_on(port, system) && shows_setup(have, attrs, on)),
{
    names_are_listed(ports, names, "Managers/"@ + bmc.s.manager() + "/SerialInterfaces"@);
    tpm_state_is_read(now, state);
    words_differ();
    setup_shows(have, attrs, on);
}

/// A machine is set up if and only if its BIOS is, and it is locked down. What deviates is
/// listed, and nothing is listed if and only if the machine is set up.
pub proof fn machine_setup_status_run<'a>(
    bmc: &Bmc,
    ports: Object,
    names: Seq<Seq<char>>,
    port: SerialInterface,
    system: ComputerSystem,
    first: Object,
    have: ObjectView,
    second: Object,
    attrs: ObjectView,
    third: Object,
    now: ObjectView,
    state: JsonView,
    on: Seq<char>,
    hosts: Object,
    id: Seq<char>,
    host: Object,
    chassis: Members<Chassis>,
    kcs: Object,
    lockdown: Object,
    host_on: bool,
    privilege: Seq<char>,
    locked: bool,
    io: &mut Exchange<'a>,
    r: Result<MachineSetupStatus, Stop>,
)
    requires
        call_ensures(Bmc::machine_setup_status, (bmc, None::<BootInterfaceRef>, io), r),
        lists(ports, names),
        names.len() > 0,
        system.serial_console is Some,
        lookup(first@, "Attributes"@) == Some(JsonView::Object(have)),
        lookup(second@, "Attributes"@) == Some(JsonView::Object(attrs)),
        lookup(third@, "Attributes"@) == Some(JsonView::Object(now)),
        tpm_is(now, state),
        turned_on_by(state, on),
        lists(hosts, seq![id]),
        lookup(host@, "InterfaceEnabled"@) == Some(JsonView::Bool(host_on)),
        !on_mgx_c2(chassis),
        lookup(kcs@, "Privilege"@) == Some(word(privilege)),
        privilege == "Administrator"@ || privilege == "Operator"@ || privilege == "User"@
            || privilege == "Callback"@,
        lookup(lockdown@, "SysLockdownEnabled"@) == Some(JsonView::Bool(locked)),
        old(io)@ == after(
            seq![
                Ok(Response::Object(ports)),
                Ok(Response::SerialInterface(port)),
                Ok(Response::System(system)),
                Ok(Response::Object(first)),
                Ok(Response::Object(second)),
                Ok(Response::Object(third)),
                Ok(Response::Object(hosts)),
                Ok(Response::Object(host)),
                Ok(Response::ChassisList(chassis)),
                Ok(Response::Object(kcs)),
                Ok(Response::Object(lockdown)),
                Ok(Response::System(system)),
            ],
        ),
    ensures
        r is Ok,
        r->Ok_0.is_done <==> r->Ok_0.diffs@.len() == 0,
        r->Ok_0.is_done <==> console_on(port, system) && shows_setup(have, attrs, on) && locked
            && privilege == "Callback"@ && (!host_on || needs_host_interface(system)),
{
    names_are_listed(ports, names, "Managers/"@ + bmc.s.manager() + "/SerialInterfaces"@);
    tpm_state_is_read(now, state);
    words_differ();
    setup_shows(have, attrs, on);
    other_models_are_not_kept(system);
    mgx_c2_is_found(chassis);
    names_are_listed(hosts, seq![id], "Managers/"@ + bmc.s.manager() + "/HostInterfaces"@);
    privileges_differ();
    let t = old(io)@;
    let u = Tape { replies: t.replies, pos: 6 };
    assert(bmc.serial_console_status_flow(t)->Ready_1 == (Tape { replies: t.replies, pos: 3 }));
    assert(bmc.machine_setup_attrs_flow(Tape { replies: t.replies, pos: 4 }) is Ready);
    assert(bmc.diff_bios_bmc_attr_flow(t)->Ready_1 == u);
    assert(bmc.lockdown_status_flow(u) is Ready);
    assert(r->Ok_0.deep_view().diffs == r->Ok_0.diffs.deep_view());
}

/// The boot order is set up if and only if its first entry refers to the first boot option
/// that is the DPU's.
pub proof fn is_boot_order_setup_run<'a>(
    bmc: &Bmc,
    mac: &str,
    links: References,
    ids: Seq<Seq<char>>,
    system: ComputerSystem,
    options: Seq<BootOption>,
    e: RedfishError,
    io: &mut Exchange<'a>,
    r: Result<bool, Stop>,
)
    requires
        call_ensures(Bmc::is_boot_order_setup, (bmc, BootInterfaceRef::Mac(mac), io), r),
        lead_to(links.members@, ids),
        system.boot.boot_order@.len() > 0,
        options.len() <= ids.len(),
    ensures
        old(io)@ == after(seq![]) ==> asks(
            r,
            reading("Systems/"@ + bmc.s.system() + "/BootOptions"@),
            Kind::References,
        ),
        old(io)@ == after(seq![Err(e)]) ==> if (e@ matches Fault::HTTPErrorCode {
            status_code,
            response_body,
            ..
        } && status_code == 400 && has(response_body, "PropertyUnknown"@) && has(
            response_body,
            "BootOrder"@,
        )) {
            asks(r, read_fixed_order(*bmc), Kind::FixedBootOrder)
        } else {
            fails(r, e@)
        },
        old(io)@ == after(seq![Ok(Response::References(links))]) ==> asks(
            r,
            reading("Systems/"@ + bmc.s.system() + "/"@),
            Kind::System,
        ),
        old(io)@ == after(
            seq![Ok(Response::References(links)), Ok(Response::System(system))] + option_replies(
                options,
            ),
        ) && options.len() < ids.len() ==> asks(
            r,
            reading("Systems/"@ + bmc.s.system() + "/BootOptions/"@ + ids[options.len() as int]),
            Kind::BootOption,
        ),
        old(io)@ == after(
            seq![Ok(Response::References(links)), Ok(Response::System(system))] + option_replies(
                options,
            ),
        ) && options.len() == ids.len() ==> (r matches Ok(done) && (done <==> exists|i: int|
            0 <= i < options.len() && boots_dpu((#[trigger] options[i]).display_name@, mac@)
                && refers_to(
                system.boot.boot_order.deep_view()[0],
                options[i].boot_option_reference@,
            ) && forall|k: int|
                0 <= k < i ==> !boots_dpu((#[trigger] options[k]).display_name@, mac@))),
{
    let replies = seq![Ok(Response::References(links)), Ok(Response::System(system))]
        + option_replies(options);
    let u = Tape { replies, pos: 2 };
    assert forall|i: int| 0 <= i < options.len() implies u.replies[u.pos + i] == Reply::Ok(
        Response::BootOption(#[trigger] options[i]),
    ) by {}
    all_options_are_read(bmc.s, links.members@, ids, options, Seq::empty(), u);
    assert(Seq::<BootOption>::empty() + options =~= options);
    order_is_told(system.boot.boot_order.deep_view(), options, mac@);
}

/// Whether a boot order starts with the DPU: its first entry refers to the first boot option
/// that is the DPU's.
pub open spec fn starts_with_dpu(
    order: Seq<Seq<char>>,
    options: Seq<BootOption>,
    mac: Seq<char>,
) -> bool {
    exists|i: int|
        0 <= i < options.len() && boots_dpu((#[trigger] options[i]).display_name@, mac)
            && refers_to(order[0], options[i].boot_option_reference@) && forall|k: int|
            0 <= k < i ==> !boots_dpu((#[trigger] options[k]).display_name@, mac)
}

proof fn order_is_told(order: Seq<Seq<char>>, options: Seq<BootOption>, mac: Seq<char>)
    requires
        order.len() > 0,
    ensures
        standard_diff(order, options, mac) is None <==> starts_with_dpu(order, options, mac),
{
    let p = |o: BootOption| option_matches_mac(o.display_name@, mac);
    first_where_is_first(options, p);
    if let Some(i) = first_where(options, p) {
        reference_is_of_the_entry(order[0], options[i].boot_option_reference@);
        assert(boots_dpu(options[i].display_name@, mac));
        assert forall|k: int| 0 <= k < i implies !boots_dpu(
            (#[trigger] options[k]).display_name@,
            mac,
        ) by {
            assert(!p(options[k]));
        }
    } else {
        assert forall|k: int| 0 <= k < options.len() implies !boots_dpu(
            (#[trigger] options[k]).display_name@,
            mac,
        ) by {
            assert(!p(options[k]));
        }
    }
}

/// A machine with a DPU is set up if and only if its BIOS is, its boot order starts with the
/// DPU, and it is locked down.
pub proof fn machine_setup_status_with_dpu_run<'a>(
    bmc: &Bmc,
    mac: &str,
    ports: Object,
    names: Seq<Seq<char>>,
    port: SerialInterface,
    system: ComputerSystem,
    first: Object,
    have: ObjectView,
    second: Object,
    attrs: ObjectView,
    third: Object,
    now: ObjectView,
    state: JsonView,
    on: Seq<char>,
    links: References,
    ids: Seq<Seq<char>>,
    options: Seq<BootOption>,
    hosts: Object,
    id: Seq<char>,
    host: Object,
    chassis: Members<Chassis>,
    kcs: Object,
    lockdown: Object,
    host_on: bool,
    privilege: Seq<char>,
    locked: bool,
    io: &mut Exchange<'a>,
    r: Result<MachineSetupStatus, Stop>,
)
    requires
        call_ensures(
            Bmc::machine_setup_status,
            (bmc, Some(BootInterfaceRef::Mac(mac)), io),
            r,
        ),
        lists(ports, names),
        names.len() > 0,
        system.serial_console is Some,
        system.boot.boot_order@.len() > 0,
        lookup(first@, "Attributes"@) == Some(JsonView::Object(have)),
        lookup(second@, "Attributes"@) == Some(JsonView::Object(attrs)),
        lookup(third@, "Attributes"@) == Some(JsonView::Object(now)),
        tpm_is(now, state),
        turned_on_by(state, on),
        lead_to(links.members@, ids),
        options.len() == ids.len(),
        lists(hosts, seq![id]),
        lookup(host@, "InterfaceEnabled"@) == Some(JsonView::Bool(host_on)),
        !on_mgx_c2(chassis),
        lookup(kcs@, "Privilege"@) == Some(word(privilege)),
        privilege == "Administrator"@ || privilege == "Operator"@ || privilege == "User"@
            || privilege == "Callback"@,
        lookup(lockdown@, "SysLockdownEnabled"@) == Some(JsonView::Bool(locked)),
        old(io)@ == after(
            seq![
                Ok(Response::Object(ports)),
                Ok(Response::SerialInterface(port)),
                Ok(Response::System(system)),
                Ok(Response::Object(first)),
                Ok(Response::Object(second)),
                Ok(Response::Object(third)),
                Ok(Response::References(links)),
                Ok(Response::System(system)),
            ] + option_replies(options) + seq![
                Ok(Response::Object(hosts)),
                Ok(Response::Object(host)),
                Ok(Response::ChassisList(chassis)),
                Ok(Response::Object(kcs)),
                Ok(Response::Object(lockdown)),
                Ok(Response::System(system)),
            ],
        ),
    ensures
        r is Ok,
        r->Ok_0.is_done <==> console_on(port, system) && shows_setup(have, attrs, on)
            && starts_with_dpu(system.boot.boot_order.deep_view(), options, mac@) && locked
            && privilege == "Callback"@ && (!host_on || needs_host_interface(system)),
{
    names_are_listed(ports, names, "Managers/"@ + bmc.s.manager() + "/SerialInterfaces"@);
    tpm_state_is_read(now, state);
    words_differ();
    setup_shows(have, attrs, on);
    other_models_are_not_kept(system);
    mgx_c2_is_found(chassis);
    names_are_listed(hosts, seq![id], "Managers/"@ + bmc.s.manager() + "/HostInterfaces"@);
    privileges_differ();
    let t = old(io)@;
    let all = t.replies;
    let n = options.len() as int;
    assert(all.len() == 14 + n);
    assert(bmc.serial_console_status_flow(t)->Ready_1 == (Tape { replies: all, pos: 3 }));
    assert(bmc.machine_setup_attrs_flow(Tape { replies: all, pos: 4 }) is Ready);
    let u = Tape { replies: all, pos: 6 };
    assert(bmc.diff_bios_bmc_attr_flow(t)->Ready_1 == u);
    let v = Tape { replies: all, pos: 8 };
    assert forall|i: int| 0 <= i < n implies v.replies[v.pos + i] == Reply::Ok(
        Response::BootOption(#[trigger] options[i]),
    ) by {
        assert(all[8 + i] == option_replies(options)[i]);
    }
    all_options_are_read(bmc.s, links.members@, ids, options, Seq::empty(), v);
    assert(Seq::<BootOption>::empty() + options =~= options);
    let w = Tape { replies: all, pos: (8 + n) as nat };
    order_is_told(system.boot.boot_order.deep_view(), options, mac@);
    assert(bmc.boot_order_diff_flow(mac@, u) == Flow::Ready(
        standard_diff(system.boot.boot_order.deep_view(), options, mac@),
        w,
    ));
    assert(all[8 + n] == Reply::Ok(Response::Object(hosts)));
    assert(all[9 + n] == Reply::Ok(Response::Object(host)));
    assert(all[10 + n] == Reply::Ok(Response::ChassisList(chassis)));
    assert(all[11 + n] == Reply::Ok(Response::Object(kcs)));
    assert(all[12 + n] == Reply::Ok(Response::Object(lockdown)));
    assert(all[13 + n] == Reply::Ok(Response::System(system)));
    assert(bmc.host_interface_flow(w) == Flow::Ready(
        host_on,
        Tape { replies: all, pos: (10 + n) as nat },
    ));
    assert(bmc.kcs_privilege_flow(Tape { replies: all, pos: (10 + n) as nat }) is Ready);
    assert(bmc.lockdown_status_flow(w) is Ready);
}

/// Without a boot order, the fixed one tells: it is set up if and only if it boots the DPU's
/// device first.
pub proof fn is_boot_order_setup_run_in_fixed_order<'a>(
    bmc: &Bmc,
    mac: &str,
    links: References,
    system: ComputerSystem,
    f: FixedBootOrder,
    i: int,
    io: &mut Exchange<'a>,
    r: Result<bool, Stop>,
)
    requires
        call_ensures(Bmc::is_boot_order_setup, (bmc, BootInterfaceRef::Mac(mac), io), r),
        system.boot.boot_order@.len() == 0,
        f.fixed_boot_order@.len() > 0,
        f.fixed_boot_order@[0]@ == "UEFI Network"@,
        f.uefi_network@.len() > 0,
    ensures
        old(io)@ == after(seq![Ok(Response::References(links)), Ok(Response::System(system))])
            ==> asks(r, read_fixed_order(*bmc), Kind::FixedBootOrder),
        old(io)@ == after(
            seq![
                Ok(Response::References(links)),
                Ok(Response::System(system)),
                Ok(Response::FixedBootOrder(f)),
            ],
        ) && first_for_dpu(f.uefi_network.deep_view(), i, mac@) ==> r == Ok::<bool, Stop>(
            f.uefi_network@[0]@ == f.uefi_network@[i]@,
        ),
        old(io)@ == after(
            seq![
                Ok(Response::References(links)),
                Ok(Response::System(system)),
                Ok(Response::FixedBootOrder(f)),
            ],
        ) && (forall|k: int|
            0 <= k < f.uefi_network@.len() ==> !boots_dpu(
                #[trigger] f.uefi_network.deep_view()[k],
                mac@,
            )) ==> r == Ok::<bool, Stop>(false),
{
    let devices = f.uefi_network.deep_view();
    let p = |entry: Seq<char>| option_matches_mac(entry, mac@);
    first_where_is_first(devices, p);
    assert(f.fixed_boot_order.deep_view()[0] == "UEFI Network"@);
    assert("UEFI Network"@.subrange(0, "UEFI Network"@.len() as int) =~= "UEFI Network"@);
    assert(devices[0] == f.uefi_network@[0]@);
    assert forall|k: int| 0 <= k < devices.len() implies p(#[trigger] devices[k]) == boots_dpu(
        devices[k],
        mac@,
    ) by {}
    if first_for_dpu(devices, i, mac@) {
        assert forall|k: int| 0 <= k < i implies !p(#[trigger] devices[k]) by {}
        first_where_found(devices, p, i);
        assert(devices[i] == f.uefi_network@[i]@);
    }
}

/// Where the pending changes are, that clearing them begins with, and where PCIe devices are.
pub proof fn other_places<'a>(
    bmc: &Bmc,
    chassis: &str,
    device: &str,
    q: Request,
    io: &mut Exchange<'a>,
    r: Result<(), Stop>,
)
    requires
        call_ensures(Bmc::get_pcie_device, (bmc, chassis, device), q),
        call_ensures(Bmc::clear_pending, (bmc, io), r),
    ensures
        q@ == reading("Chassis/"@ + chassis@ + "/PCIeDevices/"@ + device@),
        old(io)@ == after(seq![]) ==> asks(
            r,
            reading("Systems/"@ + bmc.s.system() + "/Bios/SD"@),
            Kind::Object,
        ),
{
}

/// Clearing pending changes does on the settings document of the vendor what the standard
/// does on its own: on the same replies, the one asks for what the other does.
pub proof fn pending_is_cleared_as_by_the_standard<'a>(
    bmc: &Bmc,
    url: &str,
    io: &mut Exchange<'a>,
    r: Result<(), Stop>,
    other: &mut Exchange<'a>,
    s: Result<(), Stop>,
)
    requires
        call_ensures(Bmc::clear_pending, (bmc, io), r),
        call_ensures(RedfishStandard::clear_pending_with_url, (&bmc.s, url, other), s),
        url@ == "Systems/"@ + bmc.s.system() + "/Bios/SD"@,
        old(io)@ == old(other)@,
    ensures
        s is Ok <==> r is Ok,
        s matches Err(Stop::Wait(q, k)) ==> asks(r, q@, k),
        s matches Err(Stop::Fail(e)) ==> fails(r, e@),
{
}

/// The attributes of the BIOS are grouped by their canonical names: a group holds the keys
/// of the machine that have its name, and no others.
pub proof fn attributes_are_grouped<'a>(
    bmc: &Bmc,
    bios: Object,
    attrs: ObjectView,
    name: Seq<char>,
    key: Seq<char>,
    io: &mut Exchange<'a>,
    r: Result<Vec<Group>, Stop>,
)
    requires
        call_ensures(Bmc::bios_attributes_name_map, (bmc, io), r),
        lookup(bios@, "Attributes"@) == Some(JsonView::Object(attrs)),
    ensures
        old(io)@ == after(seq![]) ==> asks(
            r,
            reading("Systems/"@ + bmc.s.system() + "/Bios"@),
            Kind::Object,
        ),
        old(io)@ == after(seq![Ok(Response::Object(bios))]) ==> (r matches Ok(groups) && (group_of(
            groups.deep_view(),
            name,
        ).contains(key) <==> is_named(key, name) && has_key(attrs, key))),
{
    name_map_partitions(attrs, name, key);
    key_has_one_name(key, name);
}

} // verus!
