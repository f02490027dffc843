//! What the standard operations do, request by request: for every answer that can come in,
//! what is asked for next and what comes out.
use crate::error::{ErrorView, Fault, RedfishError};
use crate::exchange::{
    flow, get, Exchange, Flow, Kind, Method, PayloadView, Reply, Request, RequestView, Response,
    Stop, Tape, Timeout,
};
use crate::json::{alike, lookup, Json, JsonView, Object, ObjectView};
use crate::model::{
    BootInterfaceRef, BootOption, Chassis, ComputerSystem, EnabledDisabled, EthernetInterface, Job,
    ManagerAccount, ManagerNetworkProtocol, ManagerResetType, Members, ODataId, PowerState,
    RedfishVendor, References, RoleId, RootView, SerialInterface, ServiceRoot, SystemPowerControl,
    Task, TaskMessage, TaskReply, TransferProtocolType, Written,
};
use crate::jsonmap::{get_bool, get_object, get_str, get_value};
use crate::inventory::{became_job, linked_name, Progress};
use crate::order::in_order_is_ordered;
use crate::outside::{percent_encoded, rfc3339};
use crate::requests::{Backend, Timestamp};
use crate::run::{
    after, asks, calling, changing, fails, leads_to, lists, names_are_listed, posting, reading,
    removing, word, words, words_are_texts,
};
use crate::search::{first_where_absent, first_where_found};
use crate::standard::{current_values, differing, has_entry, RedfishHttpClient, RedfishStandard};
use crate::text::{decimal, has, has_at, lower, precedes, without_leading, without_trailing};
use crate::text_laws::{
    after_last_is_the_last_part, ends_are_taken_off, free_of, prefix_is_taken_away,
    text_begins_with_its_head,
};
use vstd::prelude::*;
use vstd::string::*;

verus! {

/// The requests for documents of the system and of the chassis of the same name.
pub proof fn system_requests(
    bmc: &RedfishStandard,
    id: &str,
    system: Request,
    bios: Request,
    options: Request,
    option: Request,
    interface: Request,
    secure_boot: Request,
    metrics: Request,
    status: Request,
    thermal: Request,
)
    requires
        call_ensures(RedfishStandard::get_system, (bmc,), system),
        call_ensures(RedfishStandard::bios, (bmc,), bios),
        call_ensures(RedfishStandard::get_boot_options, (bmc,), options),
        call_ensures(RedfishStandard::get_boot_option, (bmc, id), option),
        call_ensures(RedfishStandard::get_system_ethernet_interface, (bmc, id), interface),
        call_ensures(RedfishStandard::get_secure_boot, (bmc,), secure_boot),
        call_ensures(RedfishStandard::get_power_metrics, (bmc,), metrics),
        call_ensures(RedfishStandard::get_power_status, (bmc,), status),
        call_ensures(RedfishStandard::get_thermal_metrics, (bmc,), thermal),
    ensures
        system@ == reading("Systems/"@ + bmc.system() + "/"@),
        bios@ == reading("Systems/"@ + bmc.system() + "/Bios"@),
        options@ == reading("Systems/"@ + bmc.system() + "/BootOptions"@),
        option@ == reading("Systems/"@ + bmc.system() + "/BootOptions/"@ + id@),
        interface@ == reading("Systems/"@ + bmc.system() + "/EthernetInterfaces/"@ + id@),
        secure_boot@ == reading("Systems/"@ + bmc.system() + "/SecureBoot"@),
        metrics@ == reading("Chassis/"@ + bmc.system() + "/Power/"@),
        status@ == reading("Chassis/"@ + bmc.system() + "/Power/"@),
        thermal@ == reading("Chassis/"@ + bmc.system() + "/Thermal/"@),
{
}

/// The requests for documents of the manager, of a chassis and of the services.
pub proof fn document_requests(
    bmc: &RedfishStandard,
    id: &str,
    part: &str,
    manager: Request,
    protocol: Request,
    interface: Request,
    chassis: Request,
    assembly: Request,
    adapter: Request,
    firmware: Request,
    account: Request,
    certificate: Request,
    integrities: Request,
)
    requires
        call_ensures(RedfishStandard::get_manager, (bmc,), manager),
        call_ensures(RedfishStandard::get_manager_network_protocol, (bmc,), protocol),
        call_ensures(RedfishStandard::get_manager_ethernet_interface, (bmc, id), interface),
        call_ensures(RedfishStandard::get_chassis, (bmc, id), chassis),
        call_ensures(RedfishStandard::get_chassis_assembly, (bmc, id), assembly),
        call_ensures(RedfishStandard::get_chassis_network_adapter, (bmc, id, part), adapter),
        call_ensures(RedfishStandard::get_firmware, (bmc, id), firmware),
        call_ensures(RedfishStandard::get_account_by_id, (bmc, id), account),
        call_ensures(RedfishStandard::get_secure_boot_certificate, (bmc, id, part), certificate),
        call_ensures(RedfishStandard::get_component_integrities, (bmc,), integrities),
    ensures
        manager@ == reading("Managers/"@ + bmc.manager()),
        protocol@ == reading("Managers/"@ + bmc.manager() + "/NetworkProtocol"@),
        interface@ == reading("Managers/"@ + bmc.manager() + "/EthernetInterfaces/"@ + id@),
        chassis@ == reading("Chassis/"@ + id@),
        assembly@ == reading("Chassis/"@ + id@ + "/Assembly"@),
        adapter@ == reading("Chassis/"@ + id@ + "/NetworkAdapters/"@ + part@),
        firmware@ == reading("UpdateService/FirmwareInventory/"@ + id@),
        account@ == reading("AccountService/Accounts/"@ + id@),
        certificate@ == reading(
            "Systems/"@ + bmc.system() + "/SecureBoot/SecureBootDatabases/"@ + id@
                + "/Certificates"@ + "/"@ + part@,
        ),
        integrities@ == reading("ComponentIntegrity?$expand=.($levels=1)"@),
{
}

/// The requests for what a link leads to: the entry point is added to every request, so
/// it is taken off the link.
pub proof fn link_requests(
    bmc: &RedfishStandard,
    link: &ODataId,
    url: &str,
    place: Seq<char>,
    resource: Request,
    collection: Request,
    certificate: Request,
    evidence: Request,
)
    requires
        call_ensures(RedfishStandard::get_resource, (bmc, link), resource),
        call_ensures(RedfishStandard::get_collection, (bmc, link), collection),
        call_ensures(RedfishStandard::get_component_ca_certificate, (bmc, url), certificate),
        call_ensures(RedfishStandard::get_evidence, (bmc, url), evidence),
        !(has(place, "/redfish/v1/"@)),
    ensures
        link.odata_id@ == "/redfish/v1/"@ + place || link.odata_id@ == place ==> {
            &&& resource@ == reading(place)
            &&& collection@ == reading(place + "?$expand=.($levels=1)"@)
        },
        url@ == "/redfish/v1/"@ + place || url@ == place ==> {
            &&& certificate@ == reading(place)
            &&& evidence@ == reading(place + "/data"@)
        },
{
    reveal_strlit("/redfish/v1/");
    prefix_is_taken_away("/redfish/v1/"@, place);
}

/// The update service is where the service root says, or else in its usual place.
pub proof fn update_service_requests(
    bmc: &RedfishStandard,
    place: Seq<char>,
    q: Request,
    upload: Request,
)
    requires
        call_ensures(RedfishStandard::get_update_service, (bmc,), q),
        call_ensures(RedfishStandard::update_firmware, (bmc,), upload),
        !(has(place, "/redfish/v1/"@)),
    ensures
        bmc.root().update_service is None ==> q@ == reading("UpdateService"@),
        bmc.root().update_service matches Some(o) ==> (lookup(o, "@odata.id"@) is None
            ==> q@ == reading("UpdateService"@)),
        bmc.root().update_service matches Some(o) ==> (lookup(o, "@odata.id"@) == Some(
            word("/redfish/v1/"@ + place),
        ) ==> q@ == reading(place)),
        upload@ == (RequestView {
            method: Method::Post,
            url: "UpdateService"@,
            payload: PayloadView::File,
            headers: Seq::empty(),
            timeout: None,
        }),
{
    reveal_strlit("/redfish/v1/");
    reveal_strlit("/redfish/v1/UpdateService");
    reveal_strlit("UpdateService");
    prefix_is_taken_away("/redfish/v1/"@, place);
    assert("/redfish/v1/"@.len() == 12);
    assert("/redfish/v1/UpdateService"@ =~= "/redfish/v1/"@ + "UpdateService"@);
    assert(forall|i: int| 0 <= i < 13 ==> #[trigger] "UpdateService"@[i] != '/');
    assert(!(has("UpdateService"@, "/redfish/v1/"@))) by {
        if has("UpdateService"@, "/redfish/v1/"@) {
            let i = choose|i: int| has_at("UpdateService"@, "/redfish/v1/"@, i);
            assert("UpdateService"@.subrange(i, i + 12)[0] == "UpdateService"@[i]);
            assert("/redfish/v1/"@[0] == '/');
        }
    }
    prefix_is_taken_away("/redfish/v1/"@, "UpdateService"@);
}

/// The requests that change accounts. An account is written with its name, its password
/// and its role.
pub proof fn account_requests(
    bmc: &RedfishStandard,
    username: &str,
    password: &str,
    role: RoleId,
    role_name: &'static str,
    number: u8,
    enabled: bool,
    created: Request,
    edited: Request,
    deleted: Request,
    policy: Request,
)
    requires
        call_ensures(RoleId::name, (&role,), role_name),
        call_ensures(RedfishStandard::create_user, (bmc, username, password, role), created),
        call_ensures(
            RedfishStandard::edit_account,
            (bmc, number, username, password, role, enabled),
            edited,
        ),
        call_ensures(RedfishStandard::delete_user, (bmc, username), deleted),
        call_ensures(RedfishStandard::set_machine_password_policy, (bmc,), policy),
    ensures
        created@ == posting(
            "AccountService/Accounts"@,
            seq![
                ("UserName"@, word(username@)),
                ("Password"@, word(password@)),
                ("RoleId"@, word(role_name@)),
            ],
        ),
        edited@ == changing(
            "AccountService/Accounts/"@ + decimal(number as nat),
            seq![
                ("UserName"@, word(username@)),
                ("Password"@, word(password@)),
                ("RoleId"@, word(role_name@)),
                ("Enabled"@, JsonView::Bool(enabled)),
            ],
        ),
        deleted@ == removing("AccountService/Accounts/"@ + username@),
        policy@ == changing(
            "AccountService"@,
            seq![
                ("AccountLockoutThreshold"@, JsonView::Number("0"@)),
                ("AccountLockoutDuration"@, JsonView::Number("0"@)),
                ("AccountLockoutCounterResetAfter"@, JsonView::Number("0"@)),
            ],
        ),
{
    assert(seq![
        ("UserName"@, word(username@)),
        ("Password"@, word(password@)),
        ("RoleId"@, word(role_name@)),
    ].push(("Enabled"@, JsonView::Bool(enabled))) =~= seq![
        ("UserName"@, word(username@)),
        ("Password"@, word(password@)),
        ("RoleId"@, word(role_name@)),
        ("Enabled"@, JsonView::Bool(enabled)),
    ]);
}

/// The requests that change the power state of the system or a chassis. An AC power cycle
/// is refused.
pub proof fn power_requests(
    bmc: &RedfishStandard,
    action: SystemPowerControl,
    name: &'static str,
    chassis: &str,
    q: Result<Request, RedfishError>,
    reset: Request,
    supported: bool,
)
    requires
        call_ensures(SystemPowerControl::name, (&action,), name),
        call_ensures(RedfishStandard::power, (bmc, action), q),
        call_ensures(RedfishStandard::chassis_reset, (bmc, chassis, action), reset),
        call_ensures(RedfishStandard::ac_powercycle_supported_by_power, (bmc,), supported),
    ensures
        !supported,
        action == SystemPowerControl::ACPowercycle ==> (q matches Err(e) && e@
            == ErrorView::NotSupported("AC power cycle not supported on this platform"@)),
        action != SystemPowerControl::ACPowercycle ==> (q matches Ok(q) && q@ == posting(
            "Systems/"@ + bmc.system() + "/Actions/ComputerSystem.Reset"@,
            seq![("ResetType"@, word(name@))],
        )),
        reset@ == posting(
            "Chassis/"@ + chassis@ + "/Actions/Chassis.Reset"@,
            seq![("ResetType"@, word(name@))],
        ),
{
}

/// The requests that reset the BMC and the BIOS.
pub proof fn reset_requests(
    bmc: &RedfishStandard,
    kind: ManagerResetType,
    name: &'static str,
    headers: Vec<(String, String)>,
    with_headers: Request,
    without: Request,
    restart: Request,
    defaults: Request,
    bios: Request,
)
    requires
        call_ensures(ManagerResetType::name, (&kind,), name),
        call_ensures(RedfishStandard::reset_manager, (bmc, kind, Some(headers)), with_headers),
        call_ensures(
            RedfishStandard::reset_manager,
            (bmc, kind, None::<Vec<(String, String)>>),
            without,
        ),
        call_ensures(RedfishStandard::bmc_reset, (bmc,), restart),
        call_ensures(RedfishStandard::bmc_reset_to_defaults, (bmc,), defaults),
        call_ensures(RedfishStandard::factory_reset_bios, (bmc,), bios),
    ensures
        without@ == posting(
            "Managers/"@ + bmc.manager() + "/Actions/Manager.Reset"@,
            seq![("ResetType"@, word(name@))],
        ),
        with_headers@ == (RequestView { headers: headers.deep_view(), ..without@ }),
        restart@ == posting(
            "Managers/"@ + bmc.manager() + "/Actions/Manager.Reset"@,
            seq![("ResetType"@, word("GracefulRestart"@))],
        ),
        defaults@ == posting(
            "Managers/"@ + bmc.manager() + "/Actions/Manager.ResetToDefaults"@,
            seq![("ResetType"@, word("ResetAll"@))],
        ),
        bios@ == calling("Systems/"@ + bmc.system() + "/Bios/Actions/Bios.ResetBios"@),
{
}

/// The requests that turn secure boot and IPMI over LAN on or off.
pub proof fn switch_requests(
    bmc: &RedfishStandard,
    target: EnabledDisabled,
    on: Request,
    off: Request,
    ipmi: Request,
)
    requires
        call_ensures(RedfishStandard::enable_secure_boot, (bmc,), on),
        call_ensures(RedfishStandard::disable_secure_boot, (bmc,), off),
        call_ensures(RedfishStandard::enable_ipmi_over_lan, (bmc, target), ipmi),
    ensures
        on@ == changing(
            "Systems/"@ + bmc.system() + "/SecureBoot"@,
            seq![("SecureBootEnable"@, JsonView::Bool(true))],
        ),
        off@ == changing(
            "Systems/"@ + bmc.system() + "/SecureBoot"@,
            seq![("SecureBootEnable"@, JsonView::Bool(false))],
        ),
        ipmi@ == changing(
            "Managers/"@ + bmc.manager() + "/NetworkProtocol"@,
            seq![
                (
                    "IPMI"@,
                    JsonView::Object(
                        seq![
                            (
                                "ProtocolEnabled"@,
                                JsonView::Bool(target == EnabledDisabled::Enabled),
                            ),
                        ],
                    ),
                ),
            ],
        ),
{
}

/// The request that changes the BIOS password `name` from `old_password` to `new_password`.
pub open spec fn write_password(
    bmc: RedfishStandard,
    name: Seq<char>,
    old_password: Seq<char>,
    new_password: Seq<char>,
) -> RequestView {
    posting(
        "Systems/"@ + bmc.system() + (if bmc.known_vendor() == Some(RedfishVendor::Hpe) {
            "/Bios/Settings/Actions/Bios.ChangePasswords"@
        } else {
            "/Bios/Actions/Bios.ChangePassword"@
        }),
        seq![
            ("PasswordName"@, word(name)),
            ("OldPassword"@, word(old_password)),
            ("NewPassword"@, word(new_password)),
        ],
    )
}

/// The requests that change BIOS passwords. A password that is cleared is changed to the
/// empty one.
pub proof fn password_requests(
    bmc: &RedfishStandard,
    name: &str,
    current: &str,
    new: &str,
    bios: Request,
    uefi: Request,
    cleared: Request,
)
    requires
        call_ensures(RedfishStandard::change_bios_password, (bmc, name, current, new), bios),
        call_ensures(RedfishStandard::change_uefi_password, (bmc, current, new), uefi),
        call_ensures(RedfishStandard::clear_uefi_password, (bmc, current), cleared),
    ensures
        bios@ == write_password(*bmc, name@, current@, new@),
        uefi@ == write_password(*bmc, "AdministratorPassword"@, current@, new@),
        cleared@ == write_password(*bmc, "AdministratorPassword"@, current@, ""@),
{
}

/// The names in a collection are the last parts of its links, in the order in which they
/// stand there. `r` is what comes of reading the collection at `url`.
pub open spec fn reads_names(r: Result<Vec<String>, Stop>, t: Tape, url: Seq<char>) -> bool {
    &&& t == after(seq![]) ==> asks(r, reading(url), Kind::Object)
    &&& forall|document: Object, ids: Seq<Seq<char>>|
        t == after(seq![Ok(Response::Object(document))]) && #[trigger] lists(document, ids) ==> (
        r matches Ok(names) && names.deep_view() == ids)
    &&& forall|e: RedfishError| t == #[trigger] after(seq![Err(e)]) ==> fails(r, e@)
}

proof fn names_come_from_the_collection(
    bmc: RedfishStandard,
    r: Result<Vec<String>, Stop>,
    t: Tape,
    u: Tape,
    url: Seq<char>,
)
    requires
        flow(r, u) == bmc.members_flow(get(url), t),
    ensures
        reads_names(r, t, url),
{
    assert forall|document: Object, ids: Seq<Seq<char>>|
        t == after(seq![Ok(Response::Object(document))]) && #[trigger] lists(
            document,
            ids,
        ) implies (r matches Ok(names) && names.deep_view() == ids) by {
        names_are_listed(document, ids, url);
    }
}

/// Where the collections are.
pub proof fn collections_are_read<'a>(
    bmc: &RedfishStandard,
    id: &str,
    io: &mut Exchange<'a>,
    r: Result<Vec<String>, Stop>,
)
    ensures
        call_ensures(RedfishStandard::get_members, (bmc, id, io), r) ==> reads_names(
            r,
            old(io)@,
            id@,
        ),
        call_ensures(RedfishStandard::get_tasks, (bmc, io), r) ==> reads_names(
            r,
            old(io)@,
            "TaskService/Tasks/"@,
        ),
        call_ensures(RedfishStandard::get_chassis_all, (bmc, io), r) ==> reads_names(
            r,
            old(io)@,
            "Chassis/"@,
        ),
        call_ensures(RedfishStandard::get_chassis_network_adapters, (bmc, id, io), r)
            ==> reads_names(r, old(io)@, "Chassis/"@ + id@ + "/NetworkAdapters"@),
        call_ensures(RedfishStandard::get_manager_ethernet_interfaces, (bmc, io), r)
            ==> reads_names(r, old(io)@, "Managers/"@ + bmc.manager() + "/EthernetInterfaces"@),
        call_ensures(RedfishStandard::get_system_ethernet_interfaces, (bmc, io), r)
            ==> reads_names(r, old(io)@, "Systems/"@ + bmc.system() + "/EthernetInterfaces"@),
        call_ensures(RedfishStandard::get_software_inventories, (bmc, io), r) ==> reads_names(
            r,
            old(io)@,
            "UpdateService/FirmwareInventory"@,
        ),
        call_ensures(RedfishStandard::get_secure_boot_certificates, (bmc, id, io), r)
            ==> reads_names(
            r,
            old(io)@,
            "Systems/"@ + bmc.system() + "/SecureBoot/SecureBootDatabases/"@ + id@
                + "/Certificates"@,
        ),
{
    let t = old(io)@;
    let u = final(io)@;
    let a = "Chassis/"@ + id@ + "/NetworkAdapters"@;
    let b = "Managers/"@ + bmc.manager() + "/EthernetInterfaces"@;
    let c = "Systems/"@ + bmc.system() + "/EthernetInterfaces"@;
    let d = "Systems/"@ + bmc.system() + "/SecureBoot/SecureBootDatabases/"@ + id@
        + "/Certificates"@;
    if flow(r, u) == bmc.members_flow(get(id@), t) {
        names_come_from_the_collection(*bmc, r, t, u, id@);
    }
    if flow(r, u) == bmc.members_flow(get("TaskService/Tasks/"@), t) {
        names_come_from_the_collection(*bmc, r, t, u, "TaskService/Tasks/"@);
    }
    if flow(r, u) == bmc.members_flow(get("Chassis/"@), t) {
        names_come_from_the_collection(*bmc, r, t, u, "Chassis/"@);
    }
    if flow(r, u) == bmc.members_flow(get(a), t) {
        names_come_from_the_collection(*bmc, r, t, u, a);
    }
    if flow(r, u) == bmc.members_flow(get(b), t) {
        names_come_from_the_collection(*bmc, r, t, u, b);
    }
    if flow(r, u) == bmc.members_flow(get(c), t) {
        names_come_from_the_collection(*bmc, r, t, u, c);
    }
    if flow(r, u) == bmc.members_flow(get("UpdateService/FirmwareInventory"@), t) {
        names_come_from_the_collection(*bmc, r, t, u, "UpdateService/FirmwareInventory"@);
    }
    if flow(r, u) == bmc.members_flow(get(d), t) {
        names_come_from_the_collection(*bmc, r, t, u, d);
    }
}

/// The replies that hold `accounts`.
pub open spec fn account_replies(accounts: Seq<ManagerAccount>) -> Seq<Reply> {
    Seq::new(accounts.len(), |i: int| Ok(Response::Account(accounts[i])))
}

proof fn accounts_are_read(
    ids: Seq<Seq<char>>,
    accounts: Seq<ManagerAccount>,
    username: Seq<char>,
    t: Tape,
)
    requires
        accounts.len() <= ids.len(),
        t.replies.len() >= t.pos + accounts.len(),
        forall|i: int|
            0 <= i < accounts.len() ==> t.replies[t.pos + i] == Reply::Ok(
                Response::Account(#[trigger] accounts[i]),
            ),
        forall|i: int|
            0 <= i < accounts.len() - 1 ==> (#[trigger] accounts[i]).username@ != username,
    ensures
        ({
            let f = RedfishStandard::account_among(ids, username, t);
            let found = accounts.len() > 0 && accounts.last().username@ == username;
            &&& found ==> f == Flow::Ready(
                accounts.last(),
                Tape { replies: t.replies, pos: t.pos + accounts.len() },
            )
            &&& !found && accounts.len() == ids.len() ==> f == Flow::<ManagerAccount>::Fail(
                Fault::UserNotFound(username),
                Tape { replies: t.replies, pos: t.pos + accounts.len() },
            )
            &&& !found && accounts.len() < ids.len() && t.replies.len() == t.pos + accounts.len()
                ==> f == Flow::<ManagerAccount>::Wait(
                reading("AccountService/Accounts/"@ + ids[accounts.len() as int]),
                Kind::Account,
            )
        }),
    decreases accounts.len(),
{
    if accounts.len() > 0 {
        let rest = accounts.drop_first();
        assert(t.replies[t.pos + 0int] == Reply::Ok(Response::Account(accounts[0])));
        if accounts[0].username@ != username {
            assert forall|i: int| 0 <= i < rest.len() implies t.next().replies[t.next().pos + i]
                == Reply::Ok(Response::Account(#[trigger] rest[i])) by {
                assert(rest[i] == accounts[i + 1]);
            }
            assert forall|i: int| 0 <= i < rest.len() - 1 implies (#[trigger] rest[i]).username@
                != username by {
                assert(rest[i] == accounts[i + 1]);
            }
            accounts_are_read(ids.drop_first(), rest, username, t.next());
        }
    }
}

proof fn account_is_found(
    bmc: RedfishStandard,
    document: Object,
    ids: Seq<Seq<char>>,
    accounts: Seq<ManagerAccount>,
    username: Seq<char>,
    later: Seq<Reply>,
)
    requires
        lists(document, ids),
        accounts.len() <= ids.len(),
        forall|i: int|
            0 <= i < accounts.len() - 1 ==> (#[trigger] accounts[i]).username@ != username,
    ensures
        ({
            let replies = seq![Ok(Response::Object(document))] + account_replies(accounts) + later;
            let f = bmc.account_by_name_flow(username, after(replies));
            let found = accounts.len() > 0 && accounts.last().username@ == username;
            let u = Tape { replies, pos: (1 + accounts.len()) as nat };
            &&& replies.len() == 1 + accounts.len() + later.len()
            &&& forall|i: int|
                0 <= i < later.len() ==> #[trigger] later[i] == replies[1 + accounts.len() + i]
            &&& found ==> f == Flow::Ready(accounts.last(), u)
            &&& !found && accounts.len() == ids.len() ==> f == Flow::<ManagerAccount>::Fail(
                Fault::UserNotFound(username),
                u,
            )
            &&& !found && accounts.len() < ids.len() && later.len() == 0 ==> f == Flow::<
                ManagerAccount,
            >::Wait(
                reading("AccountService/Accounts/"@ + ids[accounts.len() as int]),
                Kind::Account,
            )
        }),
{
    names_are_listed(document, ids, "AccountService/Accounts"@);
    let replies = seq![Ok(Response::Object(document))] + account_replies(accounts) + later;
    accounts_are_read(ids, accounts, username, Tape { replies, pos: 1 });
}

/// The account with a name is looked for among all accounts, one by one, and is the first
/// that has it.
pub proof fn account_by_name_run<'a>(
    bmc: &RedfishStandard,
    username: &str,
    document: Object,
    ids: Seq<Seq<char>>,
    accounts: Seq<ManagerAccount>,
    io: &mut Exchange<'a>,
    r: Result<&'a ManagerAccount, Stop>,
)
    requires
        call_ensures(RedfishStandard::get_account_by_name, (bmc, username, io), r),
        lists(document, ids),
        accounts.len() <= ids.len(),
        forall|i: int|
            0 <= i < accounts.len() - 1 ==> (#[trigger] accounts[i]).username@ != username@,
    ensures
        old(io)@ == after(seq![]) ==> asks(r, reading("AccountService/Accounts"@), Kind::Object),
        old(io)@ == after(seq![Ok(Response::Object(document))] + account_replies(accounts))
            ==> if accounts.len() > 0 && accounts.last().username@ == username@ {
            r matches Ok(found) && *found == accounts.last()
        } else if accounts.len() == ids.len() {
            fails(r, Fault::UserNotFound(username@))
        } else {
            asks(
                r,
                reading("AccountService/Accounts/"@ + ids[accounts.len() as int]),
                Kind::Account,
            )
        },
{
    account_is_found(*bmc, document, ids, accounts, username@, seq![]);
    assert(seq![Ok(Response::Object(document))] + account_replies(accounts) + Seq::<Reply>::empty()
        =~= seq![Ok(Response::Object(document))] + account_replies(accounts));
}

/// Changing the name of an account: it is found by its old name, and the document with its
/// id is written with the new one.
pub proof fn change_username_run<'a>(
    bmc: &RedfishStandard,
    old_name: &str,
    new_name: &str,
    document: Object,
    ids: Seq<Seq<char>>,
    accounts: Seq<ManagerAccount>,
    id: String,
    later: Seq<Reply>,
    w: Written,
    io: &mut Exchange<'a>,
    r: Result<(), Stop>,
)
    requires
        call_ensures(RedfishStandard::change_username, (bmc, old_name, new_name, io), r),
        lists(document, ids),
        0 < accounts.len() <= ids.len(),
        accounts.last().username@ == old_name@,
        forall|i: int|
            0 <= i < accounts.len() - 1 ==> (#[trigger] accounts[i]).username@ != old_name@,
        old(io)@ == after(
            seq![Ok(Response::Object(document))] + account_replies(accounts) + later,
        ),
    ensures
        accounts.last().id == Some(id) && later.len() == 0 ==> asks(
            r,
            changing("AccountService/Accounts/"@ + id@, seq![("UserName"@, word(new_name@))]),
            Kind::Written,
        ),
        accounts.last().id == Some(id) && later == seq![Reply::Ok(Response::Written(w))] ==> r is Ok,
        accounts.last().id is None ==> fails(
            r,
            Fault::UserNotFound(old_name@ + " has no ID field"@),
        ),
{
    account_is_found(*bmc, document, ids, accounts, old_name@, later);
    assert(later.len() > 0 ==> later[0] == old(io)@.replies[1 + accounts.len() + 0int]);
}

/// Whether a service root is that of AMI firmware.
pub open spec fn of_ami(root: ServiceRoot) -> bool {
    ||| root.vendor matches Some(vendor) && lower(vendor@) == lower("AMI"@)
    ||| root.oem matches Some(oem) && lookup(oem@, "Ami"@) is Some
}

/// The request that gives the account with the id `id` a new password.
pub open spec fn write_account_password(id: Seq<char>, password: Seq<char>, match_tag: bool) -> RequestView {
    RequestView {
        method: if match_tag {
            Method::PatchIfMatch
        } else {
            Method::Patch
        },
        url: "AccountService/Accounts/"@ + id,
        payload: PayloadView::Json(JsonView::Object(seq![("Password"@, word(password))])),
        headers: Seq::empty(),
        timeout: None,
    }
}

/// Changing the password of the account with an id: the service root is read, since AMI
/// firmware wants the tag of the document, and the password is written.
pub proof fn change_password_by_id_run<'a>(
    bmc: &RedfishStandard,
    id: &str,
    new_pass: &str,
    root: ServiceRoot,
    w: Written,
    e: RedfishError,
    io: &mut Exchange<'a>,
    r: Result<(), Stop>,
)
    requires
        call_ensures(RedfishStandard::change_password_by_id, (bmc, id, new_pass, io), r),
        root.vendor is Some,
    ensures
        old(io)@ == after(seq![]) ==> asks(r, reading(""@), Kind::ServiceRoot),
        old(io)@ == after(seq![Err(e)]) ==> fails(r, e@),
        old(io)@ == after(seq![Ok(Response::ServiceRoot(root))]) ==> asks(
            r,
            write_account_password(id@, new_pass@, of_ami(root)),
            Kind::Written,
        ),
        old(io)@ == after(seq![Ok(Response::ServiceRoot(root)), Ok(Response::Written(w))]) ==> r is Ok,
{
}

/// Changing the password of an account: it is found by its name, the service root is read,
/// and the password is written to the document with its id.
pub proof fn change_password_run<'a>(
    bmc: &RedfishStandard,
    user: &str,
    new_pass: &str,
    document: Object,
    ids: Seq<Seq<char>>,
    accounts: Seq<ManagerAccount>,
    id: String,
    root: ServiceRoot,
    later: Seq<Reply>,
    w: Written,
    io: &mut Exchange<'a>,
    r: Result<(), Stop>,
)
    requires
        call_ensures(RedfishStandard::change_password, (bmc, user, new_pass, io), r),
        lists(document, ids),
        0 < accounts.len() <= ids.len(),
        accounts.last().username@ == user@,
        accounts.last().id == Some(id),
        forall|i: int|
            0 <= i < accounts.len() - 1 ==> (#[trigger] accounts[i]).username@ != user@,
        root.vendor is Some,
        old(io)@ == after(
            seq![Ok(Response::Object(document))] + account_replies(accounts) + later,
        ),
    ensures
        later.len() == 0 ==> asks(r, reading(""@), Kind::ServiceRoot),
        later == seq![Reply::Ok(Response::ServiceRoot(root))] ==> asks(
            r,
            write_account_password(id@, new_pass@, of_ami(root)),
            Kind::Written,
        ),
        later == seq![
            Reply::Ok(Response::ServiceRoot(root)),
            Reply::Ok(Response::Written(w)),
        ] ==> r is Ok,
{
    account_is_found(*bmc, document, ids, accounts, user@, later);
    assert(later.len() > 0 ==> later[0] == old(io)@.replies[1 + accounts.len() + 0int]);
    assert(later.len() > 1 ==> later[1] == old(io)@.replies[1 + accounts.len() + 1int]);
}

/// The service root is what the BMC says. A power shelf does not name its vendor there: it
/// is the manufacturer of the chassis called powershelf.
pub proof fn service_root_run<'a>(
    bmc: &RedfishStandard,
    root: ServiceRoot,
    document: Object,
    ids: Seq<Seq<char>>,
    chassis: Chassis,
    io: &mut Exchange<'a>,
    r: Result<ServiceRoot, Stop>,
)
    requires
        call_ensures(RedfishStandard::get_service_root, (bmc, io), r),
        lists(document, ids),
    ensures
        old(io)@ == after(seq![]) ==> asks(r, reading(""@), Kind::ServiceRoot),
        old(io)@ == after(seq![Ok(Response::ServiceRoot(root))]) && root.vendor is Some ==> (
        r matches Ok(found) && found.deep_view() == root.deep_view()),
        old(io)@ == after(seq![Ok(Response::ServiceRoot(root))]) && root.vendor is None ==> asks(
            r,
            reading("Chassis/"@),
            Kind::Object,
        ),
        old(io)@ == after(
            seq![Ok(Response::ServiceRoot(root)), Ok(Response::Object(document))],
        ) && root.vendor is None && !ids.contains("powershelf"@) ==> (r matches Ok(found)
            && found.deep_view() == root.deep_view()),
        old(io)@ == after(
            seq![Ok(Response::ServiceRoot(root)), Ok(Response::Object(document))],
        ) && root.vendor is None && ids.contains("powershelf"@) ==> asks(
            r,
            reading("Chassis/powershelf"@),
            Kind::Chassis,
        ),
        old(io)@ == after(
            seq![
                Ok(Response::ServiceRoot(root)),
                Ok(Response::Object(document)),
                Ok(Response::Chassis(chassis)),
            ],
        ) && root.vendor is None && ids.contains("powershelf"@) ==> (r matches Ok(found)
            && found.deep_view() == (RootView {
            vendor: chassis.manufacturer.deep_view(),
            update_service: root.update_service.deep_view(),
            oem: root.oem.deep_view(),
        })),
{
    names_are_listed(document, ids, "Chassis/"@);
    reveal_strlit("Chassis/");
    reveal_strlit("powershelf");
    reveal_strlit("Chassis/powershelf");
    assert("Chassis/"@ + "powershelf"@ =~= "Chassis/powershelf"@);
}

/// The accounts are those that the BMC lists, each as often as it does, sorted by name.
/// Where they cannot be had, there are none.
pub proof fn accounts_run<'a>(
    bmc: &RedfishStandard,
    listed: Members<ManagerAccount>,
    e: RedfishError,
    io: &mut Exchange<'a>,
    r: Result<Vec<&'a ManagerAccount>, Stop>,
)
    requires
        call_ensures(RedfishStandard::get_accounts, (bmc, io), r),
    ensures
        old(io)@ == after(seq![]) ==> asks(
            r,
            reading("AccountService/Accounts?$expand=.($levels=1)"@),
            Kind::Accounts,
        ),
        old(io)@ == after(seq![Ok(Response::Accounts(listed))]) ==> (r matches Ok(found)
            && found.deep_view().to_multiset() == listed.members@.to_multiset() && forall|
            i: int,
            j: int,
        |
            0 <= i < j < found.deep_view().len() ==> !precedes(
                (#[trigger] found.deep_view()[j]).username@,
                (#[trigger] found.deep_view()[i]).username@,
            )),
        old(io)@ == after(seq![Err(e)]) ==> (r matches Ok(found) && found.deep_view().len() == 0),
{
    reveal_strlit("/redfish/v1/");
    reveal_strlit("/redfish/v1/AccountService/Accounts");
    reveal_strlit("AccountService/Accounts");
    reveal_strlit("?$expand=.($levels=1)");
    reveal_strlit("AccountService/Accounts?$expand=.($levels=1)");
    let p = "/redfish/v1/"@;
    let s = "AccountService/Accounts"@;
    assert(p.len() == 12 && s.len() == 23);
    assert("/redfish/v1/AccountService/Accounts"@ =~= p + s);
    assert(!(has(s, p))) by {
        if has(s, p) {
            let i = choose|i: int| has_at(s, p, i);
            assert(s.subrange(i, i + 12)[0] == s[i]);
            assert(s.subrange(i, i + 12)[11] == s[i + 11]);
        }
    }
    prefix_is_taken_away(p, s);
    assert(s + "?$expand=.($levels=1)"@ =~= "AccountService/Accounts?$expand=.($levels=1)"@);
    in_order_is_ordered(listed.members@);
}

/// The power state is that of the system.
pub proof fn power_state_run<'a>(
    bmc: &RedfishStandard,
    system: ComputerSystem,
    io: &mut Exchange<'a>,
    r: Result<PowerState, Stop>,
)
    requires
        call_ensures(RedfishStandard::get_power_state, (bmc, io), r),
    ensures
        old(io)@ == after(seq![]) ==> asks(
            r,
            reading("Systems/"@ + bmc.system() + "/"@),
            Kind::System,
        ),
        old(io)@ == after(seq![Ok(Response::System(system))]) ==> r == Ok::<PowerState, Stop>(
            system.power_state,
        ),
{
}

/// Whether `changed` holds the attributes of `pending` that the current ones do not have in
/// the same way, in their order.
pub open spec fn differ(changed: ObjectView, pending: ObjectView, current: ObjectView) -> bool {
    changed == pending.filter(
        |e: (Seq<char>, JsonView)|
            !(lookup(current, e.0) matches Some(value) && alike(value, e.1)),
    )
}

proof fn differing_is_what_differs(pending: ObjectView, current: ObjectView)
    ensures
        differ(differing(pending, JsonView::Object(current)), pending, current),
{
    let p = |e: (Seq<char>, JsonView)| !has_entry(JsonView::Object(current), e);
    let q = |e: (Seq<char>, JsonView)|
        !(lookup(current, e.0) matches Some(value) && alike(value, e.1));
    assert(p =~= q);
}

/// The pending changes are the pending attributes that differ from the current ones.
pub proof fn pending_run<'a>(
    bmc: &RedfishStandard,
    document: Object,
    pending: ObjectView,
    bios: Object,
    current: ObjectView,
    io: &mut Exchange<'a>,
    r: Result<Object, Stop>,
)
    requires
        call_ensures(RedfishStandard::pending, (bmc, io), r),
        lookup(document@, "Attributes"@) == Some(JsonView::Object(pending)),
        lookup(bios@, "Attributes"@) == Some(JsonView::Object(current)),
    ensures
        old(io)@ == after(seq![]) ==> asks(
            r,
            reading("Systems/"@ + bmc.system() + "/Bios/Settings"@),
            Kind::Object,
        ),
        old(io)@ == after(seq![Ok(Response::Object(document))]) ==> asks(
            r,
            reading("Systems/"@ + bmc.system() + "/Bios"@),
            Kind::Object,
        ),
        old(io)@ == after(seq![Ok(Response::Object(document)), Ok(Response::Object(bios))]) ==> (
        r matches Ok(changed) && differ(changed@, pending, current)),
{
    differing_is_what_differs(pending, current);
}

/// Whether `restored` holds the attributes of `changed` with their current values.
pub open spec fn restores(restored: ObjectView, changed: ObjectView, current: ObjectView) -> bool {
    restored.len() == changed.len() && forall|i: int|
        0 <= i < changed.len() ==> (#[trigger] restored[i]) == (
            changed[i].0,
            match lookup(current, changed[i].0) {
                Some(value) => value,
                None => JsonView::Null,
            },
        )
}

/// Clearing pending changes: those attributes are written with their current values.
pub proof fn clear_pending_run<'a>(
    bmc: &RedfishStandard,
    url: &str,
    document: Object,
    pending: ObjectView,
    bios: Object,
    current: ObjectView,
    w: Written,
    io: &mut Exchange<'a>,
    r: Result<(), Stop>,
)
    requires
        call_ensures(RedfishStandard::clear_pending_with_url, (bmc, url, io), r) || (call_ensures(
            RedfishStandard::clear_pending,
            (bmc, io),
            r,
        ) && url@ == "Systems/"@ + bmc.system() + "/Bios/Settings"@),
        lookup(document@, "Attributes"@) == Some(JsonView::Object(pending)),
        lookup(bios@, "Attributes"@) == Some(JsonView::Object(current)),
    ensures
        old(io)@ == after(seq![]) ==> asks(r, reading(url@), Kind::Object),
        old(io)@ == after(seq![Ok(Response::Object(document))]) ==> asks(
            r,
            reading("Systems/"@ + bmc.system() + "/Bios"@),
            Kind::Object,
        ),
        old(io)@ == after(seq![Ok(Response::Object(document)), Ok(Response::Object(bios))])
            ==> exists|changed: ObjectView, restored: ObjectView|
            {
                &&& #[trigger] differ(changed, pending, current)
                &&& asks(
                    r,
                    changing(url@, seq![("Attributes"@, JsonView::Object(restored))]),
                    Kind::Written,
                )
                &&& #[trigger] restores(restored, changed, current)
            },
        old(io)@ == after(
            seq![
                Ok(Response::Object(document)),
                Ok(Response::Object(bios)),
                Ok(Response::Written(w)),
            ],
        ) ==> r is Ok,
{
    differing_is_what_differs(pending, current);
    let changed = differing(pending, JsonView::Object(current));
    let restored = current_values(changed, JsonView::Object(current));
    assert forall|i: int| 0 <= i < changed.len() implies (#[trigger] restored[i]) == (
        changed[i].0,
        match lookup(current, changed[i].0) {
            Some(value) => value,
            None => JsonView::Null,
        },
    ) by {}
    if old(io)@ == after(seq![Ok(Response::Object(document)), Ok(Response::Object(bios))]) {
        assert(restores(restored, changed, current));
        assert(asks(
            r,
            changing(url@, seq![("Attributes"@, JsonView::Object(restored))]),
            Kind::Written,
        ));
    }
}

/// Whether `place` is a link to a document with the name `id`, with slashes behind it or
/// none.
pub open spec fn points_to(link: ODataId, id: Seq<char>) -> bool {
    free_of(id, '/') && id.len() > 0 && exists|head: Seq<char>|
        #![trigger head + seq!['/'] + id]
        (link.odata_id@ == head + seq!['/'] + id || link.odata_id@ == head + seq!['/'] + id + seq![
            '/',
        ]) && head.len() > 0 && head[0] == '/' && head.last() != '/'
}

/// The systems and managers of a BMC are those that it lists. One that lists none has one
/// that is called 1.
pub proof fn systems_and_managers_run<'a>(
    bmc: &RedfishStandard,
    links: References,
    io: &mut Exchange<'a>,
    r: Result<Vec<String>, Stop>,
)
    ensures
        call_ensures(RedfishStandard::get_systems, (bmc, io), r) ==> {
            &&& old(io)@ == after(seq![]) ==> asks(r, reading("Systems/"@), Kind::References)
            &&& old(io)@ == after(seq![Ok(Response::References(links))]) && links.members@.len()
                == 0 ==> (r matches Ok(names) && names.deep_view() == seq!["1"@])
            &&& old(io)@ == after(seq![Ok(Response::References(links))]) && links.members@.len() > 0
                ==> (r matches Ok(names) && names.deep_view().len() == links.members@.len())
        },
        call_ensures(RedfishStandard::get_managers, (bmc, io), r) ==> {
            &&& old(io)@ == after(seq![]) ==> asks(r, reading("Managers/"@), Kind::References)
            &&& old(io)@ == after(seq![Ok(Response::References(links))]) && links.members@.len()
                == 0 ==> (r matches Ok(names) && names.deep_view() == seq!["1"@])
            &&& old(io)@ == after(seq![Ok(Response::References(links))]) && links.members@.len() > 0
                ==> (r matches Ok(names) && names.deep_view().len() == links.members@.len())
        },
{
}

/// A list of systems or managers has the names that its links point to, in their order.
pub proof fn systems_and_managers_are_named<'a>(
    bmc: &RedfishStandard,
    links: References,
    i: int,
    id: Seq<char>,
    io: &mut Exchange<'a>,
    r: Result<Vec<String>, Stop>,
)
    requires
        call_ensures(RedfishStandard::get_systems, (bmc, io), r) || call_ensures(
            RedfishStandard::get_managers,
            (bmc, io),
            r,
        ),
        old(io)@ == after(seq![Ok(Response::References(links))]),
        0 <= i < links.members@.len(),
        points_to(links.members@[i], id),
    ensures
        r matches Ok(names) && names.deep_view()[i] == id,
{
    name_is_pointed_to(links.members@[i], id);
}

pub(crate) proof fn name_is_pointed_to(link: ODataId, id: Seq<char>)
    requires
        points_to(link, id),
    ensures
        linked_name(link) == id,
{
    let s = link.odata_id@;
    let head = choose|head: Seq<char>|
        #![trigger head + seq!['/'] + id]
        (s == head + seq!['/'] + id || s == head + seq!['/'] + id + seq!['/']) && head.len() > 0
            && head[0] == '/' && head.last() != '/';
    let first = without_leading(s, '/');
    ends_are_taken_off(s, '/');
    let cut = s.len() - first.len();
    assert(cut < head.len()) by {
        if cut >= head.len() {
            assert(s[head.len() - 1] == head.last());
        }
    }
    let start = head.skip(cut);
    assert(id.last() != '/') by {
        assert(id[id.len() - 1] != '/');
    }
    let whole = start + seq!['/'] + id;
    assert(whole.last() == id.last());
    if s == head + seq!['/'] + id {
        assert(first =~= whole);
    } else {
        assert(first =~= whole + seq!['/']);
        assert(first.drop_last() =~= whole);
    }
    assert(without_trailing(first, '/') == whole) by {
        reveal_with_fuel(without_trailing, 2);
    }
    after_last_is_the_last_part(start, '/', id);
}

/// A task is followed until it becomes a job: the first message that says so names the job.
pub proof fn task_run<'a>(
    bmc: &RedfishStandard,
    id: &str,
    task: Task,
    i: int,
    place: Seq<char>,
    job: Job,
    io: &mut Exchange<'a>,
    r: Result<Progress<'a>, Stop>,
)
    requires
        call_ensures(RedfishStandard::get_task, (bmc, id, io), r),
    ensures
        old(io)@ == after(seq![]) ==> asks(r, reading("TaskService/Tasks/"@ + id@), Kind::Task),
        old(io)@ == after(seq![Ok(Response::Task(task))]) && !moved_on(task) ==> (r matches Ok(
            Progress::Task(found),
        ) && *found == task),
        old(io)@ == after(seq![Ok(Response::Task(task))]) && became_job_at(task, i)
            && task.messages@[i].message_args@.len() > 0 && task.messages@[i].message_args@[0]@
            == "/redfish/v1/"@ + place ==> asks(r, reading(place), Kind::Job),
        old(io)@ == after(seq![Ok(Response::Task(task))]) && became_job_at(task, i)
            && task.messages@[i].message_args@.len() == 0 ==> (r matches Ok(Progress::Task(found))
            && *found == task),
        old(io)@ == after(seq![Ok(Response::Task(task)), Ok(Response::Job(job))])
            && became_job_at(task, i) && task.messages@[i].message_args@.len() > 0 ==> (r matches Ok(
            Progress::Job(found),
        ) && *found == job),
{
    let p = |m: TaskMessage| became_job(m);
    if became_job_at(task, i) {
        assert forall|k: int| 0 <= k < i implies !p(#[trigger] task.messages@[k]) by {}
        first_where_found(task.messages@, p, i);
        let link = "/redfish/v1/"@ + place;
        text_begins_with_its_head(link, "/redfish/v1/"@);
        assert(link.skip("/redfish/v1/"@.len() as int) =~= place);
    }
    if !moved_on(task) {
        assert forall|k: int| 0 <= k < task.messages@.len() implies !p(
            #[trigger] task.messages@[k],
        ) by {}
        first_where_absent(task.messages@, p);
    }
}

/// Whether the message at `i` is the first that says that a task has become a job.
pub open spec fn became_job_at(task: Task, i: int) -> bool {
    0 <= i < task.messages@.len() && task.messages@[i].message_id@
        == "Update.1.0.OperationTransitionedToJob"@ && forall|k: int|
        0 <= k < i ==> (#[trigger] task.messages@[k]).message_id@
            != "Update.1.0.OperationTransitionedToJob"@
}

/// Whether a message says that a task has become a job.
pub open spec fn moved_on(task: Task) -> bool {
    exists|k: int|
        0 <= k < task.messages@.len() && (#[trigger] task.messages@[k]).message_id@
            == "Update.1.0.OperationTransitionedToJob"@
}

/// Whether `r` is what comes of starting a task by `request`: the task in the answer, or a
/// failure where it holds none.
pub open spec fn starts_task(r: Result<&Task, Stop>, t: Tape, request: RequestView) -> bool {
    &&& t == after(seq![]) ==> asks(r, request, Kind::TaskReply)
    &&& forall|reply: TaskReply|
        t == #[trigger] after(seq![Ok(Response::TaskReply(reply))]) ==> match reply.task {
            Some(task) => r matches Ok(found) && *found == task,
            None => fails(r, Fault::NoContent),
        }
}

/// The requests that start tasks: adding a certificate to a secure boot database, having
/// the BMC fetch firmware, and having a component collect evidence.
pub proof fn tasks_are_started<'a>(
    bmc: &RedfishStandard,
    text: &str,
    place: &str,
    targets: &Vec<String>,
    protocol: TransferProtocolType,
    name: &'static str,
    rest: Seq<char>,
    io: &mut Exchange<'a>,
    r: Result<&'a Task, Stop>,
)
    requires
        call_ensures(TransferProtocolType::name, (&protocol,), name),
        !(has(rest, "/redfish/v1/"@)),
        place@ == "/redfish/v1/"@ + rest,
    ensures
        call_ensures(RedfishStandard::add_secure_boot_certificate, (bmc, text, place, io), r)
            ==> starts_task(
            r,
            old(io)@,
            posting(
                "Systems/"@ + bmc.system() + "/SecureBoot/SecureBootDatabases/"@ + place@
                    + "/Certificates"@,
                seq![("CertificateString"@, word(text@)), ("CertificateType"@, word("PEM"@))],
            ),
        ),
        call_ensures(
            RedfishStandard::update_firmware_simple_update,
            (bmc, text, targets, protocol, io),
            r,
        ) ==> starts_task(
            r,
            old(io)@,
            posting(
                "UpdateService/Actions/UpdateService.SimpleUpdate"@,
                seq![
                    ("ImageURI"@, word(text@)),
                    ("TransferProtocol"@, word(name@)),
                    ("Targets"@, words(targets.deep_view())),
                ],
            ),
        ),
        call_ensures(RedfishStandard::trigger_evidence_collection, (bmc, place, text, io), r)
            ==> starts_task(
            r,
            old(io)@,
            posting(rest, seq![("Nonce"@, word(text@))]),
        ),
{
    words_are_texts(targets.deep_view());
    reveal_strlit("/redfish/v1/");
    prefix_is_taken_away("/redfish/v1/"@, rest);
}

/// The first boot option is what the first link of the boot options leads to.
pub proof fn first_boot_option_run<'a>(
    bmc: &RedfishStandard,
    links: References,
    place: Seq<char>,
    option: BootOption,
    io: &mut Exchange<'a>,
    r: Result<&'a BootOption, Stop>,
)
    requires
        call_ensures(RedfishStandard::get_first_boot_option, (bmc, io), r),
        !(has(place, "/redfish/v1/"@)),
    ensures
        old(io)@ == after(seq![]) ==> asks(
            r,
            reading("Systems/"@ + bmc.system() + "/BootOptions"@),
            Kind::References,
        ),
        old(io)@ == after(seq![Ok(Response::References(links))]) && links.members@.len() == 0
            ==> fails(r, Fault::NoContent),
        old(io)@ == after(seq![Ok(Response::References(links))]) && links.members@.len() > 0
            && links.members@[0].odata_id@ == "/redfish/v1/"@ + place ==> asks(
            r,
            reading(place),
            Kind::BootOption,
        ),
        old(io)@ == after(
            seq![Ok(Response::References(links)), Ok(Response::BootOption(option))],
        ) && links.members@.len() > 0 ==> (r matches Ok(found) && *found == option),
{
    reveal_strlit("/redfish/v1/");
    prefix_is_taken_away("/redfish/v1/"@, place);
}

/// IPMI over LAN is on if and only if the network services say so. Where they do not speak
/// of it, that is a failure.
pub proof fn ipmi_over_lan_run<'a>(
    bmc: &RedfishStandard,
    p: ManagerNetworkProtocol,
    io: &mut Exchange<'a>,
    r: Result<bool, Stop>,
)
    requires
        call_ensures(RedfishStandard::is_ipmi_over_lan_enabled, (bmc, io), r),
    ensures
        old(io)@ == after(seq![]) ==> asks(
            r,
            reading("Managers/"@ + bmc.manager() + "/NetworkProtocol"@),
            Kind::NetworkProtocol,
        ),
        old(io)@ == after(seq![Ok(Response::NetworkProtocol(p))]) ==> match p.ipmi {
            Some(status) => match status.protocol_enabled {
                Some(enabled) => r == Ok::<bool, Stop>(enabled),
                None => fails(
                    r,
                    Fault::GenericError {
                        error: "protocol_enabled is None in the server's ipmi status: "@
                            + status.debug@,
                    },
                ),
            },
            None => fails(
                r,
                Fault::GenericError {
                    error: "ipmi is None in the server's network service settings: "@ + p.debug@,
                },
            ),
        },
{
}

/// The serial interface is the first one of the BMC.
pub proof fn serial_interface_run<'a>(
    bmc: &RedfishStandard,
    document: Object,
    ids: Seq<Seq<char>>,
    port: SerialInterface,
    io: &mut Exchange<'a>,
    r: Result<&'a SerialInterface, Stop>,
)
    requires
        call_ensures(RedfishStandard::get_serial_interface, (bmc, io), r),
        lists(document, ids),
    ensures
        old(io)@ == after(seq![]) ==> asks(
            r,
            reading("Managers/"@ + bmc.manager() + "/SerialInterfaces"@),
            Kind::Object,
        ),
        old(io)@ == after(seq![Ok(Response::Object(document))]) && ids.len() == 0 ==> fails(
            r,
            Fault::InvalidValue {
                url: "Managers/"@ + bmc.manager() + "/SerialInterfaces"@,
                field: "0"@,
                err: "Members array is empty, no SerialInterfaces"@,
            },
        ),
        old(io)@ == after(seq![Ok(Response::Object(document))]) && ids.len() > 0 ==> asks(
            r,
            reading("Managers/"@ + bmc.manager() + "/SerialInterfaces/"@ + ids[0]),
            Kind::SerialInterface,
        ),
        old(io)@ == after(
            seq![Ok(Response::Object(document)), Ok(Response::SerialInterface(port))],
        ) && ids.len() > 0 ==> (r matches Ok(found) && *found == port),
{
    names_are_listed(document, ids, "Managers/"@ + bmc.manager() + "/SerialInterfaces"@);
}

/// The MAC address of a boot interface is the one that is given, or the one that the
/// interface of that name has.
pub proof fn boot_interface_run<'a>(
    bmc: &RedfishStandard,
    interface: BootInterfaceRef,
    found: EthernetInterface,
    io: &mut Exchange<'a>,
    r: Result<String, Stop>,
)
    requires
        call_ensures(RedfishStandard::resolve_boot_interface_mac, (bmc, interface, io), r),
    ensures
        interface matches BootInterfaceRef::Mac(mac) ==> (r matches Ok(m) && m@ == mac@),
        interface matches BootInterfaceRef::InterfaceId(id) ==> {
            &&& old(io)@ == after(seq![]) ==> asks(
                r,
                reading("Systems/"@ + bmc.system() + "/EthernetInterfaces/"@ + id@),
                Kind::EthernetInterface,
            )
            &&& old(io)@ == after(seq![Ok(Response::EthernetInterface(found))])
                ==> match found.mac_address {
                Some(mac) => r matches Ok(m) && m@ == mac@,
                None => fails(
                    r,
                    Fault::MissingKey {
                        key: "MACAddress"@,
                        url: "Systems/"@ + bmc.system() + "/EthernetInterfaces/"@ + id@,
                    },
                ),
            }
        },
{
}

/// The log of a BMC is read whole, or from a moment on, in which case the condition stands
/// percent-encoded behind the URL.
pub proof fn event_log_requests(
    bmc: &RedfishStandard,
    url: String,
    from: Option<Timestamp>,
    q: Option<Request>,
)
    requires
        call_ensures(RedfishStandard::fetch_bmc_event_log, (bmc, url, from), q),
    ensures
        from is None ==> (q matches Some(q) && q@ == reading(url@)),
        from matches Some(moment) ==> match rfc3339(moment.secs, moment.nanos) {
            Some(stamp) => q matches Some(q) && q@ == reading(
                url@ + "?$filter="@ + percent_encoded("Created ge '"@ + stamp + "'"@),
            ),
            None => q is None,
        },
{
}

/// The vendor decides which calls a machine takes. The AMI firmware of a DGX is that of a
/// Viking, and Lenovo machines with AMI firmware take the calls of AMI.
pub proof fn vendor_decides_the_calls(
    bmc: &mut RedfishStandard,
    vendor: RedfishVendor,
    r: Result<Backend, RedfishError>,
)
    requires
        call_ensures(RedfishStandard::set_vendor, (bmc, vendor), r),
    ensures
        r is Ok,
        vendor == RedfishVendor::AMI ==> (r->Ok_0 is NvidiaViking <==> old(bmc).system() == "DGX"@
            && old(bmc).manager() == "BMC"@),
        vendor == RedfishVendor::AMI ==> r->Ok_0 is NvidiaViking || r->Ok_0 is Ami,
        vendor == RedfishVendor::Dell ==> r->Ok_0 is Dell,
        vendor == RedfishVendor::Hpe ==> r->Ok_0 is Hpe,
        vendor == RedfishVendor::Lenovo ==> (r->Ok_0 is Ami <==> (old(bmc).root().oem matches Some(
            oem,
        ) && lookup(oem, "Ami"@) is Some)),
        vendor == RedfishVendor::Lenovo ==> r->Ok_0 is Ami || r->Ok_0 is Lenovo,
        vendor == RedfishVendor::NvidiaDpu ==> r->Ok_0 is NvidiaDpu,
        vendor == RedfishVendor::NvidiaGBx00 ==> r->Ok_0 is NvidiaGbx00,
        vendor == RedfishVendor::NvidiaGBSwitch ==> r->Ok_0 is NvidiaGbSwitch,
        vendor == RedfishVendor::NvidiaGH200 ==> r->Ok_0 is NvidiaGh200,
        vendor == RedfishVendor::Supermicro ==> r->Ok_0 is Supermicro,
        vendor == RedfishVendor::LiteOnPowerShelf ==> r->Ok_0 is LiteonPowershelf,
        r->Ok_0.standard().known_vendor() == Some(vendor),
        r->Ok_0.standard().system() == old(bmc).system(),
        r->Ok_0.standard().manager() == old(bmc).manager(),
        r->Ok_0.standard().root() == old(bmc).root(),
{
}

/// The replies that hold `options`.
pub open spec fn option_replies(options: Seq<BootOption>) -> Seq<Reply> {
    Seq::new(options.len(), |i: int| Ok(Response::BootOption(options[i])))
}

/// Whether the links of a collection lead to documents with the names `ids`.
pub open spec fn lead_to(links: Seq<ODataId>, ids: Seq<Seq<char>>) -> bool {
    links.len() == ids.len() && forall|i: int|
        0 <= i < ids.len() ==> free_of(ids[i], '/') && leads_to(
            (#[trigger] links[i]).odata_id@,
            ids[i],
        )
}

pub(crate) proof fn all_options_are_read(
    s: RedfishStandard,
    links: Seq<ODataId>,
    ids: Seq<Seq<char>>,
    options: Seq<BootOption>,
    found: Seq<BootOption>,
    t: Tape,
)
    requires
        lead_to(links, ids),
        options.len() <= links.len(),
        t.replies.len() >= t.pos + options.len(),
        forall|i: int|
            0 <= i < options.len() ==> t.replies[t.pos + i] == Reply::Ok(
                Response::BootOption(#[trigger] options[i]),
            ),
    ensures
        options.len() < links.len() && t.replies.len() == t.pos + options.len()
            ==> s.boot_options_at(links, found, t) == Flow::<
            Seq<BootOption>,
        >::Wait(
            reading("Systems/"@ + s.system() + "/BootOptions/"@ + ids[options.len() as int]),
            Kind::BootOption,
        ),
        options.len() == links.len() ==> s.boot_options_at(links, found, t) == Flow::Ready(
            found + options,
            Tape { replies: t.replies, pos: t.pos + options.len() },
        ),
    decreases options.len(),
{
    if links.len() > 0 {
        let place = links[0].odata_id@;
        let head = choose|head: Seq<char>|
            #![trigger head + seq!['/'] + ids[0]]
            place == head + seq!['/'] + ids[0];
        after_last_is_the_last_part(head, '/', ids[0]);
    }
    if options.len() > 0 {
        let rest = options.drop_first();
        let more = links.drop_first();
        let names = ids.drop_first();
        assert(t.replies[t.pos + 0int] == Reply::Ok(Response::BootOption(options[0])));
        assert forall|i: int| 0 <= i < rest.len() implies t.next().replies[t.next().pos + i]
            == Reply::Ok(Response::BootOption(#[trigger] rest[i])) by {
            assert(rest[i] == options[i + 1]);
        }
        assert forall|i: int| 0 <= i < names.len() implies free_of(#[trigger] names[i], '/') by {
            assert(leads_to(links[i + 1].odata_id@, ids[i + 1]));
        }
        assert forall|i: int| 0 <= i < names.len() implies leads_to(
            (#[trigger] more[i]).odata_id@,
            names[i],
        ) by {
            assert(more[i] == links[i + 1]);
        }
        assert(lead_to(more, names));
        all_options_are_read(s, more, names, rest, found.push(options[0]), t.next());
        assert(found.push(options[0]) + rest =~= found + options);
    } else {
        assert(found + options =~= found);
    }
}

/// What is read from a document is the value under the key, where it is of the type that is
/// wanted. A key that is missing is a failure that names it, and so is one of another type.
pub proof fn keys_are_read(
    map: &Object,
    key: &str,
    url: &str,
    value: Result<&Json, RedfishError>,
    text: Result<&str, RedfishError>,
    truth: Result<bool, RedfishError>,
    object: Result<&Object, RedfishError>,
)
    requires
        call_ensures(get_value, (map, key, url), value),
        call_ensures(get_str, (map, key, url), text),
        call_ensures(get_bool, (map, key, url), truth),
        call_ensures(get_object, (map, key, url), object),
    ensures
        match lookup(map@, key@) {
            Some(found) => {
                &&& value matches Ok(v) && v@ == found
                &&& match found {
                    JsonView::Text(s) => text matches Ok(v) && v@ == s,
                    _ => text matches Err(e) && e@ == not_of_type(key@, "&str"@, url@),
                }
                &&& match found {
                    JsonView::Bool(b) => truth == Ok::<bool, RedfishError>(b),
                    _ => truth matches Err(e) && e@ == not_of_type(key@, "bool"@, url@),
                }
                &&& match found {
                    JsonView::Object(o) => object matches Ok(v) && v@ == o,
                    _ => object matches Err(e) && e@ == not_of_type(key@, "Object"@, url@),
                }
            },
            None => {
                &&& value matches Err(e) && e@ == (ErrorView::MissingKey { key: key@, url: url@ })
                &&& text matches Err(e) && e@ == (ErrorView::MissingKey { key: key@, url: url@ })
                &&& truth matches Err(e) && e@ == (ErrorView::MissingKey { key: key@, url: url@ })
                &&& object matches Err(e) && e@ == (ErrorView::MissingKey { key: key@, url: url@ })
            },
        },
{
}

/// That the value under `key` is not of the type `expected_type`.
pub open spec fn not_of_type(
    key: Seq<char>,
    expected_type: Seq<char>,
    url: Seq<char>,
) -> ErrorView {
    ErrorView::InvalidKeyType { key, expected_type, url }
}

/// A new client speaks of no system and no manager. Each setting changes what it is about
/// and nothing else, and is read back.
pub proof fn settings_are_read_back(
    client: RedfishHttpClient,
    new: RedfishStandard,
    bmc: &mut RedfishStandard,
    id: &str,
    root: ServiceRoot,
    r: Result<(), RedfishError>,
)
    ensures
        call_ensures(RedfishStandard::new, (client,), new) ==> {
            &&& new.system() == ""@
            &&& new.manager() == ""@
            &&& new.known_vendor() is None
            &&& new.http_client() == client
        },
        call_ensures(RedfishStandard::set_system_id, (bmc, id), r) ==> {
            &&& final(bmc).system() == id@
            &&& final(bmc).manager() == old(bmc).manager()
            &&& final(bmc).root() == old(bmc).root()
            &&& final(bmc).known_vendor() == old(bmc).known_vendor()
        },
        call_ensures(RedfishStandard::set_manager_id, (bmc, id), r) ==> {
            &&& final(bmc).manager() == id@
            &&& final(bmc).system() == old(bmc).system()
            &&& final(bmc).root() == old(bmc).root()
            &&& final(bmc).known_vendor() == old(bmc).known_vendor()
        },
        call_ensures(RedfishStandard::set_service_root, (bmc, root), r) ==> {
            &&& final(bmc).root() == root.deep_view()
            &&& final(bmc).system() == old(bmc).system()
            &&& final(bmc).manager() == old(bmc).manager()
            &&& final(bmc).known_vendor() == old(bmc).known_vendor()
        },
{
}

/// A collection that may be slow is asked for with the time limit that is given.
pub proof fn time_limit_is_passed_on<'a>(
    bmc: &RedfishStandard,
    url: &str,
    timeout: Option<Timeout>,
    document: Object,
    ids: Seq<Seq<char>>,
    io: &mut Exchange<'a>,
    r: Result<Vec<String>, Stop>,
)
    requires
        call_ensures(RedfishStandard::get_members_with_timout, (bmc, url, timeout, io), r),
        lists(document, ids),
    ensures
        old(io)@ == after(seq![]) ==> asks(
            r,
            (RequestView { timeout, ..reading(url@) }),
            Kind::Object,
        ),
        old(io)@ == after(seq![Ok(Response::Object(document))]) ==> (r matches Ok(names)
            && names.deep_view() == ids),
{
    names_are_listed(document, ids, url@);
}

} // verus!
