use libredfish::boot::{promote_boot_order_entry_first, promote_or_insert};
use libredfish::error::{Fault, RedfishError};
use libredfish::exchange::{
    Exchange, Kind, Method, Payload, Reply, Request, Response, Stop, Timeout,
};
use libredfish::json::{Entry, Json, Object};
use libredfish::model::{
    Boot, BootInterfaceRef, BootOption, BootOverride, BootSourceOverrideEnabled,
    BootSourceOverrideMode, BootSourceOverrideTarget, Chassis, ComponentType, ComputerSystem,
    EnabledDisabled, FixedBootOrder, IpmiHostInterface, Manager, Members, ODataId, PCIeDevice,
    PowerState, Privilege, References, SerialConsole, SerialInterface, SshConsole, StatusInternal,
    SystemBoot, SystemPowerControl, UpdateService, Upload, Written,
};
use libredfish::outside::VersionOrder;
use libredfish::standard::{RedfishHttpClient, RedfishStandard};
use libredfish::supermicro::{
    fixed_boot_order_diff, http_boot_option_matches_mac, standard_boot_order_diff, Bmc,
};
use libredfish::supermicro_setup::{
    canonical_name, group_names, is_not_older, lockdown_status_of, tpm_on, UpdateParameters,
};

const DPU: &str = "UEFI HTTP IPv4 Mellanox Network Adapter - A0:88:C2:EA:84:D0(MAC:A088C2EA84D0)";
const MAC: &str = "a0:88:c2:ea:84:d0";

fn bmc() -> Bmc {
    let mut s = RedfishStandard::new(RedfishHttpClient {
        host: "smc.example".to_string(),
    });
    s.set_system_id("1").unwrap();
    s.set_manager_id("1").unwrap();
    Bmc::new(s).unwrap()
}

fn drive<T>(
    answers: Vec<Reply>,
    op: impl for<'a> Fn(&mut Exchange<'a>) -> Result<T, Stop>,
) -> (Vec<(Request, Kind)>, Result<T, RedfishError>) {
    let mut waiting = answers.into_iter();
    let mut replies: Vec<Reply> = Vec::new();
    let mut asked = Vec::new();
    loop {
        let mut io = Exchange::new(&replies);
        match op(&mut io) {
            Ok(v) => return (asked, Ok(v)),
            Err(Stop::Fail(e)) => return (asked, Err(e)),
            Err(Stop::Wait(request, kind)) => {
                asked.push((request, kind));
                replies.push(waiting.next().expect("an answer for every request"));
            }
        }
    }
}

fn urls(asked: &[(Request, Kind)]) -> Vec<&str> {
    asked.iter().map(|(q, _)| q.url.as_str()).collect()
}

fn body_of(request: &Request) -> String {
    match &request.payload {
        Payload::Json(j) => j.render(),
        other => panic!("no JSON body: {other:?}"),
    }
}

fn text(s: &str) -> Json {
    Json::Text(s.to_string())
}

fn object(entries: &[(&str, Json)]) -> Object {
    Object {
        entries: entries
            .iter()
            .map(|(k, v)| Entry {
                key: k.to_string(),
                value: v.copy(),
            })
            .collect(),
    }
}

fn document(entries: &[(&str, Json)]) -> Reply {
    Ok(Response::Object(object(entries)))
}

fn attributes(o: Object) -> Reply {
    document(&[("Attributes", Json::Object(o))])
}

fn collection(ids: &[&str]) -> Reply {
    let members = ids
        .iter()
        .map(|id| Json::Object(object(&[("@odata.id", text(id))])))
        .collect();
    document(&[("Members", Json::Array(members))])
}

fn done() -> Reply {
    Ok(Response::Written(Written { headers: None }))
}

fn http_error(status_code: u16, body: &str) -> Reply {
    Err(Fault::HTTPErrorCode {
        url: "u".to_string(),
        status_code,
        response_body: body.to_string(),
    })
}

fn generic(error: &str) -> RedfishError {
    Fault::GenericError {
        error: error.to_string(),
    }
}

fn strings(list: &[&str]) -> Vec<String> {
    list.iter().map(|s| s.to_string()).collect()
}

fn plain_system() -> ComputerSystem {
    ComputerSystem {
        model: None,
        power_state: PowerState::On,
        boot: SystemBoot { boot_order: vec![] },
        serial_console: Some(SerialConsole {
            ssh: SshConsole {
                service_enabled: true,
            },
            max_concurrent_sessions: Some(1),
        }),
        ipmi_host_interface: None,
        links: None,
    }
}

fn model(name: &str) -> Reply {
    Ok(Response::System(ComputerSystem {
        model: Some(name.to_string()),
        ..plain_system()
    }))
}

fn boot_order(order: &[&str]) -> Reply {
    Ok(Response::System(ComputerSystem {
        boot: SystemBoot {
            boot_order: strings(order),
        },
        ..plain_system()
    }))
}

fn host_interface(enabled: bool) -> Reply {
    Ok(Response::System(ComputerSystem {
        ipmi_host_interface: Some(IpmiHostInterface {
            service_enabled: enabled,
        }),
        ..plain_system()
    }))
}

fn firmware(version: Option<&str>) -> Reply {
    Ok(Response::Manager(Manager {
        firmware_version: version.map(str::to_string),
    }))
}

fn chassis(mgx: bool) -> Reply {
    Ok(Response::ChassisList(Members {
        members: vec![
            Chassis::default(),
            Chassis {
                manufacturer: Some("Nvidia".to_string()),
                model: Some(if mgx { "PG535-2" } else { "PG500" }.to_string()),
                ..Default::default()
            },
        ],
    }))
}

fn fixed(order: &[&str], network: &[&str]) -> Reply {
    Ok(Response::FixedBootOrder(FixedBootOrder {
        fixed_boot_order: strings(order),
        uefi_network: strings(network),
    }))
}

fn option(reference: &str, display_name: &str) -> BootOption {
    BootOption {
        odata: Default::default(),
        alias: None,
        description: None,
        boot_option_enabled: None,
        boot_option_reference: reference.to_string(),
        display_name: display_name.to_string(),
        id: reference.to_string(),
        name: display_name.to_string(),
        uefi_device_path: None,
    }
}

fn boot_option(reference: &str, display_name: &str) -> Reply {
    Ok(Response::BootOption(option(reference, display_name)))
}

fn options(ids: &[&str]) -> Reply {
    Ok(Response::References(References {
        members: ids
            .iter()
            .map(|id| ODataId {
                odata_id: format!("/redfish/v1/Systems/1/BootOptions/{id}"),
            })
            .collect(),
    }))
}

fn serial(parity: &str) -> SerialInterface {
    SerialInterface {
        bit_rate: "115200".to_string(),
        data_bits: "8".to_string(),
        flow_control: "None".to_string(),
        interface_enabled: true,
        parity: parity.to_string(),
        signal_type: Some("Rs232".to_string()),
        stop_bits: "1".to_string(),
    }
}

fn good_bios() -> Object {
    object(&[
        ("QuietBoot_002E", Json::Bool(false)),
        ("TXTSupport_0062", text("Enabled")),
        ("TXTSupport_0072", text("Enabled")),
        ("SecurityDeviceSupport_006C", text("Enable")),
        ("IPv6PXESupport__00F9", text("Disabled")),
        ("Other_0001", text("x")),
    ])
}

#[test]
fn attribute_names_have_a_canonical_form() {
    assert_eq!(canonical_name("QuietBoot_002E"), "QuietBoot");
    assert_eq!(canonical_name("SR_IOVSupport_00B2"), "SR_IOVSupport");
    assert_eq!(canonical_name("Odd___1"), "Odd");
    assert_eq!(canonical_name("Plain"), "Plain");
    assert_eq!(canonical_name("_"), "");
    let groups = group_names(&good_bios());
    let list: Vec<(&str, Vec<&str>)> = groups
        .iter()
        .map(|g| (g.name.as_str(), g.keys.iter().map(String::as_str).collect()))
        .collect();
    assert_eq!(
        list,
        vec![
            ("QuietBoot", vec!["QuietBoot_002E"]),
            ("TXTSupport", vec!["TXTSupport_0062", "TXTSupport_0072"]),
            ("SecurityDeviceSupport", vec!["SecurityDeviceSupport_006C"]),
            ("IPv6PXESupport", vec!["IPv6PXESupport__00F9"]),
            ("Other", vec!["Other_0001"]),
        ]
    );
    let bmc = bmc();
    let (_, r) = drive(vec![attributes(good_bios())], |io| bmc.bios_attributes_name_map(io));
    assert_eq!(r, Ok(groups));
}

#[test]
fn the_tpm_is_turned_on_in_the_words_of_the_machine() {
    let on = |value: Json| {
        tpm_on(&Json::Object(object(&[("SecurityDeviceSupport_006C", value)])))
    };
    assert_eq!(on(text("Disabled")), Ok("Enabled"));
    assert_eq!(on(text("Enabled")), Ok("Enabled"));
    assert_eq!(on(text("Disable")), Ok("Enable"));
    assert_eq!(on(text("Enable")), Ok("Enable"));
    assert_eq!(on(text("On")), Err(generic("Unexpected SecurityDeviceSupport value")));
    assert_eq!(on(Json::Bool(true)), Err(generic("Missing SecurityDeviceSupport value")));
    assert_eq!(tpm_on(&Json::Null), Err(generic("Missing SecurityDeviceSupport value")));
    assert_eq!(
        tpm_on(&Json::Object(object(&[("SecurityDeviceSupport2_0", text("Enable"))]))),
        Ok("Enable")
    );
}

#[test]
fn machine_setup_sets_what_the_machine_has() {
    let bmc = bmc();
    let bios = object(&[
        ("QuietBoot_002E", Json::Bool(true)),
        ("TXTSupport_0062", text("Disabled")),
        ("TXTSupport_0072", text("Disabled")),
        ("SecurityDeviceSupport_006C", text("Disable")),
        ("Other_0001", text("x")),
    ]);
    let (asked, r) = drive(
        vec![attributes(bios.copy()), attributes(bios.copy()), done()],
        |io| bmc.machine_setup(io),
    );
    assert_eq!(r, Ok(None));
    assert_eq!(asked[2].0.url, "Systems/1/Bios");
    assert_eq!(asked[2].0.method, Method::Patch);
    assert_eq!(
        body_of(&asked[2].0),
        r#"{"Attributes":{"QuietBoot_002E":false,"TXTSupport_0062":"Enabled","TXTSupport_0072":"Enabled","SecurityDeviceSupport_006C":"Enable"}}"#
    );
    let (_, r) = drive(
        vec![document(&[("Attributes", text("no map"))])],
        |io| bmc.machine_setup(io),
    );
    assert_eq!(
        r,
        Err(Fault::InvalidKeyType {
            key: "Attributes".to_string(),
            expected_type: "Map".to_string(),
            url: String::new()
        })
    );
}

#[test]
fn a_machine_that_is_set_up_deviates_in_nothing() {
    let bmc = bmc();
    let ask = |bios: Object, default: bool| {
        drive(
            vec![
                collection(&["/s/1"]),
                Ok(Response::SerialInterface(serial(if default { "None" } else { "Even" }))),
                Ok(Response::System(plain_system())),
                attributes(bios.copy()),
                attributes(bios.copy()),
                attributes(bios),
            ],
            |io| bmc.diff_bios_bmc_attr(io),
        )
        .1
        .unwrap()
        .iter()
        .map(|d| (d.key.clone(), d.expected.clone(), d.actual.clone()))
        .collect::<Vec<_>>()
    };
    assert_eq!(ask(good_bios(), true), vec![]);
    let bad = good_bios()
        .put("QuietBoot_002E", text("false"))
        .put("TXTSupport_0072", text("Disabled"));
    assert_eq!(
        ask(bad, false),
        vec![
            ("serial_console".to_string(), "Enabled".to_string(), "Disabled".to_string()),
            ("QuietBoot_002E".to_string(), "false".to_string(), "\"false\"".to_string()),
            (
                "TXTSupport_0072".to_string(),
                "\"Enabled\"".to_string(),
                "\"Disabled\"".to_string()
            ),
        ]
    );
}

#[test]
fn what_was_set_up_is_read_back() {
    let bmc = bmc();
    let before = object(&[
        ("QuietBoot_002E", Json::Bool(true)),
        ("TXTSupport_0062", text("Disabled")),
        ("SecurityDeviceSupport_006C", text("Disabled")),
        ("Other_0001", text("x")),
    ]);
    let ask = |bios: &Object| {
        drive(
            vec![
                collection(&["/s/1"]),
                Ok(Response::SerialInterface(serial("None"))),
                Ok(Response::System(plain_system())),
                attributes(bios.copy()),
                attributes(bios.copy()),
                attributes(bios.copy()),
            ],
            |io| bmc.is_bios_setup(io),
        )
        .1
    };
    assert_eq!(ask(&before), Ok(false));
    let (asked, r) = drive(
        vec![attributes(before.copy()), attributes(before.copy()), done()],
        |io| bmc.machine_setup(io),
    );
    assert_eq!(r, Ok(None));
    let Payload::Json(Json::Object(body)) = &asked[2].0.payload else {
        panic!("no JSON body");
    };
    let Json::Object(settings) = &body.entries[0].value else {
        panic!("no settings");
    };
    let mut after = before.copy();
    for entry in &settings.entries {
        after = after.put(&entry.key, entry.value.copy());
    }
    assert_eq!(ask(&after), Ok(true));
    assert_eq!(after.entries.len(), before.entries.len());
}

#[test]
fn an_attribute_that_has_gone_is_called_missing() {
    let bmc = bmc();
    let (_, r) = drive(
        vec![
            collection(&["/s/1"]),
            Ok(Response::SerialInterface(serial("None"))),
            Ok(Response::System(plain_system())),
            attributes(object(&[("SecurityDeviceSupport_006C", text("Enable"))])),
            attributes(good_bios()),
            attributes(good_bios()),
        ],
        |io| bmc.diff_bios_bmc_attr(io),
    );
    let diffs = r.unwrap();
    assert_eq!(diffs.len(), 4);
    assert!(diffs.iter().all(|d| d.actual == "_missing_"));
}

#[test]
fn serial_ports_have_the_settings_that_supermicro_ships() {
    assert!(serial("None").is_supermicro_default());
    let unsaid = SerialInterface {
        signal_type: None,
        ..serial("None")
    };
    assert!(unsaid.is_supermicro_default());
    let others = [
        serial("Even"),
        SerialInterface {
            bit_rate: "9600".to_string(),
            ..serial("None")
        },
        SerialInterface {
            data_bits: "7".to_string(),
            ..serial("None")
        },
        SerialInterface {
            flow_control: "Hardware".to_string(),
            ..serial("None")
        },
        SerialInterface {
            interface_enabled: false,
            ..serial("None")
        },
        SerialInterface {
            signal_type: Some("Rs485".to_string()),
            ..serial("None")
        },
        SerialInterface {
            stop_bits: "2".to_string(),
            ..serial("None")
        },
    ];
    assert!(others.iter().all(|port| !port.is_supermicro_default()));
}

#[test]
fn name_groups_stand_once_with_each_name_once() {
    let groups = group_names(&object(&[
        ("A_1", Json::Null),
        ("B_1", Json::Null),
        ("A_2", Json::Null),
        ("B", Json::Null),
    ]));
    let mut names: Vec<&str> = groups.iter().map(|g| g.name.as_str()).collect();
    assert_eq!(names, vec!["A", "B"]);
    names.dedup();
    assert_eq!(names.len(), groups.len());
    let mut keys: Vec<&str> = groups.iter().flat_map(|g| g.keys.iter().map(String::as_str)).collect();
    assert_eq!(keys, vec!["A_1", "A_2", "B_1", "B"]);
    keys.sort();
    keys.dedup();
    assert_eq!(keys.len(), 4);
}

#[test]
fn the_serial_console_needs_three_things() {
    let bmc = bmc();
    let ask = |console: Option<(bool, Option<i64>)>, default: bool| {
        drive(
            vec![
                collection(&["/s/1"]),
                Ok(Response::SerialInterface(serial(if default { "None" } else { "Even" }))),
                Ok(Response::System(ComputerSystem {
                    serial_console: console.map(|(service_enabled, max_concurrent_sessions)| {
                        SerialConsole {
                            ssh: SshConsole { service_enabled },
                            max_concurrent_sessions,
                        }
                    }),
                    ..plain_system()
                })),
            ],
            |io| bmc.serial_console_status(io),
        )
        .1
        .map(|s| s.status)
    };
    assert_eq!(ask(Some((true, None)), true), Ok(StatusInternal::Enabled));
    assert_eq!(ask(Some((true, Some(0))), true), Ok(StatusInternal::Disabled));
    assert_eq!(ask(Some((false, None)), true), Ok(StatusInternal::Disabled));
    assert_eq!(ask(Some((true, None)), false), Ok(StatusInternal::Disabled));
    assert_eq!(
        ask(None, true),
        Err(Fault::NotSupported(
            "No SerialConsole in System object. Maybe it's in Manager and you have old firmware?"
                .to_string()
        ))
    );
    assert_eq!(bmc.setup_serial_console(), Ok(()));
}

#[test]
fn locking_ends_with_the_lock_and_unlocking_begins_with_it() {
    let bmc = bmc();
    let (asked, r) = drive(
        vec![
            model("SYS-1"),
            collection(&["/h/1", "/h/2"]),
            done(),
            done(),
            chassis(false),
            done(),
            done(),
        ],
        |io| bmc.lockdown(EnabledDisabled::Enabled, io),
    );
    assert_eq!(r, Ok(()));
    assert_eq!(
        urls(&asked),
        vec![
            "Systems/1/",
            "Managers/1/HostInterfaces",
            "Managers/1/HostInterfaces/1",
            "Managers/1/HostInterfaces/2",
            "Chassis?$expand=.($levels=1)",
            "Managers/1/Oem/Supermicro/KCSInterface",
            "Managers/1/Oem/Supermicro/SysLockdown"
        ]
    );
    assert_eq!(body_of(&asked[2].0), r#"{"InterfaceEnabled":false}"#);
    assert_eq!(body_of(&asked[5].0), r#"{"Privilege":"Callback"}"#);
    assert_eq!(body_of(&asked[6].0), r#"{"SysLockdownEnabled":true}"#);
    let (asked, r) = drive(
        vec![done(), chassis(true), firmware(Some("01.05.02")), done(), collection(&["/h/1"]), done()],
        |io| bmc.lockdown(EnabledDisabled::Disabled, io),
    );
    assert_eq!(r, Ok(()));
    assert_eq!(body_of(&asked[0].0), r#"{"SysLockdownEnabled":false}"#);
    assert_eq!(asked[3].0.url, "Systems/1");
    assert_eq!(body_of(&asked[3].0), r#"{"IPMIHostInterface":{"ServiceEnabled":true}}"#);
    assert_eq!(body_of(&asked[5].0), r#"{"InterfaceEnabled":true}"#);
    let (asked, _) = drive(
        vec![model("ARS-121L-DNR-NC"), chassis(false), done(), done()],
        |io| bmc.lockdown(EnabledDisabled::Enabled, io),
    );
    assert_eq!(asked.len(), 4);
    assert_eq!(
        bmc.lockdown_bmc(EnabledDisabled::Enabled),
        bmc.set_syslockdown(EnabledDisabled::Enabled)
    );
}

#[test]
fn lockdown_is_the_sum_of_its_parts() {
    let status = |hi, kcs, sys, keep| lockdown_status_of(hi, kcs, sys, keep).status;
    let callback = Some(Privilege::Callback);
    let all = Some(Privilege::Administrator);
    assert_eq!(status(false, callback, true, false), StatusInternal::Enabled);
    assert_eq!(status(true, callback, true, false), StatusInternal::Partial);
    assert_eq!(status(true, callback, true, true), StatusInternal::Enabled);
    assert_eq!(status(false, None, true, false), StatusInternal::Enabled);
    assert_eq!(status(true, all, false, false), StatusInternal::Disabled);
    assert_eq!(status(true, None, false, true), StatusInternal::Disabled);
    assert_eq!(status(false, all, false, false), StatusInternal::Partial);
    assert_eq!(status(true, Some(Privilege::User), false, false), StatusInternal::Partial);
    let bmc = bmc();
    let (asked, r) = drive(
        vec![
            collection(&["/h/1"]),
            document(&[("InterfaceEnabled", Json::Bool(false))]),
            chassis(false),
            document(&[("Privilege", text("Callback"))]),
            document(&[("SysLockdownEnabled", Json::Bool(true))]),
            model("SYS-1"),
        ],
        |io| bmc.lockdown_status(io),
    );
    assert_eq!(asked[1].0.url, "Managers/1/HostInterfaces/1");
    let r = r.unwrap();
    assert_eq!(r.status, StatusInternal::Enabled);
    assert_eq!(
        r.message,
        "SysLockdownEnabled=true, kcs_privilege=Some(\n    Callback,\n), host_interface_enabled=false"
    );
    assert_eq!(
        lockdown_status_of(true, None, false, false).message,
        "SysLockdownEnabled=false, kcs_privilege=None, host_interface_enabled=true"
    );
}

#[test]
fn there_is_one_host_interface() {
    let bmc = bmc();
    let (_, r) = drive(vec![collection(&["/h/1", "/h/2"])], |io| {
        bmc.is_host_interface_enabled(io)
    });
    assert_eq!(
        r,
        Err(Fault::InvalidValue {
            url: "Managers/1/HostInterfaces".to_string(),
            field: "Members".to_string(),
            err: "Expected a single host interface, found 2".to_string()
        })
    );
    let (_, r) = drive(
        vec![collection(&["/h/1"]), document(&[("InterfaceEnabled", text("yes"))])],
        |io| bmc.is_host_interface_enabled(io),
    );
    assert_eq!(
        r,
        Err(Fault::InvalidKeyType {
            key: "InterfaceEnabled".to_string(),
            expected_type: "bool".to_string(),
            url: "Managers/1/HostInterfaces/1".to_string()
        })
    );
}

#[test]
fn the_kcs_privilege_depends_on_the_machine() {
    let bmc = bmc();
    let ask = |answers| drive(answers, |io| bmc.get_kcs_privilege(io)).1;
    assert_eq!(
        ask(vec![chassis(false), document(&[("Privilege", text("Operator"))])]),
        Ok(Some(Privilege::Operator))
    );
    assert_eq!(
        ask(vec![chassis(false), document(&[("Privilege", text("King"))])]),
        Err(Fault::InvalidKeyType {
            key: "Privilege".to_string(),
            expected_type: "oem::supermicro::Privilege".to_string(),
            url: "Managers/1/Oem/Supermicro/KCSInterface".to_string()
        })
    );
    assert_eq!(
        ask(vec![chassis(false), document(&[])]),
        Err(Fault::MissingKey {
            key: "Privilege".to_string(),
            url: "Managers/1/Oem/Supermicro/KCSInterface".to_string()
        })
    );
    assert_eq!(ask(vec![chassis(true), firmware(Some("01.05.00"))]), Ok(None));
    assert_eq!(ask(vec![chassis(true), firmware(None)]), Ok(None));
    assert_eq!(
        ask(vec![chassis(true), firmware(Some("01.05.01")), host_interface(true)]),
        Ok(Some(Privilege::Administrator))
    );
    assert_eq!(
        ask(vec![chassis(true), firmware(Some("1.5.1.1")), host_interface(false)]),
        Ok(Some(Privilege::Callback))
    );
    assert_eq!(
        ask(vec![chassis(true), firmware(Some("02.00")), Ok(Response::System(plain_system()))]),
        Err(Fault::MissingKey {
            key: "IPMIHostInterface".to_string(),
            url: "Systems/1".to_string()
        })
    );
    let (asked, r) = drive(vec![chassis(true), firmware(Some("01.04.99"))], |io| {
        bmc.set_kcs_privilege(Privilege::Callback, io)
    });
    assert_eq!((asked.len(), r), (2, Ok(())));
}

#[test]
fn firmware_is_old_only_where_it_compares_so() {
    assert!(!is_not_older(None));
    assert!(!is_not_older(Some(VersionOrder::Lt)));
    for order in [
        VersionOrder::Eq,
        VersionOrder::Ne,
        VersionOrder::Le,
        VersionOrder::Ge,
        VersionOrder::Gt,
    ] {
        assert!(is_not_older(Some(order)));
    }
}

#[test]
fn power_cycles_have_an_action_of_their_own() {
    let bmc = bmc();
    assert!(bmc.ac_powercycle_supported_by_power());
    let q = bmc.power(SystemPowerControl::ACPowercycle).unwrap();
    assert_eq!(q.url, "Systems/1/Actions/Oem/OemSystemExtensions.Reset");
    assert_eq!(body_of(&q), r#"{"ResetType":"ACCycle"}"#);
    let q = bmc.power(SystemPowerControl::On).unwrap();
    assert_eq!(q.url, "Systems/1/Actions/ComputerSystem.Reset");
}

#[test]
fn small_changes_of_a_supermicro_machine_are_single_requests() {
    let bmc = bmc();
    let q = bmc.bmc_reset_to_defaults();
    assert_eq!(q.url, "Managers/1/Actions/Oem/SmcManagerConfig.Reset");
    assert_eq!(body_of(&q), r#"{"Option":"ClearConfig"}"#);
    assert_eq!(
        body_of(&bmc.clear_uefi_password("old")),
        r#"{"PasswordName":"AdministratorPassword","OldPassword":"old","NewPassword":""}"#
    );
    assert_eq!(bmc.set_machine_password_policy().url, "AccountService");
    assert_eq!(bmc.reset_bios().url, "Systems/1/Bios/Actions/Bios.ResetBios");
    let q = bmc.boot_once(Boot::Pxe);
    assert_eq!(q.url, "Systems/1");
    assert_eq!(
        body_of(&q),
        r#"{"Boot":{"BootSourceOverrideTarget":"Pxe","BootSourceOverrideEnabled":"Once","BootSourceOverrideMode":"UEFI"}}"#
    );
    let q = bmc.set_boot_override(&BootOverride {
        target: BootSourceOverrideTarget::UefiHttp,
        enabled: BootSourceOverrideEnabled::Continuous,
        mode: Some(BootSourceOverrideMode::Legacy),
        http_boot_uri: Some("http://x".to_string()),
    });
    assert_eq!(
        body_of(&q),
        r#"{"Boot":{"BootSourceOverrideTarget":"UefiHttp","BootSourceOverrideEnabled":"Continuous","BootSourceOverrideMode":"Legacy","HttpBootUri":"http://x"}}"#
    );
    assert_eq!(
        body_of(&bmc.change_boot_order(&strings(&["Boot0001", "Boot0002"]))),
        r#"{"Boot":{"BootOrder":["Boot0001","Boot0002"]}}"#
    );
}

#[test]
fn the_fixed_boot_order_gets_two_places() {
    let bmc = bmc();
    let entries = ["UEFI CD/DVD", "UEFI Network:eth0", "UEFI Hard Disk:ssd", "UEFI USB"];
    let network = ["eth0", DPU, "eth1"];
    let (asked, r) = drive(vec![fixed(&entries, &network), done()], |io| {
        bmc.set_boot_order(Boot::Pxe, io)
    });
    assert_eq!(r, Ok(()));
    assert_eq!(
        body_of(&asked[1].0),
        format!(r#"{{"FixedBootOrder":["UEFI Network:eth0","UEFI Hard Disk","Disabled","Disabled"],"UEFINetwork":["{DPU}","eth0","eth1"]}}"#)
    );
    let (asked, _) = drive(vec![fixed(&entries, &network), done()], |io| {
        bmc.boot_first(Boot::HardDisk, io)
    });
    assert_eq!(
        body_of(&asked[1].0),
        format!(r#"{{"FixedBootOrder":["UEFI Hard Disk","UEFI Network:eth0","Disabled","Disabled"],"UEFINetwork":["eth0","{DPU}","eth1"]}}"#)
    );
    let (_, r) = drive(vec![fixed(&["a", "b"], &["eth0"])], |io| {
        bmc.set_boot_order(Boot::UefiHttp, io)
    });
    assert_eq!(
        r,
        Err(Fault::NotSupported(
            "No match for a Mellanox/NVIDIA UEFI HTTP IPv4 adapter in network boot order"
                .to_string()
        ))
    );
    let (asked, r) = drive(vec![http_error(404, ""), done()], |io| {
        bmc.boot_first(Boot::UefiHttp, io)
    });
    assert_eq!(r, Ok(()));
    assert_eq!(
        body_of(&asked[1].0),
        r#"{"Boot":{"BootSourceOverrideTarget":"UefiHttp","BootSourceOverrideEnabled":"Continuous","BootSourceOverrideMode":"UEFI"}}"#
    );
    let (_, r) = drive(vec![http_error(500, "")], |io| bmc.boot_first(Boot::Pxe, io));
    assert!(r.is_err());
}

#[test]
fn the_dpu_goes_first_in_the_standard_order() {
    let bmc = bmc();
    let put_first = |answers| {
        drive(answers, |io| {
            bmc.set_boot_order_dpu_first(BootInterfaceRef::Mac(MAC), io)
        })
    };
    let (asked, r) = put_first(vec![
        boot_order(&["Boot0002: Disk", "Boot0001: DPU"]),
        options(&["Boot0002", "Boot0001"]),
        boot_option("Boot0002", "Disk"),
        boot_option("Boot0001", DPU),
        done(),
    ]);
    assert_eq!(r, Ok(None));
    assert_eq!(
        body_of(&asked[4].0),
        r#"{"Boot":{"BootOrder":["Boot0001: DPU","Boot0002: Disk"]}}"#
    );
    let (asked, r) = put_first(vec![
        boot_order(&["Boot0001"]),
        options(&["Boot0001"]),
        boot_option("Boot0001", DPU),
    ]);
    assert_eq!((asked.len(), r), (3, Ok(None)));
    let (asked, _) = put_first(vec![
        boot_order(&["Boot0002"]),
        options(&["Boot0001"]),
        boot_option("Boot0001", DPU),
        done(),
    ]);
    assert_eq!(
        body_of(&asked[3].0),
        r#"{"Boot":{"BootOrder":["Boot0001","Boot0002"]}}"#
    );
    let (_, r) = put_first(vec![boot_order(&["Boot0002"]), options(&[])]);
    assert_eq!(
        r,
        Err(Fault::NotSupported("No match for Mellanox HTTP adapter boot".to_string()))
    );
}

#[test]
fn machines_without_a_standard_order_use_the_fixed_one() {
    let bmc = bmc();
    let put_first = |answers| {
        drive(answers, |io| {
            bmc.set_boot_order_dpu_first(BootInterfaceRef::Mac(MAC), io)
        })
    };
    let entries = ["UEFI Hard Disk:ssd", "UEFI Network:eth0", "UEFI USB"];
    let (asked, r) = put_first(vec![boot_order(&[]), fixed(&entries, &["eth0", DPU]), done()]);
    assert_eq!(r, Ok(None));
    assert_eq!(
        body_of(&asked[2].0),
        format!(r#"{{"FixedBootOrder":["UEFI Network:eth0","UEFI Hard Disk:ssd","Disabled"],"UEFINetwork":["{DPU}","eth0"]}}"#)
    );
    let unknown = "PropertyUnknown: BootOrder";
    let (asked, r) = put_first(vec![
        http_error(400, unknown),
        fixed(&["x", "y"], &[DPU]),
        done(),
    ]);
    assert_eq!(r, Ok(None));
    assert_eq!(
        body_of(&asked[2].0),
        format!(r#"{{"FixedBootOrder":["UEFI Network","UEFI Hard Disk"],"UEFINetwork":["{DPU}"]}}"#)
    );
    let (_, r) = put_first(vec![http_error(400, "BootOrder")]);
    assert!(r.is_err());
    let (_, r) = put_first(vec![boot_order(&[]), fixed(&entries, &["eth0"])]);
    assert_eq!(
        r,
        Err(Fault::NotSupported(format!("No match for Mellanox/Nvidia HTTP adapter with MAC address {MAC} in network boot order")))
    );
}

#[test]
fn the_boot_order_is_checked_in_the_way_it_is_set() {
    let bmc = bmc();
    let ask = |answers| {
        drive(answers, |io| {
            bmc.is_boot_order_setup(BootInterfaceRef::Mac(MAC), io)
        })
        .1
    };
    let standard = |first: &str| {
        vec![
            options(&["Boot0001", "Boot0002"]),
            boot_order(&[first]),
            boot_option("Boot0001", DPU),
            boot_option("Boot0002", "Disk"),
        ]
    };
    assert_eq!(ask(standard("Boot0001: DPU")), Ok(true));
    assert_eq!(ask(standard("Boot0002")), Ok(false));
    let order = ["UEFI Network:eth0", "UEFI Hard Disk"];
    assert_eq!(
        ask(vec![options(&[]), boot_order(&[]), fixed(&order, &[DPU, "eth0"])]),
        Ok(true)
    );
    assert_eq!(
        ask(vec![http_error(400, "PropertyUnknown BootOrder"), fixed(&order, &["eth0", DPU])]),
        Ok(false)
    );
    assert!(ask(vec![http_error(404, "")]).is_err());
}

#[test]
fn boot_orders_that_were_set_are_read_back() {
    let order = promote_or_insert(strings(&["Boot0002", "Boot0001: DPU"]), "Boot0001");
    let list = vec![option("Boot0001", DPU), option("Boot0002", "Disk")];
    assert_eq!(standard_boot_order_diff(&order, &list, MAC), None);
    let fixed_order = strings(&["UEFI Network:eth0", "UEFI Hard Disk", "Disabled"]);
    assert_eq!(fixed_boot_order_diff(&fixed_order, &strings(&[DPU, "eth0"]), MAC), None);
    let mut order = strings(&["Boot0003", "Boot0001: a", "Boot0001: b"]);
    assert!(promote_boot_order_entry_first(&mut order, "Boot0001"));
    assert_eq!(order, strings(&["Boot0001: a", "Boot0003", "Boot0001: b"]));
    assert!(!promote_boot_order_entry_first(&mut order, "Boot0009"));
    assert_eq!(order, strings(&["Boot0001: a", "Boot0003", "Boot0001: b"]));
}

#[test]
fn the_first_fixed_entry_names_its_device() {
    let actual = |entry: &str, network: &[&str]| {
        fixed_boot_order_diff(&strings(&[entry]), &strings(network), MAC)
            .map(|d| (d.expected, d.actual))
    };
    let shown = |e: &str, a: &str| Some((e.to_string(), a.to_string()));
    assert_eq!(actual("UEFI Hard Disk: ssd ", &[]), shown("Not found", "ssd"));
    assert_eq!(actual("UEFI Network", &[]), shown("Not found", "UEFI Network"));
    assert_eq!(actual("UEFI Networking", &[DPU]), shown(DPU, "UEFI Networking"));
    assert_eq!(actual(&format!("DPU: {DPU}"), &["eth0", DPU]), None);
    assert_eq!(
        fixed_boot_order_diff(&[], &strings(&[DPU]), MAC).map(|d| d.actual),
        Some("Not found".to_string())
    );
}

#[test]
fn addresses_match_in_any_case() {
    assert!(http_boot_option_matches_mac(DPU, "A0:88:C2:EA:84:D0"));
    assert!(http_boot_option_matches_mac(DPU, "a0:88:c2:ea:84:d0"));
    assert!(http_boot_option_matches_mac(DPU, "A088c2EA84d0"));
    assert!(!http_boot_option_matches_mac(DPU, "A0:88:C2:EA:84:D1"));
    assert!(!http_boot_option_matches_mac("Intel A0:88:C2:EA:84:D0", MAC));
}

#[test]
fn the_tpm_is_cleared_by_a_pending_operation() {
    let bmc = bmc();
    let (asked, r) = drive(
        vec![
            attributes(object(&[("A", Json::Null), ("PendingOperation_007B", text("None"))])),
            done(),
        ],
        |io| bmc.clear_tpm(io),
    );
    assert_eq!(r, Ok(()));
    assert_eq!(
        body_of(&asked[1].0),
        r#"{"Attributes":{"PendingOperation_007B":"TPM Clear"}}"#
    );
    let (_, r) = drive(vec![attributes(object(&[]))], |io| bmc.clear_tpm(io));
    assert_eq!(
        r,
        Err(Fault::NotSupported(
            "Cannot clear_tpm, PendingOperation BIOS attr missing".to_string()
        ))
    );
}

#[test]
fn no_pending_attributes_means_no_pending_changes() {
    let bmc = bmc();
    let (asked, r) = drive(vec![document(&[])], |io| bmc.pending(io));
    assert_eq!(asked[0].0.url, "Systems/1/Bios/SD");
    assert_eq!(r, Ok(Object::new()));
    let (_, r) = drive(vec![attributes(object(&[("A", text("2"))]))], |io| bmc.pending(io));
    assert_eq!(r, Ok(object(&[("A", text("2"))])));
    let (_, r) = drive(vec![document(&[("Attributes", Json::Null)])], |io| bmc.pending(io));
    assert!(matches!(r, Err(Fault::InvalidKeyType { .. })));
    let (asked, r) = drive(
        vec![
            attributes(object(&[("A", text("2"))])),
            attributes(object(&[("A", text("1"))])),
            done(),
        ],
        |io| bmc.clear_pending(io),
    );
    assert_eq!(r, Ok(()));
    assert_eq!(asked[2].0.url, "Systems/1/Bios/SD");
    assert_eq!(body_of(&asked[2].0), r#"{"Attributes":{"A":"1"}}"#);
}

#[test]
fn pcie_devices_are_those_of_the_first_chassis() {
    let bmc = bmc();
    let device = |id: &str| {
        Ok(Response::PcieDevice(PCIeDevice {
            id: Some(id.to_string()),
            manufacturer: None,
            name: None,
            part_number: None,
            serial_number: None,
            status: None,
        }))
    };
    let (asked, r) = drive(
        vec![
            collection(&["/Chassis/1", "/Chassis/2"]),
            collection(&["/p/b", "/p/a"]),
            device("b"),
            device("a"),
        ],
        |io| {
            bmc.pcie_devices(io)
                .map(|v| v.iter().map(|d| d.id.clone().unwrap()).collect::<Vec<_>>())
        },
    );
    assert_eq!(
        urls(&asked),
        vec![
            "Chassis/",
            "Chassis/1/PCIeDevices",
            "Chassis/1/PCIeDevices/b",
            "Chassis/1/PCIeDevices/a"
        ]
    );
    assert_eq!(r, Ok(strings(&["b", "a"])));
    let (_, r) = drive(vec![collection(&[])], |io| bmc.pcie_devices(io).map(|v| v.len()));
    assert_eq!(r, Err(Fault::NoContent));
}

#[test]
fn images_are_sent_to_where_the_bmc_takes_them() {
    let bmc = bmc();
    let wait = Timeout { secs: 9, nanos: 0 };
    let send = |uri: &str, task_id: Option<&str>| {
        drive(
            vec![
                Ok(Response::UpdateService(UpdateService {
                    multipart_http_push_uri: uri.to_string(),
                })),
                Ok(Response::Upload(Upload {
                    location: None,
                    body: "{}".to_string(),
                    task_id: task_id.map(str::to_string),
                })),
            ],
            |io| bmc.update_firmware_multipart(false, wait, ComponentType::BMC, io),
        )
    };
    let (asked, r) = send("/redfish/v1/Push", Some("7"));
    assert_eq!(r, Ok("7".to_string()));
    assert_eq!(asked[1].0.url, "/redfish/v1/Push");
    assert_eq!(
        asked[1].0.payload,
        Payload::Multipart {
            parameters: r#"{"Targets":["/redfish/v1/Managers/1"],"@Redfish.OperationApplyTime":"Immediate","Oem":{"Supermicro":{"BMC":{"PreserveCfg":true,"PreserveSdr":true,"PreserveSsl":true,"BackupBMC":true}}}}"#.to_string(),
            drop_redfish_url: true
        }
    );
    assert_eq!(
        send("/redfish/v1/Push", None).1,
        Err(Fault::JsonDeserializeError {
            url: "/redfish/v1/Push".to_string(),
            body: "{}".to_string()
        })
    );
    assert_eq!(
        send("", None).1,
        Err(Fault::NotSupported(
            "Host BMC does not support HTTP multipart push".to_string()
        ))
    );
}

#[test]
fn update_parameters_depend_on_the_component() {
    let of = |component| UpdateParameters::new(component).to_object().into_json().render();
    assert_eq!(
        of(ComponentType::UEFI),
        r#"{"Targets":["/redfish/v1/Systems/1/Bios"],"@Redfish.OperationApplyTime":"Immediate","Oem":{"Supermicro":{"BIOS":{"PreserveME":true,"PreserveNVRAM":true,"PreserveSMBIOS":true,"BackupBIOS":false}}}}"#
    );
    assert_eq!(
        of(ComponentType::CPLDMB),
        r#"{"Targets":["/redfish/v1/UpdateService/FirmwareInventory/CPLD_Motherboard"],"@Redfish.OperationApplyTime":"Immediate"}"#
    );
    assert_eq!(
        of(ComponentType::CPLDMID),
        r#"{"Targets":["/redfish/v1/UpdateService/FirmwareInventory/CPLD_Backplane_1"],"@Redfish.OperationApplyTime":"Immediate"}"#
    );
    assert_eq!(
        of(ComponentType::Unknown),
        r#"{"Targets":["Unrecognized component type"],"@Redfish.OperationApplyTime":"Immediate"}"#
    );
}

#[test]
fn the_setup_status_adds_all_deviations() {
    let bmc = bmc();
    let (asked, r) = drive(
        vec![
            collection(&["/s/1"]),
            Ok(Response::SerialInterface(serial("None"))),
            Ok(Response::System(plain_system())),
            attributes(good_bios()),
            attributes(good_bios()),
            attributes(good_bios()),
            options(&[]),
            boot_order(&["Boot0001"]),
            collection(&["/h/1"]),
            document(&[("InterfaceEnabled", Json::Bool(true))]),
            chassis(true),
            firmware(Some("0.9")),
            document(&[("SysLockdownEnabled", Json::Bool(false))]),
            model("SYS-1"),
        ],
        |io| bmc.machine_setup_status(Some(BootInterfaceRef::Mac(MAC)), io),
    );
    assert_eq!(asked.len(), 14);
    let r = r.unwrap();
    assert!(!r.is_done);
    let list: Vec<(&str, &str, &str)> = r
        .diffs
        .iter()
        .map(|d| (d.key.as_str(), d.expected.as_str(), d.actual.as_str()))
        .collect();
    assert_eq!(
        list,
        vec![
            ("boot_first", "Not found", "Not found"),
            ("lockdown", "Enabled", "Disabled"),
        ]
    );
}
