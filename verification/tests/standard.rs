use libredfish::error::{Fault, RedfishError};
use libredfish::exchange::{
    Exchange, Kind, Method, Payload, Reply, Request, Response, Stop, Timeout,
};
use libredfish::inventory::Progress;
use libredfish::json::{Entry, Json, Object};
use libredfish::model::{
    BootInterfaceRef, BootOption, Chassis, ComputerSystem, Drives, EthernetInterface, Job,
    ManagerAccount, ManagerNetworkProtocol, ManagerResetType, Members, ODataId, PCIeDevice,
    PCIeStatus, PowerState, ProtocolStatus, RedfishVendor, References, RoleId, SerialInterface,
    ServiceRoot, Storage, SystemBoot, SystemLinks, SystemPowerControl, Task, TaskMessage,
    TaskReply, TransferProtocolType, Written,
};
use libredfish::requests::{event_log_url, strip_entry_point, Backend, Timestamp};
use libredfish::standard::{attr_diff, RedfishHttpClient, RedfishStandard};
use libredfish::text;

fn standard() -> RedfishStandard {
    let mut s = RedfishStandard::new(RedfishHttpClient {
        host: "bmc.example".to_string(),
    });
    s.set_system_id("1").unwrap();
    s.set_manager_id("BMC").unwrap();
    s
}

fn drive<T>(
    answers: Vec<Reply>,
    op: impl for<'a> Fn(&mut Exchange<'a>) -> Result<T, Stop>,
) -> (Vec<(Request, Kind)>, Result<T, RedfishError>) {
    let mut waiting = answers.into_iter();
    let mut replies: Vec<Reply> = Vec::new();
    let mut asked = Vec::new();
    loop {
        let mut io = Exchange::new(&replies);
        match op(&mut io) {
            Ok(v) => return (asked, Ok(v)),
            Err(Stop::Fail(e)) => return (asked, Err(e)),
            Err(Stop::Wait(request, kind)) => {
                asked.push((request, kind));
                replies.push(waiting.next().expect("an answer for every request"));
            }
        }
    }
}

fn urls(asked: &[(Request, Kind)]) -> Vec<&str> {
    asked.iter().map(|(q, _)| q.url.as_str()).collect()
}

fn text(s: &str) -> Json {
    Json::Text(s.to_string())
}

fn object(entries: &[(&str, Json)]) -> Object {
    Object {
        entries: entries
            .iter()
            .map(|(k, v)| Entry {
                key: k.to_string(),
                value: v.copy(),
            })
            .collect(),
    }
}

fn document(entries: &[(&str, Json)]) -> Reply {
    Ok(Response::Object(object(entries)))
}

fn links(ids: &[&str]) -> Vec<ODataId> {
    ids.iter()
        .map(|id| ODataId {
            odata_id: id.to_string(),
        })
        .collect()
}

fn collection(ids: &[&str]) -> Reply {
    let members = ids
        .iter()
        .map(|id| Json::Object(object(&[("@odata.id", text(id))])))
        .collect();
    document(&[("Members", Json::Array(members))])
}

fn done() -> Reply {
    Ok(Response::Written(Written { headers: None }))
}

fn http_error(status_code: u16) -> Reply {
    Err(Fault::HTTPErrorCode {
        url: "u".to_string(),
        status_code,
        response_body: String::new(),
    })
}

fn account(id: Option<&str>, name: &str) -> ManagerAccount {
    ManagerAccount {
        id: id.map(str::to_string),
        username: name.to_string(),
        enabled: Some(true),
        role_id: "Administrator".to_string(),
    }
}

fn system(power_state: PowerState, links: Option<SystemLinks>) -> Reply {
    Ok(Response::System(ComputerSystem {
        model: None,
        power_state,
        boot: SystemBoot { boot_order: vec![] },
        serial_console: None,
        ipmi_host_interface: None,
        links,
    }))
}

fn device(id: Option<&str>, manufacturer: Option<&str>, state: Option<&str>) -> PCIeDevice {
    PCIeDevice {
        id: id.map(str::to_string),
        manufacturer: manufacturer.map(str::to_string),
        name: None,
        part_number: None,
        serial_number: None,
        status: state.map(|s| PCIeStatus {
            state: Some(s.to_string()),
        }),
    }
}

fn body_of(request: &Request) -> String {
    match &request.payload {
        Payload::Json(j) => j.render(),
        other => panic!("no JSON body: {other:?}"),
    }
}

#[test]
fn a_new_client_knows_nothing() {
    let s = RedfishStandard::new(RedfishHttpClient {
        host: "h".to_string(),
    });
    assert_eq!(s.system_id(), "");
    assert_eq!(s.manager_id(), "");
    assert_eq!(s.vendor, None);
    assert_eq!(s.update_service(), "UpdateService");
}

#[test]
fn ids_are_remembered_apart() {
    let mut s = standard();
    s.set_system_id("System.Embedded.1").unwrap();
    assert_eq!(s.system_id(), "System.Embedded.1");
    assert_eq!(s.manager_id(), "BMC");
    assert_eq!(s.bios().url, "Systems/System.Embedded.1/Bios");
    assert_eq!(s.get_manager().url, "Managers/BMC");
}

#[test]
fn update_service_comes_from_the_service_root() {
    let mut s = standard();
    s.set_service_root(ServiceRoot {
        vendor: None,
        update_service: Some(object(&[("@odata.id", text("/redfish/v1/Elsewhere"))])),
        oem: None,
    })
    .unwrap();
    assert_eq!(s.update_service(), "Elsewhere");
    assert_eq!(s.get_update_service().url, "Elsewhere");
    s.set_service_root(ServiceRoot {
        vendor: None,
        update_service: Some(object(&[("@odata.id", Json::Bool(true))])),
        oem: None,
    })
    .unwrap();
    assert_eq!(s.update_service(), "");
}

#[test]
fn vendors_choose_their_backend() {
    let mut s = standard();
    let backend = s.set_vendor(RedfishVendor::Dell);
    assert_eq!(s.vendor, Some(RedfishVendor::Dell));
    let Ok(Backend::Dell(bmc)) = backend else {
        panic!("not a Dell machine");
    };
    assert_eq!(bmc.s, s);
    assert_eq!(bmc.s.client.host, s.client.host);
    assert_eq!(bmc.s.vendor, Some(RedfishVendor::Dell));
    assert_eq!((bmc.s.system_id(), bmc.s.manager_id()), (s.system_id(), s.manager_id()));
    let Ok(Backend::Supermicro(bmc)) = s.set_vendor(RedfishVendor::Supermicro) else {
        panic!("not a Supermicro machine");
    };
    assert_eq!(bmc.s, s);
    assert!(matches!(s.set_vendor(RedfishVendor::AMI), Ok(Backend::Ami(_))));
    assert!(matches!(s.set_vendor(RedfishVendor::Lenovo), Ok(Backend::Lenovo(_))));
    let Ok(Backend::Standard(clone)) = s.set_vendor(RedfishVendor::Unknown) else {
        panic!("not a standard machine");
    };
    assert_eq!(clone, s);
    s.set_system_id("DGX").unwrap();
    assert!(matches!(s.set_vendor(RedfishVendor::AMI), Ok(Backend::NvidiaViking(_))));
    s.set_service_root(ServiceRoot {
        vendor: None,
        update_service: None,
        oem: Some(object(&[("Ami", Json::Object(Object::new()))])),
    })
    .unwrap();
    let Ok(Backend::Ami(clone)) = s.set_vendor(RedfishVendor::Lenovo) else {
        panic!("not an AMI machine");
    };
    assert_eq!(clone, s);
}

#[test]
fn simple_requests_are_exact() {
    let s = standard();
    let q = s.create_user("u", "p", RoleId::Operator);
    assert_eq!(q.method, Method::Post);
    assert_eq!(q.url, "AccountService/Accounts");
    assert_eq!(
        body_of(&q),
        r#"{"UserName":"u","Password":"p","RoleId":"Operator"}"#
    );
    let q = s.delete_user("u");
    assert_eq!((q.method, q.url.as_str()), (Method::Delete, "AccountService/Accounts/u"));
    let q = s.edit_account(3, "u", "p", RoleId::Administrator, true);
    assert_eq!(q.url, "AccountService/Accounts/3");
    assert_eq!(
        body_of(&q),
        r#"{"UserName":"u","Password":"p","RoleId":"Administrator","Enabled":true}"#
    );
    let q = s.power(SystemPowerControl::ForceRestart).unwrap();
    assert_eq!(q.url, "Systems/1/Actions/ComputerSystem.Reset");
    assert_eq!(body_of(&q), r#"{"ResetType":"ForceRestart"}"#);
    assert_eq!(
        s.power(SystemPowerControl::ACPowercycle),
        Err(Fault::NotSupported(
            "AC power cycle not supported on this platform".to_string()
        ))
    );
    assert!(!s.ac_powercycle_supported_by_power());
    let q = s.reset_manager(
        ManagerResetType::ForceRestart,
        Some(vec![("If-Match".to_string(), "*".to_string())]),
    );
    assert_eq!(q.headers, vec![("If-Match".to_string(), "*".to_string())]);
    assert_eq!(body_of(&q), r#"{"ResetType":"ForceRestart"}"#);
    assert_eq!(body_of(&s.bmc_reset()), r#"{"ResetType":"GracefulRestart"}"#);
    assert_eq!(
        body_of(&s.set_machine_password_policy()),
        r#"{"AccountLockoutThreshold":0,"AccountLockoutDuration":0,"AccountLockoutCounterResetAfter":0}"#
    );
    let q = s.update_firmware();
    assert_eq!((q.method, q.payload), (Method::Post, Payload::File));
    let q = s.factory_reset_bios();
    assert_eq!(q.url, "Systems/1/Bios/Actions/Bios.ResetBios");
    assert_eq!(q.payload, Payload::Empty);
    assert_eq!(
        s.get_secure_boot_certificate("db", "7").url,
        "Systems/1/SecureBoot/SecureBootDatabases/db/Certificates/7"
    );
    assert_eq!(s.get_evidence("/redfish/v1/a/b").url, "a/b/data");
    assert_eq!(
        s.get_collection(&ODataId {
            odata_id: "/redfish/v1/Chassis".to_string()
        })
        .url,
        "Chassis?$expand=.($levels=1)"
    );
}

#[test]
fn password_changes_differ_for_hpe() {
    let mut s = standard();
    let q = s.change_uefi_password("old", "new");
    assert_eq!(q.url, "Systems/1/Bios/Actions/Bios.ChangePassword");
    assert_eq!(
        body_of(&q),
        r#"{"PasswordName":"AdministratorPassword","OldPassword":"old","NewPassword":"new"}"#
    );
    s.set_vendor(RedfishVendor::Hpe).unwrap();
    let q = s.clear_uefi_password("old");
    assert_eq!(q.url, "Systems/1/Bios/Settings/Actions/Bios.ChangePasswords");
    assert_eq!(
        body_of(&q),
        r#"{"PasswordName":"AdministratorPassword","OldPassword":"old","NewPassword":""}"#
    );
}

#[test]
fn vendor_matters_are_not_supported() {
    let s = standard();
    let what = |r: Result<Request, RedfishError>| match r {
        Err(Fault::NotSupported(what)) => what,
        other => panic!("supported: {other:?}"),
    };
    assert_eq!(what(s.get_gpu_sensors()), "No GPUs on this machine");
    assert_eq!(what(s.get_system_event_log()), "SEL");
    assert_eq!(what(s.get_bmc_event_log(None)), "BMC Event Log");
    assert_eq!(what(s.serial_console_status()), "setup_serial_console");
    assert_eq!(what(s.get_job_state("j")), "get_job_state");
    assert_eq!(
        what(s.get_base_network_adapters("1")),
        "BaseNetworkAdapter is only supported in iLO5"
    );
    assert_eq!(s.get_nic_mode(), Ok(None));
    assert_eq!(s.get_boss_controller(), Ok(None));
}

#[test]
fn event_logs_are_filtered_by_an_encoded_date() {
    let s = standard();
    let url = "Managers/BMC/LogServices/Log/Entries".to_string();
    assert_eq!(s.fetch_bmc_event_log(url.clone(), None).unwrap().url, url);
    let q = s
        .fetch_bmc_event_log(
            url.clone(),
            Some(Timestamp {
                secs: 1_431_648_000,
                nanos: 5,
            }),
        )
        .unwrap();
    assert_eq!(
        q.url,
        format!("{url}?$filter=Created%20ge%20%272015-05-15T00%3A00%3A00Z%27")
    );
    assert!(s
        .fetch_bmc_event_log(
            url,
            Some(Timestamp {
                secs: i64::MAX,
                nanos: 0
            })
        )
        .is_none());
    assert_eq!(event_log_url("u", "~é"), "u?$filter=Created%20ge%20%27~%C3%A9%27");
}

#[test]
fn links_lose_the_entry_point_everywhere() {
    assert_eq!(strip_entry_point("/redfish/v1/Chassis/1"), "Chassis/1");
    assert_eq!(strip_entry_point("Chassis/redfish/v1/1"), "Chassis1");
    assert_eq!(strip_entry_point("redfish/v1/1"), "redfish/v1/1");
}

#[test]
fn members_are_named_by_their_links() {
    let s = standard();
    let (asked, r) = drive(
        vec![collection(&["/redfish/v1/Chassis/a", "/redfish/v1/Chassis/b/"])],
        |io| s.get_chassis_all(io),
    );
    assert_eq!(urls(&asked), vec!["Chassis/"]);
    assert_eq!(r, Ok(vec!["a".to_string(), "".to_string()]));
    let (_, r) = drive(vec![document(&[])], |io| s.get_tasks(io));
    assert_eq!(
        r,
        Err(Fault::MissingKey {
            key: "Members".to_string(),
            url: "TaskService/Tasks/".to_string()
        })
    );
    let (_, r) = drive(vec![document(&[("Members", Json::Array(vec![Json::Null]))])], |io| {
        s.get_software_inventories(io)
    });
    assert!(matches!(r, Err(Fault::InvalidKeyType { .. })));
    let wait = Timeout { secs: 5, nanos: 0 };
    let (asked, _) = drive(vec![collection(&[])], |io| {
        s.get_members_with_timout("u", Some(wait), io)
    });
    assert_eq!(asked[0].0.timeout, Some(wait));
}

#[test]
fn accounts_are_found_by_name() {
    let s = standard();
    let answers = || {
        vec![
            collection(&["/a/1", "/a/2"]),
            Ok(Response::Account(account(Some("1"), "root"))),
            Ok(Response::Account(account(Some("2"), "admin"))),
            done(),
        ]
    };
    let (asked, r) = drive(answers(), |io| s.change_username("admin", "boss", io));
    assert_eq!(r, Ok(()));
    assert_eq!(
        urls(&asked),
        vec![
            "AccountService/Accounts",
            "AccountService/Accounts/1",
            "AccountService/Accounts/2",
            "AccountService/Accounts/2"
        ]
    );
    assert_eq!(body_of(&asked[3].0), r#"{"UserName":"boss"}"#);
    let (_, r) = drive(answers(), |io| s.change_username("nobody", "x", io));
    assert_eq!(r, Err(Fault::UserNotFound("nobody".to_string())));
    let (_, r) = drive(
        vec![collection(&["/a/1"]), Ok(Response::Account(account(None, "root")))],
        |io| s.change_password("root", "x", io),
    );
    assert_eq!(
        r,
        Err(Fault::UserNotFound("root has no ID field".to_string()))
    );
}

#[test]
fn ami_firmware_wants_a_conditional_change() {
    let s = standard();
    let root = |vendor: &str, ami_bmc: bool| {
        Ok(Response::ServiceRoot(ServiceRoot {
            vendor: Some(vendor.to_string()),
            update_service: None,
            oem: if ami_bmc {
                Some(object(&[("Ami", Json::Object(Object::new()))]))
            } else {
                Some(object(&[("Other", Json::Null)]))
            },
        }))
    };
    let method = |reply: Reply| {
        let (asked, r) = drive(vec![reply, done()], |io| {
            s.change_password_by_id("4", "new", io)
        });
        assert_eq!(r, Ok(()));
        assert_eq!(asked[1].0.url, "AccountService/Accounts/4");
        assert_eq!(body_of(&asked[1].0), r#"{"Password":"new"}"#);
        asked[1].0.method
    };
    assert_eq!(method(root("Dell", false)), Method::Patch);
    assert_eq!(method(root("AMI", false)), Method::PatchIfMatch);
    assert_eq!(method(root("ami", false)), Method::PatchIfMatch);
    assert_eq!(method(root("Lenovo", true)), Method::PatchIfMatch);
}

#[test]
fn a_power_shelf_is_named_by_its_chassis() {
    let s = standard();
    let (asked, r) = drive(
        vec![
            Ok(Response::ServiceRoot(ServiceRoot::default())),
            collection(&["/redfish/v1/Chassis/powershelf"]),
            Ok(Response::Chassis(Chassis {
                manufacturer: Some("Lite-On".to_string()),
                ..Default::default()
            })),
        ],
        |io| s.get_service_root(io),
    );
    assert_eq!(urls(&asked), vec!["", "Chassis/", "Chassis/powershelf"]);
    assert_eq!(r.unwrap().vendor, Some("Lite-On".to_string()));
    let (asked, r) = drive(
        vec![
            Ok(Response::ServiceRoot(ServiceRoot::default())),
            collection(&["/redfish/v1/Chassis/1"]),
        ],
        |io| s.get_service_root(io),
    );
    assert_eq!(asked.len(), 2);
    assert_eq!(r.unwrap().vendor, None);
}

#[test]
fn accounts_are_sorted_and_failures_swallowed() {
    let s = standard();
    let names = |answers: Vec<Reply>| {
        drive(answers, |io| {
            s.get_accounts(io)
                .map(|v| v.iter().map(|a| (a.username.clone(), a.id.clone())).collect::<Vec<_>>())
        })
        .1
        .unwrap()
    };
    let list = names(vec![Ok(Response::Accounts(Members {
        members: vec![
            account(Some("3"), "root"),
            account(Some("1"), "admin"),
            account(Some("2"), "admin"),
            account(None, ""),
        ],
    }))]);
    assert_eq!(
        list,
        vec![
            ("".to_string(), None),
            ("admin".to_string(), Some("1".to_string())),
            ("admin".to_string(), Some("2".to_string())),
            ("root".to_string(), Some("3".to_string())),
        ]
    );
    assert!(names(vec![http_error(500)]).is_empty());
}

#[test]
fn power_state_is_that_of_the_system() {
    let s = standard();
    let (asked, r) = drive(vec![system(PowerState::Paused, None)], |io| s.get_power_state(io));
    assert_eq!(urls(&asked), vec!["Systems/1/"]);
    assert_eq!(asked[0].1, Kind::System);
    assert_eq!(r, Ok(PowerState::Paused));
    let (_, r) = drive(vec![http_error(503)], |io| s.get_power_state(io));
    assert!(matches!(r, Err(Fault::HTTPErrorCode { status_code: 503, .. })));
    let (_, r) = drive(vec![done()], |io| s.get_power_state(io));
    assert_eq!(r, Err(Fault::UnexpectedReply));
}

#[test]
fn pending_changes_are_what_differs() {
    let pending = object(&[
        ("A", text("1")),
        ("B", Json::Bool(true)),
        ("C", Json::Null),
    ]);
    let current = Json::Object(object(&[("A", text("1")), ("B", Json::Bool(false))]));
    let diff = attr_diff(&pending, &current);
    assert_eq!(diff, object(&[("B", Json::Bool(true)), ("C", Json::Null)]));
    assert_eq!(attr_diff(&pending, &Json::Null), pending);
}

#[test]
fn the_order_of_entries_and_the_sign_of_zero_make_no_difference() {
    let number = |s: &str| Json::Number(s.to_string());
    let one = Json::Object(object(&[("x", number("1")), ("y", text("z"))]));
    let two = Json::Object(object(&[("y", text("z")), ("x", number("1"))]));
    assert!(one.is(&two) && two.is(&one) && one.is(&one));
    let nested = |j: &Json| Json::Array(vec![Json::Object(object(&[("in", j.copy())]))]);
    assert!(nested(&one).is(&nested(&two)));
    let other = Json::Object(object(&[("y", text("z")), ("x", number("2"))]));
    assert!(!one.is(&other) && !nested(&one).is(&nested(&other)));
    let fewer = Json::Object(object(&[("x", number("1"))]));
    assert!(!one.is(&fewer) && !fewer.is(&one));
    assert!(number("0.0").is(&number("-0.0")) && number("-0.0").is(&number("0.0")));
    assert!(!number("0").is(&number("0.0")) && !number("1.5").is(&number("-1.5")));
    assert!(!Json::Array(vec![number("1"), number("2")])
        .is(&Json::Array(vec![number("2"), number("1")])));
    let pending = object(&[("A", one.copy()), ("B", number("-0.0")), ("C", number("3"))]);
    let current = Json::Object(object(&[("C", number("4")), ("B", number("0.0")), ("A", two)]));
    assert_eq!(attr_diff(&pending, &current), object(&[("C", number("3"))]));
}

#[test]
fn clearing_sets_pending_changes_back() {
    let s = standard();
    let (asked, r) = drive(
        vec![
            document(&[(
                "Attributes",
                Json::Object(object(&[("A", text("2")), ("B", text("x")), ("C", text("y"))])),
            )]),
            document(&[(
                "Attributes",
                Json::Object(object(&[("A", text("1")), ("B", text("x"))])),
            )]),
            done(),
        ],
        |io| s.clear_pending(io),
    );
    assert_eq!(r, Ok(()));
    assert_eq!(
        urls(&asked),
        vec!["Systems/1/Bios/Settings", "Systems/1/Bios", "Systems/1/Bios/Settings"]
    );
    assert_eq!(body_of(&asked[2].0), r#"{"Attributes":{"A":"1","C":null}}"#);
    let (_, r) = drive(
        vec![document(&[("Attributes", text("no map"))])],
        |io| s.pending(io),
    );
    assert_eq!(
        r,
        Err(Fault::InvalidKeyType {
            key: "Attributes".to_string(),
            expected_type: "Object".to_string(),
            url: "Systems/1/Bios/Settings".to_string()
        })
    );
}

#[test]
fn after_clearing_nothing_is_pending() {
    let pending = object(&[("A", text("2")), ("B", text("x"))]);
    let current = Json::Object(object(&[("A", text("1")), ("B", text("x")), ("Z", Json::Null)]));
    let diff = attr_diff(&pending, &current);
    let reset = object(&[("A", text("1"))]);
    assert_eq!(diff.entries.len(), 1);
    assert_eq!(attr_diff(&pending.extend(&reset), &current), Object::new());
}

#[test]
fn drives_on_usb_are_left_out() {
    let s = standard();
    let drive_reply = |id: &str| {
        Ok(Response::Drive(Drives {
            id: Some(id.to_string()),
            name: None,
            model: None,
        }))
    };
    let (asked, r) = drive(
        vec![
            Ok(Response::StorageList(Members {
                members: vec![
                    Storage {
                        drives: Some(links(&["/redfish/v1/D/1", "/redfish/v1/USB/2"])),
                    },
                    Storage { drives: None },
                    Storage {
                        drives: Some(links(&["/redfish/v1/D/3"])),
                    },
                ],
            })),
            drive_reply("1"),
            drive_reply("3"),
        ],
        |io| {
            s.get_drives_metrics(io)
                .map(|v| v.iter().map(|d| d.id.clone().unwrap()).collect::<Vec<_>>())
        },
    );
    assert_eq!(
        urls(&asked),
        vec!["Systems/1/Storage/?$expand=.($levels=1)", "D/1", "D/3"]
    );
    assert_eq!(r, Ok(vec!["1".to_string(), "3".to_string()]));
    let (_, r) = drive(vec![http_error(404)], |io| {
        s.get_drives_metrics(io).map(|v| v.len())
    });
    assert_eq!(r, Ok(0));
}

#[test]
fn pcie_devices_in_service_are_sorted_by_manufacturer() {
    let s = standard();
    let (asked, r) = drive(
        vec![
            system(
                PowerState::On,
                Some(SystemLinks {
                    chassis: Some(links(&["/redfish/v1/Chassis/a/", "/redfish/v1/Chassis/b"])),
                }),
            ),
            Ok(Response::PcieDevices(Members {
                members: vec![
                    device(Some("1"), Some("Zeta"), Some("Enabled")),
                    device(None, Some("Alpha"), Some("Enabled")),
                    device(Some("2"), None, Some("Enabled")),
                    device(Some("3"), Some("Alpha"), Some("StandbyOffline")),
                    device(Some("4"), Some("Alpha"), None),
                ],
            })),
            Ok(Response::PcieDevices(Members {
                members: vec![device(Some("5"), Some("Beta"), Some("eNABLED"))],
            })),
        ],
        |io| {
            s.pcie_devices(io)
                .map(|v| v.iter().map(|d| d.id.clone().unwrap()).collect::<Vec<_>>())
        },
    );
    assert_eq!(
        urls(&asked),
        vec![
            "Systems/1/",
            "Chassis/a/PCIeDevices/?$expand=.($levels=1)",
            "Chassis/b/PCIeDevices/?$expand=.($levels=1)"
        ]
    );
    assert_eq!(r, Ok(vec!["5".to_string(), "1".to_string()]));
    let (asked, r) = drive(vec![system(PowerState::On, None), http_error(500)], |io| {
        s.pcie_devices(io).map(|v| v.len())
    });
    assert_eq!(asked[1].0.url, "Chassis/1/PCIeDevices/?$expand=.($levels=1)");
    assert_eq!(r, Ok(0));
}

#[test]
fn a_task_can_become_a_job() {
    let s = standard();
    let task = |args: Vec<&str>| {
        Ok(Response::Task(Task {
            id: "t".to_string(),
            messages: vec![
                TaskMessage {
                    message_id: "Other".to_string(),
                    message_args: vec![],
                },
                TaskMessage {
                    message_id: "Update.1.0.OperationTransitionedToJob".to_string(),
                    message_args: args.into_iter().map(str::to_string).collect(),
                },
            ],
        }))
    };
    let job = || {
        Ok(Response::Job(Job {
            id: "j".to_string(),
        }))
    };
    let id = |io: &mut Exchange<'_>| {
        s.get_task("t", io).map(|p| match p {
            Progress::Task(t) => format!("task {}", t.id),
            Progress::Job(j) => format!("job {}", j.id),
        })
    };
    let (asked, r) = drive(vec![task(vec!["/redfish/v1/JobService/Jobs/j"]), job()], id);
    assert_eq!(urls(&asked), vec!["TaskService/Tasks/t", "JobService/Jobs/j"]);
    assert_eq!(r, Ok("job j".to_string()));
    let (asked, _) = drive(vec![task(vec!["Jobs/j"]), job()], id);
    assert_eq!(asked[1].0.url, "wrong_prefix");
    let (_, r) = drive(vec![task(vec![])], id);
    assert_eq!(r, Ok("task t".to_string()));
}

#[test]
fn systems_default_to_the_first() {
    let s = standard();
    let (_, r) = drive(
        vec![Ok(Response::References(References { members: vec![] }))],
        |io| s.get_systems(io),
    );
    assert_eq!(r, Ok(vec!["1".to_string()]));
    let (_, r) = drive(
        vec![Ok(Response::References(References {
            members: links(&["/redfish/v1/Managers/x/"]),
        }))],
        |io| s.get_managers(io),
    );
    assert_eq!(r, Ok(vec!["x".to_string()]));
}

#[test]
fn the_first_boot_option_is_followed() {
    let s = standard();
    let option = || {
        Ok(Response::BootOption(BootOption {
            odata: Default::default(),
            alias: None,
            description: None,
            boot_option_enabled: None,
            boot_option_reference: "Boot0000".to_string(),
            display_name: "d".to_string(),
            id: "Boot0000".to_string(),
            name: "n".to_string(),
            uefi_device_path: None,
        }))
    };
    let (asked, r) = drive(
        vec![
            Ok(Response::References(References {
                members: links(&["/redfish/v1/Systems/1/BootOptions/Boot0000"]),
            })),
            option(),
        ],
        |io| s.get_first_boot_option(io).map(|o| o.display_name.clone()),
    );
    assert_eq!(asked[1].0.url, "Systems/1/BootOptions/Boot0000");
    assert_eq!(r, Ok("d".to_string()));
    let (_, r) = drive(
        vec![Ok(Response::References(References { members: vec![] }))],
        |io| s.get_first_boot_option(io).map(|_| ()),
    );
    assert_eq!(r, Err(Fault::NoContent));
}

#[test]
fn the_first_serial_interface_is_looked_up_by_name() {
    let s = standard();
    let (asked, r) = drive(
        vec![
            collection(&["/s/1", "/s/2"]),
            Ok(Response::SerialInterface(SerialInterface {
                bit_rate: "115200".to_string(),
                data_bits: "8".to_string(),
                flow_control: "None".to_string(),
                interface_enabled: true,
                parity: "None".to_string(),
                signal_type: None,
                stop_bits: "1".to_string(),
            })),
        ],
        |io| s.get_serial_interface(io).map(|i| i.is_supermicro_default()),
    );
    assert_eq!(asked[1].0.url, "Managers/BMC/SerialInterfaces/1");
    assert_eq!(r, Ok(true));
    let (_, r) = drive(vec![collection(&[])], |io| s.get_serial_interface_name(io));
    assert_eq!(
        r,
        Err(Fault::InvalidValue {
            url: "Managers/BMC/SerialInterfaces".to_string(),
            field: "0".to_string(),
            err: "Members array is empty, no SerialInterfaces".to_string()
        })
    );
}

#[test]
fn ipmi_over_lan_may_be_unknown() {
    let s = standard();
    let protocol = |ipmi: Option<Option<bool>>| {
        Ok(Response::NetworkProtocol(ManagerNetworkProtocol {
            ipmi: ipmi.map(|protocol_enabled| ProtocolStatus {
                protocol_enabled,
                debug: "S".to_string(),
            }),
            debug: "P".to_string(),
        }))
    };
    let ask = |reply: Reply| drive(vec![reply], |io| s.is_ipmi_over_lan_enabled(io)).1;
    assert_eq!(ask(protocol(Some(Some(true)))), Ok(true));
    assert_eq!(
        ask(protocol(Some(None))),
        Err(Fault::GenericError {
            error: "protocol_enabled is None in the server's ipmi status: S".to_string()
        })
    );
    assert_eq!(
        ask(protocol(None)),
        Err(Fault::GenericError {
            error: "ipmi is None in the server's network service settings: P".to_string()
        })
    );
}

#[test]
fn starting_a_task_needs_a_body() {
    let s = standard();
    let reply = |task: Option<Task>| Ok(Response::TaskReply(TaskReply { task }));
    let (asked, r) = drive(
        vec![reply(Some(Task {
            id: "9".to_string(),
            messages: vec![],
        }))],
        |io| {
            s.update_firmware_simple_update(
                "http://x/fw",
                &vec!["/redfish/v1/a".to_string()],
                TransferProtocolType::HTTPS,
                io,
            )
            .map(|t| t.id.clone())
        },
    );
    assert_eq!(r, Ok("9".to_string()));
    assert_eq!(
        body_of(&asked[0].0),
        r#"{"ImageURI":"http://x/fw","TransferProtocol":"HTTPS","Targets":["/redfish/v1/a"]}"#
    );
    let (asked, r) = drive(vec![reply(None)], |io| {
        s.add_secure_boot_certificate("PEM\n\"x\"", "db", io)
            .map(|t| t.id.clone())
    });
    assert_eq!(r, Err(Fault::NoContent));
    assert_eq!(
        body_of(&asked[0].0),
        r#"{"CertificateString":"PEM\n\"x\"","CertificateType":"PEM"}"#
    );
    let (asked, _) = drive(vec![reply(None)], |io| {
        s.trigger_evidence_collection("/redfish/v1/c", "n", io).map(|_| ())
    });
    assert_eq!(asked[0].0.url, "c");
}

#[test]
fn boot_interfaces_resolve_to_addresses() {
    let s = standard();
    let (asked, r) = drive(vec![], |io| {
        s.resolve_boot_interface_mac(BootInterfaceRef::Mac("aa:bb"), io)
    });
    assert!(asked.is_empty());
    assert_eq!(r, Ok("aa:bb".to_string()));
    let interface = |mac: Option<&str>| {
        Ok(Response::EthernetInterface(EthernetInterface {
            mac_address: mac.map(str::to_string),
        }))
    };
    let ask = |reply: Reply| {
        drive(vec![reply], |io| {
            s.resolve_boot_interface_mac(BootInterfaceRef::InterfaceId("NIC.1"), io)
        })
    };
    let (asked, r) = ask(interface(Some("cc")));
    assert_eq!(asked[0].0.url, "Systems/1/EthernetInterfaces/NIC.1");
    assert_eq!(r, Ok("cc".to_string()));
    let (_, r) = ask(interface(None));
    assert_eq!(
        r,
        Err(Fault::MissingKey {
            key: "MACAddress".to_string(),
            url: "Systems/1/EthernetInterfaces/NIC.1".to_string()
        })
    );
}

#[test]
fn more_replies_do_not_change_what_has_finished() {
    let s = standard();
    let first = vec![document(&[("Attributes", text("a"))])];
    let more = vec![document(&[("Attributes", text("a"))]), done(), http_error(500)];
    let one = s.bios_attributes(&mut Exchange::new(&first)).map(|j| j.copy());
    let two = s.bios_attributes(&mut Exchange::new(&more)).map(|j| j.copy());
    assert_eq!(one, Ok(text("a")));
    assert_eq!(one, two);
}

#[test]
fn json_is_rendered_compactly() {
    let j = Json::Object(object(&[
        ("n", Json::Null),
        ("a", Json::Array(vec![Json::Bool(true), Json::Number("1.50".to_string())])),
        ("q\"\\", text("\u{8}\t\n\u{c}\r\u{1}\u{1f}\u{7f}/é")),
        ("e", Json::Object(Object::new())),
    ]));
    assert_eq!(
        j.render(),
        "{\"n\":null,\"a\":[true,1.50],\"q\\\"\\\\\":\"\\b\\t\\n\\f\\r\\u0001\\u001f\u{7f}/é\",\"e\":{}}"
    );
    assert!(j.is(&j.copy()));
    assert!(!j.is(&Json::Null));
}

#[test]
fn putting_replaces_the_first_of_a_key() {
    let o = object(&[("a", text("1")), ("b", text("2"))]);
    let o = o.put("a", text("3")).put("c", text("4"));
    assert_eq!(
        o,
        object(&[("a", text("3")), ("b", text("2")), ("c", text("4"))])
    );
    assert_eq!(o.get("c"), Some(&text("4")));
    assert_eq!(o.get("d"), None);
}

#[test]
fn texts_are_taken_apart() {
    assert_eq!(text::head("Boot0001: x", ':'), "Boot0001");
    assert_eq!(text::last_segment("/a/b", '/'), "b");
    assert_eq!(text::trim("\u{3000} x \n"), "x");
    assert_eq!(text::trim_char("//a//", '/'), "a");
    assert_eq!(text::numeral(0), "0");
    assert_eq!(text::numeral(18_446_744_073_709_551_615), "18446744073709551615");
    assert!(text::is_before("a", "b") && !text::is_before("b", "a") && text::is_before("", "a"));
    assert_eq!(text::with_underscores("PowerEdge R750"), "PowerEdge_R750");
    assert_eq!(text::remove_all("xabxabx", "ab"), "xxx");
    assert!(text::contains_ignore_case("MAC:AbC", "abc"));
}
