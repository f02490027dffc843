use libredfish::dell::{
    dell_nic_of, find_dell_models, find_extra_values, parse_job_id_from_response_headers, Bmc,
    ModelProfiles, Profile, VendorProfiles,
};
use libredfish::dell_actions::{boot_device, UpdateParameters};
use libredfish::dell_bios::{bios_serial_status, check_bios, check_oem, machine_bios_attrs};
use libredfish::dell_settings::BootDevices;
use libredfish::error::{Fault, RedfishError};
use libredfish::exchange::{
    Exchange, Kind, Method, Payload, Reply, Request, Response, Stop, Timeout,
};
use libredfish::json::{Entry, Json, Object};
use libredfish::model::{
    BiosProfileType, BiosSerial, Boot, BootOption, Chassis, ComputerSystem, EnabledDisabled,
    Ethernet, JobState, Location, MachineSetupDiff, ManagerAccount, Members, NetworkAdapter,
    NetworkDeviceFunction, ODataId, PowerState, RedfishVendor, References, RemoteServices, RoleId,
    StatusInternal, SystemBoot, SystemPowerControl, Upload, Written,
};
use libredfish::standard::{RedfishHttpClient, RedfishStandard};

const ATTRIBUTES: &str = "Managers/iDRAC.Embedded.1/Oem/Dell/DellAttributes/iDRAC.Embedded.1";

fn bmc() -> Bmc {
    let mut s = RedfishStandard::new(RedfishHttpClient {
        host: "idrac.example".to_string(),
    });
    s.set_system_id("System.Embedded.1").unwrap();
    s.set_manager_id("iDRAC.Embedded.1").unwrap();
    Bmc::new(s).unwrap()
}

fn drive<T>(
    answers: Vec<Reply>,
    op: impl for<'a> Fn(&mut Exchange<'a>) -> Result<T, Stop>,
) -> (Vec<(Request, Kind)>, Result<T, RedfishError>) {
    let mut waiting = answers.into_iter();
    let mut replies: Vec<Reply> = Vec::new();
    let mut asked = Vec::new();
    loop {
        let mut io = Exchange::new(&replies);
        match op(&mut io) {
            Ok(v) => return (asked, Ok(v)),
            Err(Stop::Fail(e)) => return (asked, Err(e)),
            Err(Stop::Wait(request, kind)) => {
                asked.push((request, kind));
                replies.push(waiting.next().expect("an answer for every request"));
            }
        }
    }
}

fn urls(asked: &[(Request, Kind)]) -> Vec<&str> {
    asked.iter().map(|(q, _)| q.url.as_str()).collect()
}

fn body_of(request: &Request) -> String {
    match &request.payload {
        Payload::Json(j) => j.render(),
        other => panic!("no JSON body: {other:?}"),
    }
}

fn text(s: &str) -> Json {
    Json::Text(s.to_string())
}

fn object(entries: &[(&str, Json)]) -> Object {
    Object {
        entries: entries
            .iter()
            .map(|(k, v)| Entry {
                key: k.to_string(),
                value: v.copy(),
            })
            .collect(),
    }
}

fn texts(entries: &[(&str, &str)]) -> Object {
    let list: Vec<(&str, Json)> = entries.iter().map(|(k, v)| (*k, text(v))).collect();
    object(&list)
}

fn attributes(o: Object) -> Reply {
    Ok(Response::Object(object(&[("Attributes", Json::Object(o))])))
}

fn lockdown(state: &str) -> Reply {
    attributes(texts(&[("Lockdown.1.SystemLockdown", state)]))
}

fn done() -> Reply {
    Ok(Response::Written(Written { headers: None }))
}

fn job(id: &str) -> Reply {
    Ok(Response::Written(Written {
        headers: Some(Location::Text(format!("/redfish/v1/Jobs/{id}"))),
    }))
}

fn http_error(status_code: u16, body: &str) -> Reply {
    Err(Fault::HTTPErrorCode {
        url: "u".to_string(),
        status_code,
        response_body: body.to_string(),
    })
}

fn generic(error: &str) -> RedfishError {
    Fault::GenericError {
        error: error.to_string(),
    }
}

fn link(id: &str) -> ODataId {
    ODataId {
        odata_id: id.to_string(),
    }
}

fn system(model: Option<&str>, power_state: PowerState) -> Reply {
    Ok(Response::System(ComputerSystem {
        model: model.map(str::to_string),
        power_state,
        boot: SystemBoot { boot_order: vec![] },
        serial_console: None,
        ipmi_host_interface: None,
        links: None,
    }))
}

fn account(enabled: Option<bool>) -> Reply {
    Ok(Response::Account(ManagerAccount {
        id: None,
        username: String::new(),
        enabled,
        role_id: String::new(),
    }))
}

fn function(mac: &str, nic: Option<Object>) -> NetworkDeviceFunction {
    NetworkDeviceFunction {
        ethernet: Some(Ethernet {
            mac_address: Some(mac.to_string()),
        }),
        oem: nic.map(|nic| {
            object(&[(
                "Dell",
                Json::Object(object(&[("DellNIC", Json::Object(nic))])),
            )])
        }),
    }
}

/// What leads to a network card in slot `NIC.Slot.5-1`, in three answers.
fn card() -> Vec<Reply> {
    vec![
        Ok(Response::Chassis(Chassis {
            network_adapters: Some(link("/redfish/v1/Chassis/1/NetworkAdapters")),
            ..Default::default()
        })),
        Ok(Response::NetworkAdapters(Members {
            members: vec![
                NetworkAdapter {
                    network_device_functions: None,
                },
                NetworkAdapter {
                    network_device_functions: Some(link("/redfish/v1/F")),
                },
            ],
        })),
        Ok(Response::NetworkDeviceFunctions(Members {
            members: vec![
                NetworkDeviceFunction {
                    ethernet: None,
                    oem: None,
                },
                function("00:00:00:00:00:00", None),
                function(
                    "AA:BB:CC:DD:EE:FF",
                    Some(texts(&[
                        ("Id", "NIC.Slot.5-1"),
                        ("DeviceDescription", "NIC in Slot 5 Port 1"),
                    ])),
                ),
            ],
        })),
    ]
}

fn boot_option(id: &str, display_name: &str) -> Reply {
    Ok(Response::BootOption(BootOption {
        odata: Default::default(),
        alias: None,
        description: None,
        boot_option_enabled: None,
        boot_option_reference: id.to_string(),
        display_name: display_name.to_string(),
        id: id.to_string(),
        name: display_name.to_string(),
        uefi_device_path: None,
    }))
}

fn options(ids: &[&str]) -> Reply {
    Ok(Response::References(References {
        members: ids.iter().map(|id| link(&format!("/BootOptions/{id}"))).collect(),
    }))
}

/// The BIOS attributes of a machine that is set up to boot from `NIC.Slot.5-1`.
fn good_bios() -> Object {
    texts(&[
        ("InBandManageabilityInterface", "Disabled"),
        ("UefiVariableAccess", "Standard"),
        ("SerialComm", "OnConRedir"),
        ("SerialPortAddress", "Com1"),
        ("FailSafeBaud", "115200"),
        ("ConTermType", "Vt100Vt220"),
        ("RedirAfterBoot", "Enabled"),
        ("SriovGlobalEnable", "Enabled"),
        ("TpmSecurity", "On"),
        ("Tpm2Hierarchy", "Enabled"),
        ("Tpm2Algorithm", "SHA256"),
        ("HttpDev1EnDis", "Enabled"),
        ("PxeDev1EnDis", "Disabled"),
        ("HttpDev1Interface", "NIC.Slot.5-1"),
    ])
}

fn good_manager() -> Object {
    texts(&[
        ("WebServer.1.HostHeaderCheck", "Disabled"),
        ("IPMILan.1.Enable", "Enabled"),
        ("SerialRedirection.1.Enable", "Enabled"),
        ("IPMISOL.1.BaudRate", "115200"),
        ("IPMISOL.1.Enable", "Enabled"),
        ("IPMISOL.1.MinPrivilege", "Administrator"),
        ("SSH.1.Enable", "Enabled"),
        ("Lockdown.1.SystemLockdown", "Enabled"),
        ("Racadm.1.Enable", "Disabled"),
    ])
}

fn no_profiles() -> Vec<VendorProfiles> {
    vec![]
}

#[test]
fn a_new_user_takes_the_first_spare_account() {
    let bmc = bmc();
    let create = |answers| {
        drive(answers, |io| {
            bmc.create_user("me", "secret", RoleId::Administrator, io)
        })
    };
    let (asked, r) = create(vec![account(Some(true)), account(None), account(Some(false)), done()]);
    assert_eq!(r, Ok(()));
    assert_eq!(
        urls(&asked),
        vec![
            "AccountService/Accounts/3",
            "AccountService/Accounts/4",
            "AccountService/Accounts/5",
            "AccountService/Accounts/5"
        ]
    );
    assert_eq!(
        body_of(&asked[3].0),
        r#"{"UserName":"me","Password":"secret","RoleId":"Administrator","Enabled":true}"#
    );
    let (asked, _) = create(vec![account(Some(true)), http_error(404, ""), done()]);
    assert_eq!(asked[2].0.url, "AccountService/Accounts/4");
    let (asked, r) = create((3..=16).map(|_| account(Some(true))).collect());
    assert_eq!(asked.len(), 14);
    assert_eq!(r, Err(Fault::TooManyUsers));
}

#[test]
fn power_is_passed_on_but_for_the_ac_cycle() {
    let bmc = bmc();
    assert!(bmc.ac_powercycle_supported_by_power());
    let (asked, r) = drive(vec![done()], |io| bmc.power(SystemPowerControl::ForceOff, io));
    assert_eq!(r, Ok(()));
    assert_eq!(body_of(&asked[0].0), r#"{"ResetType":"ForceOff"}"#);
    let cycle = |answers| drive(answers, |io| bmc.power(SystemPowerControl::ACPowercycle, io));
    let (asked, r) = cycle(vec![
        lockdown("Disabled"),
        attributes(texts(&[("UefiVariableAccess", "Standard")])),
        lockdown("Disabled"),
        done(),
        done(),
        system(None, PowerState::Off),
        done(),
    ]);
    assert_eq!(r, Ok(()));
    assert_eq!(
        body_of(&asked[4].0),
        r#"{"@Redfish.SettingsApplyTime":{"ApplyTime":"OnReset"},"Attributes":{"PowerCycleRequest":"FullPowerCycle"}}"#
    );
    assert_eq!(asked[4].0.url, "Systems/System.Embedded.1/Bios/Settings");
    assert_eq!(body_of(&asked[6].0), r#"{"ResetType":"On"}"#);
    let (asked, _) = cycle(vec![
        lockdown("Disabled"),
        attributes(texts(&[])),
        lockdown("Disabled"),
        done(),
        done(),
        system(None, PowerState::On),
        done(),
    ]);
    assert_eq!(body_of(&asked[6].0), r#"{"ResetType":"GracefulRestart"}"#);
}

#[test]
fn a_locked_machine_keeps_its_power_and_its_settings() {
    let bmc = bmc();
    let refused = "Cannot perform AC power cycle while system is locked down. Disable lockdown, reboot, verify BIOS attribute 'UefiVariableAccess' is 'Standard', and then try again.";
    for (state, access) in [("Enabled", "Standard"), ("Disabled", "Controlled")] {
        let (asked, r) = drive(
            vec![lockdown(state), attributes(texts(&[("UefiVariableAccess", access)]))],
            |io| bmc.power(SystemPowerControl::ACPowercycle, io),
        );
        assert_eq!(asked.len(), 2);
        assert_eq!(r, Err(generic(refused)));
    }
    let locked = || vec![lockdown("Enabled")];
    let (_, r) = drive(locked(), |io| bmc.clear_pending(io));
    assert_eq!(r, Err(Fault::Lockdown));
    let (_, r) = drive(locked(), |io| bmc.clear_tpm(io));
    assert_eq!(r, Err(Fault::Lockdown));
    let (_, r) = drive(locked(), |io| bmc.setup_serial_console(io));
    assert_eq!(r, Err(Fault::Lockdown));
    let (_, r) = drive(locked(), |io| bmc.change_uefi_password("a", "b", io));
    assert_eq!(r, Err(Fault::Lockdown));
    let (_, r) = drive(locked(), |io| {
        bmc.machine_setup(None, &no_profiles(), BiosProfileType::Performance, io)
    });
    assert_eq!(r, Err(Fault::Lockdown));
}

#[test]
fn nothing_changes_before_the_job_queue_is_cleared() {
    let bmc = bmc();
    let stuck = || vec![lockdown("Disabled"), http_error(503, "busy")];
    let (asked, r) = drive(stuck(), |io| bmc.clear_tpm(io));
    assert_eq!(asked.len(), 2);
    assert_eq!(r, http_error(503, "busy").map(|_| ()));
    let (asked, r) = drive(stuck(), |io| bmc.setup_serial_console(io));
    assert_eq!(asked.len(), 2);
    assert_eq!(r, http_error(503, "busy").map(|_| ()));
    let (asked, r) = drive(stuck(), |io| bmc.perform_ac_power_cycle(io));
    assert_eq!(asked.len(), 2);
    assert_eq!(r, http_error(503, "busy").map(|_| ()));
    let (asked, r) = drive(stuck(), |io| {
        bmc.machine_setup(None, &no_profiles(), BiosProfileType::Performance, io)
    });
    assert_eq!(asked.len(), 2);
    assert_eq!(r, http_error(503, "busy").map(|_| ()));
}

#[test]
fn read_only_settings_stop_the_ac_cycle() {
    let bmc = bmc();
    let attempt = |reply| {
        drive(vec![lockdown("Disabled"), done(), reply], |io| {
            bmc.perform_ac_power_cycle(io)
        })
        .1
    };
    assert_eq!(
        attempt(http_error(400, "it is read-only now")),
        Err(generic("Failed to set PowerCycleRequest BIOS attribute due to read-only dependencies. Please reboot the machine and try again."))
    );
    assert!(matches!(
        attempt(http_error(500, "read-only")),
        Err(Fault::HTTPErrorCode { status_code: 500, .. })
    ));
}

#[test]
fn locking_comes_last_and_unlocking_reaches_the_bios() {
    let bmc = bmc();
    let (asked, r) = drive(
        vec![system(Some("PowerEdge R750"), PowerState::On), done(), done()],
        |io| bmc.lockdown(EnabledDisabled::Enabled, io),
    );
    assert_eq!(r, Ok(()));
    assert_eq!(
        urls(&asked),
        vec!["Systems/System.Embedded.1/", ATTRIBUTES, ATTRIBUTES]
    );
    assert_eq!(
        body_of(&asked[1].0),
        r#"{"@Redfish.SettingsApplyTime":{"ApplyTime":"OnReset"},"Attributes":{"Racadm.1.Enable":"Disabled","ServerBoot.1.FirstBootDevice":"PXE","ServerBoot.1.BootOnce":"Disabled"}}"#
    );
    assert_eq!(
        body_of(&asked[2].0),
        r#"{"@Redfish.SettingsApplyTime":{"ApplyTime":"OnReset"},"Attributes":{"Lockdown.1.SystemLockdown":"Enabled"}}"#
    );
    let unlock = |reply| {
        drive(
            vec![system(Some("PowerEdge XE9680"), PowerState::On), done(), reply],
            |io| bmc.lockdown(EnabledDisabled::Disabled, io),
        )
    };
    let (asked, r) = unlock(http_error(400, "read-only"));
    assert_eq!(r, Ok(()));
    assert_eq!(
        body_of(&asked[1].0),
        r#"{"@Redfish.SettingsApplyTime":{"ApplyTime":"Immediate"},"Attributes":{"Lockdown.1.SystemLockdown":"Disabled","Racadm.1.Enable":"Enabled","ServerBoot.1.FirstBootDevice":"UefiHttp","ServerBoot.1.BootOnce":"Disabled"}}"#
    );
    assert_eq!(
        body_of(&asked[2].0),
        r#"{"@Redfish.SettingsApplyTime":{"ApplyTime":"OnReset"},"Attributes":{"InBandManageabilityInterface":"Enabled","UefiVariableAccess":"Standard"}}"#
    );
    let (_, r) = unlock(http_error(400, "nonsense"));
    assert!(r.is_err());
    let (asked, r) = drive(vec![system(None, PowerState::On), done()], |io| {
        bmc.lockdown_bmc(EnabledDisabled::Disabled, io)
    });
    assert_eq!((asked.len(), r), (2, Ok(())));
}

#[test]
fn the_boot_device_depends_on_the_model() {
    let with = |model: Option<&str>| match system(model, PowerState::On) {
        Ok(Response::System(s)) => boot_device(&s),
        _ => unreachable!(),
    };
    assert_eq!(with(Some("PowerEdge XE9680")), BootDevices::UefiHttp);
    assert_eq!(with(Some("PowerEdge XE9680 ")), BootDevices::PXE);
    assert_eq!(with(None), BootDevices::PXE);
}

#[test]
fn lockdown_has_three_states() {
    let bmc = bmc();
    let status = |lockdown: &str, racadm: &str| {
        drive(
            vec![attributes(texts(&[
                ("Lockdown.1.SystemLockdown", lockdown),
                ("Racadm.1.Enable", racadm),
            ]))],
            |io| bmc.lockdown_status(io),
        )
        .1
        .unwrap()
    };
    let locked = status("Enabled", "Disabled");
    assert_eq!(locked.status, StatusInternal::Enabled);
    assert_eq!(locked.message, "BMC: system_lockdown=Enabled, racadm=Disabled.");
    assert_eq!(status("Disabled", "Enabled").status, StatusInternal::Disabled);
    assert_eq!(status("Enabled", "Enabled").status, StatusInternal::Partial);
    let (_, r) = drive(vec![lockdown("Enabled")], |io| bmc.lockdown_status(io));
    assert_eq!(
        r.map(|_| ()),
        Err(Fault::MissingKey {
            key: "Racadm.1.Enable".to_string(),
            url: ATTRIBUTES.to_string()
        })
    );
}

#[test]
fn what_locks_the_bmc_is_read_back() {
    let before = texts(&[("Lockdown.1.SystemLockdown", "Disabled"), ("X", "y")]);
    let settings = texts(&[("Racadm.1.Enable", "Disabled"), ("Lockdown.1.SystemLockdown", "Enabled")]);
    let bmc = bmc();
    let (_, r) = drive(vec![attributes(before.extend(&settings))], |io| bmc.lockdown_status(io));
    assert!(r.unwrap().is_fully_enabled());
}

#[test]
fn remote_access_falls_back_to_the_oem_path() {
    let bmc = bmc();
    let (asked, r) = drive(vec![done()], |io| bmc.setup_bmc_remote_access(io));
    assert_eq!(r, Ok(()));
    assert_eq!(urls(&asked), vec!["Managers/iDRAC.Embedded.1/Attributes"]);
    let (asked, r) = drive(vec![http_error(404, ""), done()], |io| {
        bmc.setup_bmc_remote_access(io)
    });
    assert_eq!(r, Ok(()));
    assert_eq!(asked[1].0.url, ATTRIBUTES);
    assert_eq!(
        body_of(&asked[1].0),
        r#"{"Attributes":{"SSH.1.Enable":"Enabled","SerialRedirection.1.Enable":"Enabled","IPMILan.1.Enable":"Enabled","IPMISOL.1.Enable":"Enabled","IPMISOL.1.BaudRate":"115200","IPMISOL.1.MinPrivilege":"Administrator"}}"#
    );
    let (_, r) = drive(vec![http_error(503, "")], |io| bmc.setup_bmc_remote_access(io));
    assert!(r.is_err());
}

#[test]
fn remote_access_counts_any_value_as_off_where_it_may() {
    let bmc = bmc();
    let status = |o: Object| {
        drive(vec![attributes(o)], |io| bmc.bmc_remote_access_status(io)).1
    };
    let good = status(good_manager()).unwrap();
    assert_eq!(good.status, StatusInternal::Enabled);
    assert_eq!(
        good.message,
        "SerialRedirection.1.Enable=Enabled IPMISOL.1.BaudRate=115200 IPMISOL.1.Enable=Enabled IPMISOL.1.MinPrivilege=Administrator SSH.1.Enable=Enabled IPMILan.1.Enable=Enabled "
    );
    let off = good_manager()
        .put("SerialRedirection.1.Enable", text("Disabled"))
        .put("IPMISOL.1.BaudRate", text("9600"))
        .put("IPMISOL.1.Enable", text("Disabled"))
        .put("SSH.1.Enable", text("Disabled"));
    assert_eq!(status(off.copy()).unwrap().status, StatusInternal::Partial);
    let off = off.put("IPMILan.1.Enable", text("Disabled"));
    assert_eq!(status(off).unwrap().status, StatusInternal::Disabled);
    assert!(matches!(
        status(good_manager().put("SSH.1.Enable", Json::Bool(true))),
        Err(Fault::InvalidKeyType { .. })
    ));
}

#[test]
fn the_serial_console_is_set_up_by_the_way_ports_are_numbered() {
    let bmc = bmc();
    let setup = |bios: Object| {
        let (asked, r) = drive(
            vec![lockdown("Disabled"), done(), done(), attributes(bios), done()],
            |io| bmc.setup_serial_console(io),
        );
        assert_eq!(r, Ok(()));
        assert_eq!(
            body_of(&asked[1].0),
            r#"{"JobID":"JID_CLEARALL"}"#
        );
        assert_eq!(asked[4].0.url, "Systems/System.Embedded.1/Bios/Settings/");
        body_of(&asked[4].0)
    };
    assert_eq!(
        setup(texts(&[("SerialPortAddress", "Com2"), ("RedirAfterBoot", "Disabled")])),
        r#"{"@Redfish.SettingsApplyTime":{"ApplyTime":"OnReset"},"Attributes":{"SerialComm":"OnConRedir","SerialPortAddress":"Com1","ExtSerialConnector":"Serial1","FailSafeBaud":"115200","ConTermType":"Vt100Vt220","RedirAfterBoot":"Enabled"}}"#
    );
    assert_eq!(
        setup(texts(&[("SerialPortAddress", "Serial1Com1Serial2Com2")])),
        r#"{"@Redfish.SettingsApplyTime":{"ApplyTime":"OnReset"},"Attributes":{"SerialComm":"OnConRedirAuto","SerialPortAddress":"Serial1Com2Serial2Com1","ExtSerialConnector":"Serial1","FailSafeBaud":"115200","ConTermType":"Vt100Vt220"}}"#
    );
}

#[test]
fn bios_serial_settings_count_only_where_they_stand() {
    let nothing = || BiosSerial {
        serial_comm: None,
        redir_after_boot: None,
        serial_port_address: None,
        ext_serial_connector: None,
        fail_safe_baud: None,
        con_term_type: None,
    };
    let some = |s: &str| Some(s.to_string());
    let r = bios_serial_status(&nothing(), "u").unwrap();
    assert_eq!(r.status, StatusInternal::Enabled);
    assert_eq!(
        r.message,
        "serial_comm=unknown redir_after_boot=unknown serial_port_address=unknown ext_serial_connector=unknown fail_safe_baud=unknown con_term_type=unknown "
    );
    let status = |b: BiosSerial| bios_serial_status(&b, "u").map(|r| r.status);
    assert_eq!(
        status(BiosSerial {
            serial_comm: some("Off"),
            redir_after_boot: some("Disabled"),
            ..nothing()
        }),
        Ok(StatusInternal::Disabled)
    );
    assert_eq!(
        status(BiosSerial {
            serial_comm: some("OnConRedirCom2"),
            fail_safe_baud: some("9600"),
            ..nothing()
        }),
        Ok(StatusInternal::Partial)
    );
    assert_eq!(
        status(BiosSerial {
            serial_comm: some("OnConRedirAuto"),
            redir_after_boot: some("Enabled"),
            serial_port_address: some("Serial1Com2Serial2Com1"),
            ext_serial_connector: some("Serial1"),
            fail_safe_baud: some("115200"),
            con_term_type: some("Vt100Vt220"),
        }),
        Ok(StatusInternal::Enabled)
    );
    assert_eq!(
        status(BiosSerial {
            serial_comm: some("Perhaps"),
            ..nothing()
        }),
        Err(Fault::InvalidValue {
            url: "u".to_string(),
            field: "serial_comm".to_string(),
            err: "Invalid SerialCommSettings value: Perhaps".to_string()
        })
    );
    assert!(matches!(
        status(BiosSerial {
            redir_after_boot: some("Maybe"),
            ..nothing()
        }),
        Err(Fault::InvalidValue { .. })
    ));
}

#[test]
fn the_serial_console_has_two_sides() {
    let bmc = bmc();
    let (asked, r) = drive(
        vec![
            attributes(good_manager()),
            Ok(Response::BiosSerial(BiosSerial {
                serial_comm: Some("Off".to_string()),
                redir_after_boot: None,
                serial_port_address: None,
                ext_serial_connector: None,
                fail_safe_baud: None,
                con_term_type: None,
            })),
        ],
        |io| bmc.serial_console_status(io),
    );
    assert_eq!(urls(&asked), vec![ATTRIBUTES, "Systems/System.Embedded.1/Bios"]);
    let r = r.unwrap();
    assert_eq!(r.status, StatusInternal::Partial);
    assert!(r.message.starts_with("BMC: SerialRedirection.1.Enable=Enabled"));
    assert!(r.message.contains(". BIOS: serial_comm=Off "));
}

#[test]
fn boot_devices_are_set_once_or_for_good() {
    let bmc = bmc();
    let q = bmc.boot_once(Boot::Pxe).unwrap();
    assert_eq!((q.method, q.url.as_str()), (Method::Patch, ATTRIBUTES));
    assert_eq!(
        body_of(&q),
        r#"{"@Redfish.SettingsApplyTime":{"ApplyTime":"OnReset"},"Attributes":{"ServerBoot.1.FirstBootDevice":"PXE","ServerBoot.1.BootOnce":"Enabled"}}"#
    );
    assert_eq!(
        body_of(&bmc.boot_first(Boot::HardDisk).unwrap()),
        r#"{"@Redfish.SettingsApplyTime":{"ApplyTime":"OnReset"},"Attributes":{"ServerBoot.1.FirstBootDevice":"HDD","ServerBoot.1.BootOnce":"Disabled"}}"#
    );
    assert_eq!(
        bmc.boot_first(Boot::UefiHttp),
        Err(Fault::NotSupported("No Dell UefiHttp implementation".to_string()))
    );
}

#[test]
fn small_changes_are_single_requests() {
    let bmc = bmc();
    assert_eq!(
        body_of(&bmc.set_utc_timezone()),
        r#"{"Attributes":{"Time.1.Timezone":"UTC"}}"#
    );
    assert_eq!(
        body_of(&bmc.disable_psu_hot_spare()),
        r#"{"Attributes":{"ServerPwr.1.PSRapidOn":"Disabled"}}"#
    );
    assert_eq!(
        body_of(&bmc.set_idrac_lockdown(EnabledDisabled::Disabled)),
        r#"{"Attributes":{"Lockdown.1.SystemLockdown":"Disabled"}}"#
    );
    assert_eq!(
        body_of(&bmc.enable_infinite_boot()),
        r#"{"@Redfish.SettingsApplyTime":{"ApplyTime":"OnReset"},"Attributes":{"BootSeqRetry":"Enabled"}}"#
    );
    assert_eq!(
        body_of(&bmc.enable_tpm()),
        r#"{"@Redfish.SettingsApplyTime":{"ApplyTime":"OnReset"},"Attributes":{"TpmSecurity":"On","Tpm2Hierarchy":"Enabled"}}"#
    );
    assert_eq!(
        body_of(&bmc.disable_tpm()),
        r#"{"@Redfish.SettingsApplyTime":{"ApplyTime":"OnReset"},"Attributes":{"TpmSecurity":"Off","Tpm2Hierarchy":"Disabled"}}"#
    );
    assert_eq!(
        bmc.get_network_device_function("c", "n", Some("p")).unwrap().url,
        "Chassis/c/NetworkAdapters/n/NetworkDeviceFunctions/p"
    );
    assert_eq!(
        bmc.get_network_device_function("c", "n", None),
        Err(generic("Port is missing for Dell."))
    );
    assert_eq!(
        bmc.get_system_event_log().url,
        "Managers/iDRAC.Embedded.1/LogServices/Sel/Entries"
    );
    assert_eq!(bmc.set_machine_password_policy(), Ok(()));
}

#[test]
fn infinite_boot_is_read_from_the_bios() {
    let bmc = bmc();
    let ask = |o: Object| drive(vec![attributes(o)], |io| bmc.is_infinite_boot_enabled(io)).1;
    assert_eq!(ask(texts(&[("BootSeqRetry", "Enabled")])), Ok(Some(true)));
    assert_eq!(ask(texts(&[("BootSeqRetry", "enabled")])), Ok(Some(false)));
    assert_eq!(
        ask(texts(&[])),
        Err(Fault::MissingKey {
            key: "BootSeqRetry".to_string(),
            url: "Bios Attributes".to_string()
        })
    );
}

#[test]
fn a_card_is_found_by_its_address_in_any_case() {
    let bmc = bmc();
    let (asked, r) = drive(card(), |io| {
        bmc.dpu_nic_slot("aa:bb:cc:dd:ee:ff", io).map(str::to_string)
    });
    assert_eq!(r, Ok("NIC.Slot.5-1".to_string()));
    assert_eq!(
        urls(&asked),
        vec![
            "Chassis/System.Embedded.1",
            "Chassis/1/NetworkAdapters?$expand=.($levels=1)",
            "F?$expand=.($levels=1)"
        ]
    );
    let (_, r) = drive(card(), |io| bmc.dpu_nic_slot("11", io).map(str::to_string));
    assert_eq!(r, Err(generic("could not find network device function for 11")));
    let (_, r) = drive(card(), |io| {
        bmc.dpu_nic_slot("00:00:00:00:00:00", io).map(str::to_string)
    });
    assert_eq!(r, Err(generic("OEM information is missing")));
    let (_, r) = drive(vec![Ok(Response::Chassis(Chassis::default()))], |io| {
        bmc.dpu_nic_slot("11", io).map(str::to_string)
    });
    assert_eq!(
        r,
        Err(Fault::MissingKey {
            key: "network_adapters".to_string(),
            url: "empty_odata_id_url".to_string()
        })
    );
}

#[test]
fn what_dell_says_of_a_card_can_be_wrong_in_many_ways() {
    let oem = |o: Object| NetworkDeviceFunction {
        ethernet: None,
        oem: Some(o),
    };
    let error = |f: &NetworkDeviceFunction| dell_nic_of(f).map(|_| ()).unwrap_err();
    assert_eq!(
        error(&oem(object(&[]))),
        generic("Dell OEM information is missing")
    );
    assert_eq!(
        error(&oem(texts(&[("Dell", "x")]))),
        generic("Dell OEM information is not a valid object")
    );
    assert_eq!(
        error(&oem(object(&[("Dell", Json::Object(texts(&[("DellNIC", "x")])))]))),
        generic("DellNIC information is not a valid object or is missing")
    );
    let f = function("m", Some(texts(&[("Id", "5")])));
    assert_eq!(dell_nic_of(&f), Ok(&texts(&[("Id", "5")])));
}

#[test]
fn job_ids_come_from_the_location() {
    let parse = |headers: Option<Location>| parse_job_id_from_response_headers("u", &headers);
    assert_eq!(
        parse(Some(Location::Text("/redfish/v1/Jobs/JID_1".to_string()))),
        Ok("JID_1".to_string())
    );
    assert_eq!(parse(Some(Location::Text("JID".to_string()))), Ok("JID".to_string()));
    assert_eq!(parse(Some(Location::Text("a/".to_string()))), Ok(String::new()));
    assert_eq!(
        parse(Some(Location::Missing)),
        Err(Fault::MissingKey {
            key: "location".to_string(),
            url: "u".to_string()
        })
    );
    assert_eq!(
        parse(Some(Location::NotText("bad".to_string()))),
        Err(Fault::InvalidValue {
            url: "u".to_string(),
            field: "location".to_string(),
            err: "bad".to_string()
        })
    );
    assert_eq!(parse(None), Err(Fault::NoHeader));
}

#[test]
fn machine_setup_sends_all_settings_at_once() {
    let bmc = bmc();
    let mut answers = vec![lockdown("Disabled"), done()];
    answers.extend(card());
    answers.extend(vec![
        attributes(texts(&[("BootMode", "Bios"), ("RedirAfterBoot", "Disabled")])),
        system(Some("PowerEdge R750"), PowerState::On),
        job("JID_1"),
        attributes(texts(&[("OS-BMC.1.AdminState", "Enabled")])),
        done(),
        done(),
    ]);
    let profiles = vec![
        VendorProfiles {
            vendor: RedfishVendor::Lenovo,
            models: vec![],
        },
        VendorProfiles {
            vendor: RedfishVendor::Dell,
            models: vec![ModelProfiles {
                model: "PowerEdge_R750".to_string(),
                profiles: vec![
                    Profile {
                        profile: BiosProfileType::PowerEfficiency,
                        values: texts(&[("ProcPower", "Low")]),
                    },
                    Profile {
                        profile: BiosProfileType::Performance,
                        values: texts(&[("ProcPower", "Max")]),
                    },
                ],
            }],
        },
    ];
    let (asked, r) = drive(answers, |io| {
        bmc.machine_setup(
            Some("aa:bb:cc:dd:ee:ff"),
            &profiles,
            BiosProfileType::Performance,
            io,
        )
    });
    assert_eq!(r, Ok(()));
    assert_eq!(asked[7].0.url, "Systems/System.Embedded.1/Bios/Settings/");
    assert_eq!(
        body_of(&asked[7].0),
        r#"{"@Redfish.SettingsApplyTime":{"ApplyTime":"OnReset"},"Attributes":{"InBandManageabilityInterface":"Disabled","UefiVariableAccess":"Standard","SerialComm":"OnConRedir","SerialPortAddress":"Com1","FailSafeBaud":"115200","ConTermType":"Vt100Vt220","RedirAfterBoot":"Enabled","SriovGlobalEnable":"Enabled","TpmSecurity":"On","Tpm2Hierarchy":"Clear","Tpm2Algorithm":"SHA256","HttpDev1EnDis":"Enabled","PxeDev1EnDis":"Disabled","BootMode":"Uefi","HttpDev1Interface":"NIC.Slot.5-1","SetBootOrderEn":"NIC.Slot.5-1","HttpDev1TlsMode":"None","SetBootOrderDis":""},"ProcPower":"Max"}"#
    );
    assert_eq!(
        body_of(&asked[9].0),
        r#"{"Attributes":{"WebServer.1.HostHeaderCheck":"Disabled","IPMILan.1.Enable":"Enabled","OS-BMC.1.AdminState":"Disabled"}}"#
    );
}

#[test]
fn profiles_are_found_wherever_they_stand() {
    let profile = |profile: BiosProfileType, value: &str| Profile {
        profile,
        values: texts(&[("V", value)]),
    };
    let model = |name: &str, turned: bool| {
        let mut profiles = vec![
            profile(BiosProfileType::Performance, &format!("{name} fast")),
            profile(BiosProfileType::PowerEfficiency, &format!("{name} frugal")),
        ];
        if turned {
            profiles.reverse();
        }
        ModelProfiles {
            model: name.to_string(),
            profiles,
        }
    };
    let vendors = |turned: bool| {
        let mut models = vec![model("A", turned), model("B", turned)];
        if turned {
            models.reverse();
        }
        let mut vendors = vec![
            VendorProfiles {
                vendor: RedfishVendor::Lenovo,
                models: Vec::new(),
            },
            VendorProfiles {
                vendor: RedfishVendor::Dell,
                models,
            },
        ];
        if turned {
            vendors.reverse();
        }
        vendors
    };
    for turned in [false, true] {
        let vendors = vendors(turned);
        let models = find_dell_models(&vendors).unwrap();
        for (name, kind, value) in [
            ("A", BiosProfileType::Performance, "A fast"),
            ("A", BiosProfileType::PowerEfficiency, "A frugal"),
            ("B", BiosProfileType::Performance, "B fast"),
        ] {
            assert_eq!(find_extra_values(models, name, kind), Some(&texts(&[("V", value)])));
        }
        assert_eq!(find_extra_values(models, "C", BiosProfileType::Performance), None);
    }
}

#[test]
fn without_a_card_all_is_set_up_and_the_caller_is_told() {
    let bmc = bmc();
    let setup = |written: Reply| {
        drive(
            vec![
                lockdown("Disabled"),
                done(),
                attributes(texts(&[("BootMode", "Uefi")])),
                written,
                attributes(texts(&[])),
                done(),
                done(),
            ],
            |io| bmc.machine_setup(None, &no_profiles(), BiosProfileType::Performance, io),
        )
    };
    let (asked, r) = setup(job("JID_1"));
    assert_eq!(asked.len(), 7);
    assert_eq!(r, Err(Fault::NoDpu));
    let body = body_of(&asked[3].0);
    assert!(!body.contains("BootMode") && !body.contains("RedirAfterBoot"));
    let (_, r) = setup(done());
    assert_eq!(r, Err(Fault::NoHeader));
}

#[test]
fn a_machine_that_is_set_up_has_no_deviations() {
    let bmc = bmc();
    let status = |bios: Object, manager: Object, first: &str| {
        let mut answers = vec![attributes(bios.copy())];
        answers.extend(card());
        answers.push(attributes(bios));
        answers.push(attributes(manager.copy()));
        answers.push(attributes(manager.copy()));
        answers.push(attributes(manager));
        answers.extend(card());
        answers.push(options(&["Boot0001"]));
        answers.push(boot_option("Boot0001", first));
        drive(answers, |io| {
            bmc.machine_setup_status(Some("AA:bb:cc:dd:ee:ff"), io)
        })
        .1
    };
    let first = "HTTP Device 1: NIC in Slot 5 Port 1";
    let good = status(good_bios(), good_manager(), first).unwrap();
    assert!(good.is_done);
    assert_eq!(good.diffs, vec![]);
    let bad = status(
        good_bios().put("Tpm2Hierarchy", text("Clear")),
        good_manager()
            .put("IPMILan.1.Enable", Json::Bool(false))
            .put("Racadm.1.Enable", text("Enabled")),
        "Disk",
    );
    assert!(matches!(bad, Err(Fault::InvalidKeyType { .. })));
    let bad = status(
        good_bios().put("Tpm2Hierarchy", text("Clear")),
        good_manager()
            .put("WebServer.1.HostHeaderCheck", text("Enabled"))
            .put("IPMILan.1.Enable", text("Disabled"))
            .put("OS-BMC.1.AdminState", text("Enabled"))
            .put("Racadm.1.Enable", text("Enabled")),
        "Disk",
    )
    .unwrap();
    assert!(!bad.is_done);
    let list: Vec<(&str, &str, &str)> = bad
        .diffs
        .iter()
        .map(|d| (d.key.as_str(), d.expected.as_str(), d.actual.as_str()))
        .collect();
    assert_eq!(
        list,
        vec![
            ("Tpm2Hierarchy", "Enabled", "Clear"),
            ("WebServer.1.HostHeaderCheck", "Disabled", "\"Enabled\""),
            ("IPMILan.1.Enable", "Enabled", "\"Disabled\""),
            ("OS-BMC.1.AdminState", "Disabled", "\"Enabled\""),
            ("bmc_remote_access", "Enabled", "Partial"),
            ("lockdown", "Enabled", "Partial"),
            ("boot_first", first, "Disk"),
        ]
    );
}

#[test]
fn bios_attributes_must_be_there_and_make_sense() {
    let check = |bios: Object| {
        let bios = Json::Object(bios);
        let attrs = machine_bios_attrs(&bios, "NIC.Slot.5-1");
        check_bios(&bios, &attrs)
    };
    assert_eq!(check(good_bios()), Ok(vec![]));
    assert_eq!(
        check(good_bios().put("FailSafeBaud", text("9600"))),
        Ok(vec![MachineSetupDiff::new("FailSafeBaud", "115200", "9600")])
    );
    assert_eq!(
        check(texts(&[])),
        Err(Fault::MissingKey {
            key: "InBandManageabilityInterface".to_string(),
            url: "bios".to_string()
        })
    );
    assert_eq!(
        check(good_bios().put("TpmSecurity", text("Sometimes"))),
        Err(Fault::JsonDeserializeError {
            url: "bios".to_string(),
            body: "\"Sometimes\"".to_string()
        })
    );
    assert_eq!(
        check(good_bios().put("TpmSecurity", Json::Object(object(&[("On", Json::Null)])))),
        Ok(vec![])
    );
    let mut diffs = vec![];
    assert_eq!(
        check_oem(&Json::Object(texts(&[("WebServer.1.HostHeaderCheck", "Disabled")])), &mut diffs),
        Err(Fault::MissingKey {
            key: "IPMILan.1.Enable".to_string(),
            url: "Managers/{manager_id}/Oem/Dell/DellAttributes/{manager_id}".to_string()
        })
    );
}

#[test]
fn bios_setup_is_the_absence_of_deviations() {
    let bmc = bmc();
    let ask = |bios: Object| {
        drive(
            vec![
                attributes(bios.copy()),
                attributes(bios),
                attributes(good_manager()),
                attributes(good_manager()),
            ],
            |io| bmc.is_bios_setup(None, io),
        )
        .1
    };
    assert_eq!(ask(good_bios().put("HttpDev1Interface", text(""))), Ok(true));
    assert_eq!(ask(good_bios()), Ok(false));
}

#[test]
fn the_boot_order_is_changed_only_where_it_has_to_be() {
    let bmc = bmc();
    let first = "HTTP Device 1: NIC in Slot 5 Port 1";
    let put_first = |names: &[&str], more: Vec<Reply>| {
        let mut answers = card();
        let ids: Vec<String> = (0..names.len()).map(|i| format!("Boot000{i}")).collect();
        let ids: Vec<&str> = ids.iter().map(String::as_str).collect();
        answers.push(options(&ids));
        for (id, name) in ids.iter().zip(names) {
            answers.push(boot_option(id, name));
        }
        answers.extend(more);
        drive(answers, |io| bmc.set_boot_order_dpu_first("aa:bb:cc:dd:ee:ff", io))
    };
    let (_, r) = put_first(&[first, "Disk"], vec![]);
    assert_eq!(r, Ok(None));
    let (asked, r) = put_first(&["Disk", first], vec![job("JID_7")]);
    assert_eq!(r, Ok(Some("JID_7".to_string())));
    let last = &asked.last().unwrap().0;
    assert_eq!(last.url, "Systems/System.Embedded.1/Settings");
    assert_eq!(body_of(last), r#"{"Boot":{"BootOrder":["Boot0001"]}}"#);
    let (_, r) = put_first(&["Disk"], vec![]);
    assert_eq!(r, Err(Fault::MissingBootOption(first.to_string())));
}

#[test]
fn the_boot_order_is_set_up_where_the_first_option_is_right() {
    let bmc = bmc();
    let ask = |ids: &[&str], name: &str| {
        let mut answers = card();
        answers.push(options(ids));
        answers.push(boot_option("Boot0001", name));
        drive(answers, |io| bmc.is_boot_order_setup("aa:bb:cc:dd:ee:ff", io)).1
    };
    assert_eq!(ask(&["Boot0001"], "HTTP Device 1: NIC in Slot 5 Port 1"), Ok(true));
    assert_eq!(ask(&["Boot0001"], "Disk"), Ok(false));
    assert_eq!(ask(&[], ""), Ok(false));
}

#[test]
fn passwords_change_by_a_job_or_by_an_import() {
    let bmc = bmc();
    let (asked, r) = drive(vec![lockdown("Disabled"), done(), job("JID_2")], |io| {
        bmc.change_uefi_password("old", "new", io)
    });
    assert_eq!(r, Ok(Some("JID_2".to_string())));
    assert_eq!(
        body_of(&asked[1].0),
        r#"{"PasswordName":"SetupPassword","OldPassword":"old","NewPassword":"new"}"#
    );
    assert_eq!(
        body_of(&asked[2].0),
        r#"{"TargetSettingsURI":"/redfish/v1/Systems/System.Embedded.1/Bios/Settings"}"#
    );
    let (asked, r) = drive(vec![lockdown("Enabled"), job("JID_3")], |io| {
        bmc.clear_uefi_password("old", io)
    });
    assert_eq!(r, Ok(Some("JID_3".to_string())));
    assert_eq!(
        body_of(&asked[1].0),
        "{\"ShutdownType\":\"Forced\",\"ShareParameters\":{\"Target\":\"BIOS\"},\"ImportBuffer\":\"<SystemConfiguration><Component FQDD=\\\"BIOS.Setup.1-1\\\"><!-- <Attribute Name=\\\"OldSysPassword\\\"></Attribute>--><!-- <Attribute Name=\\\"NewSysPassword\\\"></Attribute>--><Attribute Name=\\\"OldSetupPassword\\\">old</Attribute><Attribute Name=\\\"NewSetupPassword\\\"></Attribute></Component></SystemConfiguration>\"}"
    );
}

#[test]
fn a_job_that_cannot_start_is_told_from_one_that_waits() {
    let bmc = bmc();
    let ask = |o: Object| {
        drive(vec![Ok(Response::Object(o))], |io| bmc.get_job_state("JID_1", io)).1
    };
    assert_eq!(
        ask(texts(&[("JobState", "Scheduled"), ("Message", "Task successfully scheduled.")])),
        Ok(JobState::Scheduled)
    );
    assert_eq!(
        ask(texts(&[
            ("JobState", "Scheduled"),
            ("Message", "Job processing initialization failure.")
        ])),
        Ok(JobState::ScheduledWithErrors)
    );
    assert_eq!(ask(texts(&[("JobState", "Completed")])), Ok(JobState::Completed));
    assert_eq!(
        ask(texts(&[("JobState", "Scheduled")])),
        Err(Fault::MissingKey {
            key: "Message".to_string(),
            url: "Managers/iDRAC.Embedded.1/Oem/Dell/Jobs/JID_1".to_string()
        })
    );
}

#[test]
fn firmware_goes_out_in_parts() {
    let bmc = bmc();
    let wait = Timeout { secs: 60, nanos: 0 };
    let upload = |location: Option<&str>| {
        drive(
            vec![Ok(Response::Upload(Upload {
                location: location.map(str::to_string),
                body: String::new(),
                task_id: None,
            }))],
            |io| bmc.update_firmware_multipart(true, wait, io),
        )
    };
    let (asked, r) = upload(Some("/redfish/v1/TaskService/Tasks/JID_9"));
    assert_eq!(r, Ok("JID_9".to_string()));
    assert_eq!(asked[0].0.url, "UpdateService/MultipartUpload");
    assert_eq!(asked[0].0.timeout, Some(wait));
    assert_eq!(
        asked[0].0.payload,
        Payload::Multipart {
            parameters: r#"{"Targets":[],"@Redfish.OperationApplyTime":"Immediate","Oem":{}}"#
                .to_string(),
            drop_redfish_url: false
        }
    );
    assert_eq!(upload(None).1, Ok("Unknown".to_string()));
    assert_eq!(UpdateParameters::new(false).apply_time, "OnReset");
}

#[test]
fn storage_controllers_are_wiped_and_given_volumes() {
    let bmc = bmc();
    let storage = |ids: &[&str]| {
        drive(
            vec![Ok(Response::References(References {
                members: ids.iter().map(|id| link(id)).collect(),
            }))],
            |io| bmc.get_boss_controller(io),
        )
        .1
    };
    assert_eq!(
        storage(&["/Storage/AHCI.1", "/Storage/BOSS.SL.16-1", "/Storage/BOSS.2"]),
        Ok(Some("BOSS.SL.16-1".to_string()))
    );
    assert_eq!(storage(&["/Storage/AHCI.1"]), Ok(None));
    let status = |lc_status: Json| Ok(Response::RemoteServices(RemoteServices { lc_status }));
    let (asked, r) = drive(vec![status(text("Ready")), job("JID_4")], |io| {
        bmc.decommission_storage_controller("BOSS.1", io)
    });
    assert_eq!(r, Ok(Some("JID_4".to_string())));
    assert_eq!(
        asked[1].0.url,
        "Systems/System.Embedded.1/Storage/BOSS.1/Actions/Oem/DellStorage.ControllerDrivesDecommission"
    );
    assert_eq!(body_of(&asked[1].0), r#"{"@Redfish.OperationApplyTime":"Immediate"}"#);
    for (lc_status, shown) in [(text("Busy"), "Busy"), (Json::Null, "")] {
        let (_, r) = drive(vec![status(lc_status)], |io| {
            bmc.decommission_storage_controller("BOSS.1", io)
        });
        assert_eq!(
            r,
            Err(generic(&format!("the lifecycle controller is not ready to accept provisioning requests; lc_status: {shown}")))
        );
    }
    let create = |drives: Json, name: &str| {
        drive(
            vec![
                Ok(Response::Object(object(&[("Drives", drives)]))),
                status(text("Ready")),
                job("JID_5"),
            ],
            |io| bmc.create_storage_volume("BOSS.1", name, io),
        )
    };
    let drives = |n: usize| Json::Array((0..n).map(|i| text(&format!("d{i}"))).collect());
    let (asked, r) = create(drives(2), "boot");
    assert_eq!(r, Ok(Some("JID_5".to_string())));
    assert_eq!(
        body_of(&asked[2].0),
        r#"{"Name":"boot","RAIDType":"RAID1","Links":{"Drives":["d0","d1"]}}"#
    );
    let (asked, _) = create(drives(1), "123456789012345");
    assert!(body_of(&asked[2].0).contains(r#""RAIDType":"RAID0""#));
    for name in ["", "1234567890123456", "éééééééé"] {
        assert_eq!(
            create(drives(1), name).1,
            Err(generic(&format!("invalid volume name ({name}); must be between 1 and 15 characters long")))
        );
    }
    assert_eq!(
        create(drives(3), "boot").1,
        Err(generic("Expected 1 or 2 drives for BOSS controller BOSS.1, found 3"))
    );
    assert_eq!(
        create(Json::Null, "boot").1,
        Err(generic("Expected 1 or 2 drives for BOSS controller BOSS.1, found 0"))
    );
}
