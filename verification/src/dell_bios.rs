//! What the attributes of a Dell machine say, and what they should say.
use crate::dell_settings::{
    serial_comm, serial_port, BiosAttrs, MachineBiosAttrs, SerialCommSettings,
    SerialPortExtSettings, SerialPortSettings, SerialPortTermSettings, TlsMode, Tpm2Algorithm,
    Tpm2HierarchySettings, UefiVariableAccessSettings,
};
use crate::error::{invalid_value, missing_key, outcome, ErrorView, Fault, RedfishError};
use crate::json::{as_text, member, rendered, Json, JsonView, Object, ObjectView};
use crate::jsonmap::{get_str, text_of};
use crate::model::{
    BiosSerial, DiffView, EnabledDisabled, MachineSetupDiff, OnOff, Report, Status, StatusInternal,
    StatusView,
};
use crate::text::{begins, cat2, cat4, cat5, same, starts_with};
use vstd::prelude::*;
use vstd::string::*;

verus! {

/// Whether the serial ports are numbered in the newer way, `Serial1Com*Serial2Com*`.
pub open spec fn newer_idrac(bios: JsonView) -> bool {
    as_text(member(bios, "SerialPortAddress"@)) matches Some(v) && begins(v, "Serial1"@)
}

/// Whether the serial ports are numbered in the newer way, `Serial1Com*Serial2Com*`.
pub fn is_newer_idrac(bios: &Json) -> (r: bool)
    ensures
        r == newer_idrac(bios@),
{
    match bios.get("SerialPortAddress") {
        Some(v) => match v.as_str() {
            Some(s) => starts_with(s, "Serial1"),
            None => false,
        },
        None => false,
    }
}

/// How console redirection after boot is to be set: `RedirAfterBoot` is not
/// available in iDRAC 10.
pub open spec fn redir_after_boot_of(bios: JsonView) -> Option<EnabledDisabled> {
    if member(bios, "RedirAfterBoot"@) is Some {
        Some(EnabledDisabled::Enabled)
    } else {
        None
    }
}

/// How console redirection after boot is to be set.
pub fn redir_after_boot(bios: &Json) -> (r: Option<EnabledDisabled>)
    ensures
        r == redir_after_boot_of(bios@),
{
    if bios.get("RedirAfterBoot").is_some() {
        Some(EnabledDisabled::Enabled)
    } else {
        None
    }
}

/// The attributes of a machine that is set up to boot from `nic_slot`, given the
/// attributes that it has. `BootMode` is read-only in iDRAC 10, so it is named
/// only where it stands and is not `Uefi`.
pub open spec fn setup_attrs(bios: JsonView, nic_slot: Seq<char>) -> BiosAttrs<Seq<char>> {
    BiosAttrs {
        in_band_manageability_interface: EnabledDisabled::Disabled,
        uefi_variable_access: UefiVariableAccessSettings::Standard,
        serial_comm: serial_comm(newer_idrac(bios)),
        serial_port_address: serial_port(newer_idrac(bios)),
        fail_safe_baud: "115200"@,
        con_term_type: SerialPortTermSettings::Vt100Vt220,
        redir_after_boot: redir_after_boot_of(bios),
        sriov_global_enable: EnabledDisabled::Enabled,
        tpm_security: OnOff::On,
        tpm2_hierarchy: Tpm2HierarchySettings::Clear,
        tpm2_algorithm: Tpm2Algorithm::SHA256,
        http_device_1_enabled_disabled: EnabledDisabled::Enabled,
        pxe_device_1_enabled_disabled: EnabledDisabled::Disabled,
        boot_mode: match as_text(member(bios, "BootMode"@)) {
            Some(mode) => if mode == "Uefi"@ {
                None
            } else {
                Some("Uefi"@)
            },
            None => None,
        },
        http_device_1_interface: nic_slot,
        set_boot_order_en: nic_slot,
        http_device_1_tls_mode: TlsMode::NoTls,
        set_boot_order_dis: ""@,
    }
}

/// The attributes of a machine that is set up to boot from `nic_slot`, given the
/// attributes that it has.
pub fn machine_bios_attrs(bios: &Json, nic_slot: &str) -> (r: MachineBiosAttrs)
    ensures
        r.deep_view() == setup_attrs(bios@, nic_slot@),
{
    let boot_mode: Option<String> = match bios.get("BootMode") {
        Some(v) => match v.as_str() {
            Some(mode) => if same(mode, "Uefi") {
                None
            } else {
                Some("Uefi".to_owned())
            },
            None => None,
        },
        None => None,
    };
    let newer = is_newer_idrac(bios);
    BiosAttrs {
        in_band_manageability_interface: EnabledDisabled::Disabled,
        uefi_variable_access: UefiVariableAccessSettings::Standard,
        serial_comm: if newer {
            SerialCommSettings::OnConRedirAuto
        } else {
            SerialCommSettings::OnConRedir
        },
        serial_port_address: if newer {
            SerialPortSettings::Serial1Com2Serial2Com1
        } else {
            SerialPortSettings::Com1
        },
        fail_safe_baud: "115200".to_owned(),
        con_term_type: SerialPortTermSettings::Vt100Vt220,
        redir_after_boot: redir_after_boot(bios),
        sriov_global_enable: EnabledDisabled::Enabled,
        tpm_security: OnOff::On,
        tpm2_hierarchy: Tpm2HierarchySettings::Clear,
        tpm2_algorithm: Tpm2Algorithm::SHA256,
        http_device_1_enabled_disabled: EnabledDisabled::Enabled,
        pxe_device_1_enabled_disabled: EnabledDisabled::Disabled,
        boot_mode,
        http_device_1_interface: nic_slot.to_owned(),
        set_boot_order_en: nic_slot.to_owned(),
        http_device_1_tls_mode: TlsMode::NoTls,
        set_boot_order_dis: "".to_owned(),
    }
}

/// The values that an attribute can take.
#[derive(Clone, Copy, Debug, PartialEq, Eq, Structural)]
pub enum Domain {
    EnabledDisabled,
    OnOff,
    UefiVariableAccess,
    SerialComm,
    SerialPort,
    SerialTerm,
    Tpm2Hierarchy,
    Tpm2Algorithm,
    Text,
}

/// The name of a variant without contents, as JSON holds it: a string, or an
/// object with that one key and nothing under it.
pub open spec fn variant_name(j: JsonView) -> Option<Seq<char>> {
    match j {
        JsonView::Text(s) => Some(s),
        JsonView::Object(o) => if o.len() == 1 && o[0].1 == JsonView::Null {
            Some(o[0].0)
        } else {
            None
        },
        _ => None,
    }
}

impl Domain {
    /// Whether `s` names a value of this domain.
    pub open spec fn has_name(self, s: Seq<char>) -> bool {
        match self {
            Domain::EnabledDisabled => EnabledDisabled::parsed(s) is Some,
            Domain::OnOff => OnOff::parsed(s) is Some,
            Domain::UefiVariableAccess => UefiVariableAccessSettings::parsed(s) is Some,
            Domain::SerialComm => SerialCommSettings::parsed(s) is Some,
            Domain::SerialPort => SerialPortSettings::parsed(s) is Some,
            Domain::SerialTerm => SerialPortTermSettings::parsed(s) is Some,
            Domain::Tpm2Hierarchy => Tpm2HierarchySettings::parsed(s) is Some,
            Domain::Tpm2Algorithm => Tpm2Algorithm::parsed(s) is Some,
            Domain::Text => true,
        }
    }

    /// The value of this domain that `j` is, by its name.
    pub open spec fn read_from(self, j: JsonView) -> Option<Seq<char>> {
        match self {
            Domain::Text => as_text(Some(j)),
            _ => match variant_name(j) {
                Some(s) => if self.has_name(s) {
                    Some(s)
                } else {
                    None
                },
                None => None,
            },
        }
    }

    /// The value of this domain that `j` is, by its name.
    pub fn read<'a>(self, j: &'a Json) -> (r: Option<&'a str>)
        ensures
            r.deep_view() == self.read_from(j@),
    {
        let name: &'a str = match j {
            Json::Text(s) => s.as_str(),
            Json::Object(o) => {
                if let Domain::Text = self {
                    return None;
                }
                if o.entries.len() != 1 {
                    return None;
                }
                assert(o@[0] == (o.entries@[0].key@, o.entries@[0].value@));
                match &o.entries[0].value {
                    Json::Null => o.entries[0].key.as_str(),
                    _ => {
                        return None;
                    },
                }
            },
            _ => {
                return None;
            },
        };
        let known = match self {
            Domain::EnabledDisabled => EnabledDisabled::parse(name).is_some(),
            Domain::OnOff => OnOff::parse(name).is_some(),
            Domain::UefiVariableAccess => UefiVariableAccessSettings::parse(name).is_some(),
            Domain::SerialComm => SerialCommSettings::parse(name).is_some(),
            Domain::SerialPort => SerialPortSettings::parse(name).is_some(),
            Domain::SerialTerm => SerialPortTermSettings::parse(name).is_some(),
            Domain::Tpm2Hierarchy => Tpm2HierarchySettings::parse(name).is_some(),
            Domain::Tpm2Algorithm => Tpm2Algorithm::parse(name).is_some(),
            Domain::Text => true,
        };
        if known {
            Some(name)
        } else {
            None
        }
    }
}

/// An attribute, the value that it should have, and those that it can have, with
/// text held as `S`.
#[derive(Debug, PartialEq, Eq)]
pub struct Expectation<S> {
    pub key: S,
    pub expected: S,
    pub domain: Domain,
}

impl DeepView for Expectation<String> {
    type V = Expectation<Seq<char>>;

    open spec fn deep_view(&self) -> Expectation<Seq<char>> {
        Expectation { key: self.key@, expected: self.expected@, domain: self.domain }
    }
}

/// `key` should be `expected`.
pub open spec fn expect(key: Seq<char>, expected: Seq<char>, domain: Domain) -> Expectation<
    Seq<char>,
> {
    Expectation { key, expected, domain }
}

/// `key` should be `expected`.
fn expectation(key: &str, expected: &str, domain: Domain) -> (r: Expectation<String>)
    ensures
        r.deep_view() == expect(key@, expected@, domain),
{
    Expectation { key: key.to_owned(), expected: expected.to_owned(), domain }
}

/// What the BIOS attributes of a machine that is set up should be: `attrs`, with
/// the TPM enabled again after it was cleared. `RedirAfterBoot` counts only where
/// the machine has it.
pub open spec fn bios_expectations(attrs: BiosAttrs<Seq<char>>, bios: JsonView) -> Seq<
    Expectation<Seq<char>>,
> {
    seq![
        expect(
            "InBandManageabilityInterface"@,
            attrs.in_band_manageability_interface.text(),
            Domain::EnabledDisabled,
        ),
        expect(
            "UefiVariableAccess"@,
            attrs.uefi_variable_access.text(),
            Domain::UefiVariableAccess,
        ),
        expect("SerialComm"@, attrs.serial_comm.text(), Domain::SerialComm),
        expect("SerialPortAddress"@, attrs.serial_port_address.text(), Domain::SerialPort),
        expect("FailSafeBaud"@, attrs.fail_safe_baud, Domain::Text),
        expect("ConTermType"@, attrs.con_term_type.text(), Domain::SerialTerm),
    ] + (match attrs.redir_after_boot {
        Some(redir) => if member(bios, "RedirAfterBoot"@) is Some {
            seq![expect("RedirAfterBoot"@, redir.text(), Domain::EnabledDisabled)]
        } else {
            Seq::empty()
        },
        None => Seq::empty(),
    }) + seq![
        expect("SriovGlobalEnable"@, attrs.sriov_global_enable.text(), Domain::EnabledDisabled),
        expect("TpmSecurity"@, attrs.tpm_security.text(), Domain::OnOff),
        expect("Tpm2Hierarchy"@, Tpm2HierarchySettings::Enabled.text(), Domain::Tpm2Hierarchy),
        expect("Tpm2Algorithm"@, attrs.tpm2_algorithm.text(), Domain::Tpm2Algorithm),
        expect(
            "HttpDev1EnDis"@,
            attrs.http_device_1_enabled_disabled.text(),
            Domain::EnabledDisabled,
        ),
        expect(
            "PxeDev1EnDis"@,
            attrs.pxe_device_1_enabled_disabled.text(),
            Domain::EnabledDisabled,
        ),
        expect("HttpDev1Interface"@, attrs.http_device_1_interface, Domain::Text),
    ]
}

/// What the BIOS attributes of a machine that is set up should be.
fn expectations_of(attrs: &MachineBiosAttrs, bios: &Json) -> (r: Vec<Expectation<String>>)
    ensures
        r.deep_view() == bios_expectations(attrs.deep_view(), bios@),
{
    let mut r: Vec<Expectation<String>> = Vec::new();
    r.push(
        expectation(
            "InBandManageabilityInterface",
            attrs.in_band_manageability_interface.name(),
            Domain::EnabledDisabled,
        ),
    );
    r.push(
        expectation(
            "UefiVariableAccess",
            attrs.uefi_variable_access.name(),
            Domain::UefiVariableAccess,
        ),
    );
    r.push(expectation("SerialComm", attrs.serial_comm.name(), Domain::SerialComm));
    r.push(expectation("SerialPortAddress", attrs.serial_port_address.name(), Domain::SerialPort));
    r.push(expectation("FailSafeBaud", attrs.fail_safe_baud.as_str(), Domain::Text));
    r.push(expectation("ConTermType", attrs.con_term_type.name(), Domain::SerialTerm));
    if let Some(redir) = attrs.redir_after_boot {
        if bios.get("RedirAfterBoot").is_some() {
            r.push(expectation("RedirAfterBoot", redir.name(), Domain::EnabledDisabled));
        }
    }
    r.push(
        expectation(
            "SriovGlobalEnable",
            attrs.sriov_global_enable.name(),
            Domain::EnabledDisabled,
        ),
    );
    r.push(expectation("TpmSecurity", attrs.tpm_security.name(), Domain::OnOff));
    r.push(
        expectation("Tpm2Hierarchy", Tpm2HierarchySettings::Enabled.name(), Domain::Tpm2Hierarchy),
    );
    r.push(expectation("Tpm2Algorithm", attrs.tpm2_algorithm.name(), Domain::Tpm2Algorithm));
    r.push(
        expectation(
            "HttpDev1EnDis",
            attrs.http_device_1_enabled_disabled.name(),
            Domain::EnabledDisabled,
        ),
    );
    r.push(
        expectation(
            "PxeDev1EnDis",
            attrs.pxe_device_1_enabled_disabled.name(),
            Domain::EnabledDisabled,
        ),
    );
    r.push(expectation("HttpDev1Interface", attrs.http_device_1_interface.as_str(), Domain::Text));
    assert(r.deep_view() =~= bios_expectations(attrs.deep_view(), bios@));
    r
}

/// Two lists of deviations, one after the other; the first failure counts.
pub open spec fn joined(
    a: Result<Seq<DiffView>, ErrorView>,
    b: Result<Seq<DiffView>, ErrorView>,
) -> Result<Seq<DiffView>, ErrorView> {
    match a {
        Err(e) => Err(e),
        Ok(x) => match b {
            Err(e) => Err(e),
            Ok(y) => Ok(x + y),
        },
    }
}

/// How one BIOS attribute deviates, if it does. It must be there, and hold a
/// value that it can have.
pub open spec fn checked(bios: JsonView, e: Expectation<Seq<char>>) -> Result<
    Seq<DiffView>,
    ErrorView,
> {
    match member(bios, e.key) {
        None => Err(ErrorView::MissingKey { key: e.key, url: "bios"@ }),
        Some(j) => match e.domain.read_from(j) {
            None => Err(ErrorView::JsonDeserializeError { url: "bios"@, body: rendered(j) }),
            Some(actual) => Ok(
                if e.expected == actual {
                    Seq::empty()
                } else {
                    seq![DiffView { key: e.key, expected: e.expected, actual }]
                },
            ),
        },
    }
}

/// How the BIOS attributes deviate.
pub open spec fn all_checked(bios: JsonView, list: Seq<Expectation<Seq<char>>>) -> Result<
    Seq<DiffView>,
    ErrorView,
>
    decreases list.len(),
{
    if list.len() == 0 {
        Ok(Seq::empty())
    } else {
        joined(all_checked(bios, list.drop_last()), checked(bios, list.last()))
    }
}

/// Where one attribute fails the check, all of them do, in the same way.
proof fn failed_check_stays(bios: JsonView, list: Seq<Expectation<Seq<char>>>, i: int)
    requires
        0 <= i <= list.len(),
        all_checked(bios, list.take(i)) is Err,
    ensures
        all_checked(bios, list) == all_checked(bios, list.take(i)),
    decreases list.len(),
{
    if i < list.len() {
        assert(list.drop_last().take(i) =~= list.take(i));
        failed_check_stays(bios, list.drop_last(), i);
    } else {
        assert(list.take(i) =~= list);
    }
}

/// Checks one BIOS attribute, and adds its deviation, if it has one.
fn check(
    bios: &Json,
    e: &Expectation<String>,
    diffs: &mut Vec<MachineSetupDiff>,
) -> (r: Result<(), RedfishError>)
    ensures
        match checked(bios@, e.deep_view()) {
            Ok(more) => r is Ok && final(diffs).deep_view() == old(diffs).deep_view() + more,
            Err(e) => r matches Err(f) && f@ == e,
        },
{
    let ghost before = diffs.deep_view();
    let Some(value) = bios.get(e.key.as_str()) else {
        return Err(missing_key(e.key.as_str(), "bios"));
    };
    let Some(actual) = e.domain.read(value) else {
        return Err(Fault::JsonDeserializeError { url: "bios".to_owned(), body: value.render() });
    };
    if !same(e.expected.as_str(), actual) {
        diffs.push(MachineSetupDiff::new(e.key.as_str(), e.expected.as_str(), actual));
        assert(diffs.deep_view() =~= before + seq![
            DiffView { key: e.key@, expected: e.expected@, actual: actual@ },
        ]);
    } else {
        assert(diffs.deep_view() =~= before + Seq::empty());
    }
    Ok(())
}

/// How the BIOS attributes `bios` deviate from those that `attrs` asks for.
pub fn check_bios(bios: &Json, attrs: &MachineBiosAttrs) -> (r: Result<
    Vec<MachineSetupDiff>,
    RedfishError,
>)
    ensures
        outcome(r) == all_checked(bios@, bios_expectations(attrs.deep_view(), bios@)),
{
    let list = expectations_of(attrs, bios);
    let ghost all = list.deep_view();
    let mut diffs: Vec<MachineSetupDiff> = Vec::new();
    let mut i: usize = 0;
    assert(diffs.deep_view() =~= Seq::empty());
    while i < list.len()
        invariant
            i <= list.len(),
            all == list.deep_view(),
            all == bios_expectations(attrs.deep_view(), bios@),
            all_checked(bios@, all.take(i as int)) == Ok::<_, ErrorView>(diffs.deep_view()),
        decreases list.len() - i,
    {
        assert(all.take(i + 1).drop_last() =~= all.take(i as int));
        assert(all.take(i + 1).last() == list@[i as int].deep_view());
        match check(bios, &list[i], &mut diffs) {
            Ok(()) => {},
            Err(e) => {
                proof {
                    failed_check_stays(bios@, all, i + 1);
                }
                return Err(e);
            },
        }
        i = i + 1;
    }
    assert(all.take(i as int) =~= all);
    Ok(diffs)
}

/// How one manager attribute deviates, if it does. `OS-BMC.1.AdminState` is only
/// available in iDRAC 9; the others must be there.
pub open spec fn oem_checked(attrs: JsonView, key: Seq<char>, expected: Seq<char>) -> Result<
    Seq<DiffView>,
    ErrorView,
> {
    match member(attrs, key) {
        Some(actual) => Ok(
            if actual == JsonView::Text(expected) {
                Seq::empty()
            } else {
                seq![DiffView { key, expected, actual: rendered(actual) }]
            },
        ),
        None => if key == "OS-BMC.1.AdminState"@ {
            Ok(Seq::empty())
        } else {
            Err(
                ErrorView::MissingKey {
                    key,
                    url: "Managers/{manager_id}/Oem/Dell/DellAttributes/{manager_id}"@,
                },
            )
        },
    }
}

/// How the manager attributes deviate.
pub open spec fn oem_all_checked(attrs: JsonView) -> Result<Seq<DiffView>, ErrorView> {
    joined(
        joined(
            oem_checked(attrs, "WebServer.1.HostHeaderCheck"@, "Disabled"@),
            oem_checked(attrs, "IPMILan.1.Enable"@, "Enabled"@),
        ),
        oem_checked(attrs, "OS-BMC.1.AdminState"@, "Disabled"@),
    )
}

/// Checks one manager attribute, and adds its deviation, if it has one.
fn check_oem_attribute(
    attrs: &Json,
    key: &str,
    expected: &str,
    diffs: &mut Vec<MachineSetupDiff>,
) -> (r: Result<(), RedfishError>)
    ensures
        match oem_checked(attrs@, key@, expected@) {
            Ok(more) => r is Ok && final(diffs).deep_view() == old(diffs).deep_view() + more,
            Err(e) => r matches Err(f) && f@ == e,
        },
{
    let ghost before = diffs.deep_view();
    match attrs.get(key) {
        Some(actual) => {
            if actual.is(&Json::text(expected)) {
                assert(diffs.deep_view() =~= before + Seq::empty());
            } else {
                let text = actual.render();
                diffs.push(MachineSetupDiff::new(key, expected, text.as_str()));
                assert(diffs.deep_view() =~= before + seq![
                    DiffView { key: key@, expected: expected@, actual: text@ },
                ]);
            }
            Ok(())
        },
        None => if same(key, "OS-BMC.1.AdminState") {
            assert(diffs.deep_view() =~= before + Seq::empty());
            Ok(())
        } else {
            Err(
                missing_key(key, "Managers/{manager_id}/Oem/Dell/DellAttributes/{manager_id}"),
            )
        },
    }
}

/// Checks the manager attributes, and adds what deviates.
pub fn check_oem(attrs: &Json, diffs: &mut Vec<MachineSetupDiff>) -> (r: Result<(), RedfishError>)
    ensures
        match oem_all_checked(attrs@) {
            Ok(more) => r is Ok && final(diffs).deep_view() == old(diffs).deep_view() + more,
            Err(e) => r matches Err(f) && f@ == e,
        },
{
    let ghost before = diffs.deep_view();
    check_oem_attribute(attrs, "WebServer.1.HostHeaderCheck", "Disabled", diffs)?;
    check_oem_attribute(attrs, "IPMILan.1.Enable", "Enabled", diffs)?;
    check_oem_attribute(attrs, "OS-BMC.1.AdminState", "Disabled", diffs)?;
    assert(diffs.deep_view() =~= before + oem_all_checked(attrs@)->Ok_0);
    Ok(())
}

/// The status of a feature of which all parts are on, or all are off.
pub open spec fn status_of(enabled: bool, disabled: bool) -> StatusInternal {
    if enabled {
        StatusInternal::Enabled
    } else if disabled {
        StatusInternal::Disabled
    } else {
        StatusInternal::Partial
    }
}

/// The status of a feature of which all parts are on, or all are off.
pub fn overall_status(enabled: bool, disabled: bool) -> (r: StatusInternal)
    ensures
        r == status_of(enabled, disabled),
{
    if enabled {
        StatusInternal::Enabled
    } else if disabled {
        StatusInternal::Disabled
    } else {
        StatusInternal::Partial
    }
}

/// The manager attributes that remote access depends on: the value that each has
/// where it is on, and where it is off. `any` stands for every value.
pub open spec fn remote_access_attributes() -> Seq<(Seq<char>, Seq<char>, Seq<char>)> {
    seq![
        ("SerialRedirection.1.Enable"@, "Enabled"@, "Disabled"@),
        ("IPMISOL.1.BaudRate"@, "115200"@, "any"@),
        ("IPMISOL.1.Enable"@, "Enabled"@, "Disabled"@),
        ("IPMISOL.1.MinPrivilege"@, "Administrator"@, "any"@),
        ("SSH.1.Enable"@, "Enabled"@, "Disabled"@),
        ("IPMILan.1.Enable"@, "Enabled"@, "Disabled"@),
    ]
}

/// What is found when the attributes in `list` are looked at: their values, as
/// text, whether all are on, and whether all are off.
pub open spec fn remote_access_found(
    attrs: ObjectView,
    url: Seq<char>,
    list: Seq<(Seq<char>, Seq<char>, Seq<char>)>,
) -> Result<(Seq<char>, bool, bool), ErrorView>
    decreases list.len(),
{
    if list.len() == 0 {
        Ok((""@, true, true))
    } else {
        match remote_access_found(attrs, url, list.drop_last()) {
            Err(e) => Err(e),
            Ok((message, enabled, disabled)) => {
                let (key, on, off) = list.last();
                match text_of(attrs, key, url) {
                    Err(e) => Err(e),
                    Ok(value) => Ok(
                        (
                            message + (key + "="@ + value + " "@),
                            enabled && value == on,
                            disabled && (value == off || off == "any"@),
                        ),
                    ),
                }
            },
        }
    }
}

/// Whether remote access is set up.
pub open spec fn remote_access_report(attrs: ObjectView, url: Seq<char>) -> Result<
    StatusView,
    ErrorView,
> {
    match remote_access_found(attrs, url, remote_access_attributes()) {
        Err(e) => Err(e),
        Ok((message, enabled, disabled)) => Ok(
            Report { message, status: status_of(enabled, disabled) },
        ),
    }
}

/// Where one attribute cannot be read, all cannot, in the same way.
proof fn failed_read_stays(
    attrs: ObjectView,
    url: Seq<char>,
    list: Seq<(Seq<char>, Seq<char>, Seq<char>)>,
    i: int,
)
    requires
        0 <= i <= list.len(),
        remote_access_found(attrs, url, list.take(i)) is Err,
    ensures
        remote_access_found(attrs, url, list) == remote_access_found(attrs, url, list.take(i)),
    decreases list.len(),
{
    if i < list.len() {
        assert(list.drop_last().take(i) =~= list.take(i));
        failed_read_stays(attrs, url, list.drop_last(), i);
    } else {
        assert(list.take(i) =~= list);
    }
}

/// Whether remote access is set up.
pub fn remote_access_status(attrs: &Object, url: &str) -> (r: Result<Status, RedfishError>)
    ensures
        outcome(r) == remote_access_report(attrs@, url@),
{
    let list: Vec<(&str, &str, &str)> = vec![
        ("SerialRedirection.1.Enable", "Enabled", "Disabled"),
        ("IPMISOL.1.BaudRate", "115200", "any"),
        ("IPMISOL.1.Enable", "Enabled", "Disabled"),
        ("IPMISOL.1.MinPrivilege", "Administrator", "any"),
        ("SSH.1.Enable", "Enabled", "Disabled"),
        ("IPMILan.1.Enable", "Enabled", "Disabled"),
    ];
    let ghost all = list.deep_view();
    assert(all =~= remote_access_attributes());
    let mut message = "".to_owned();
    let mut enabled = true;
    let mut disabled = true;
    let mut i: usize = 0;
    while i < list.len()
        invariant
            i <= list.len(),
            all == list.deep_view(),
            all == remote_access_attributes(),
            remote_access_found(attrs@, url@, all.take(i as int)) == Ok::<_, ErrorView>(
                (message@, enabled, disabled),
            ),
        decreases list.len() - i,
    {
        assert(all.take(i + 1).drop_last() =~= all.take(i as int));
        assert(all.take(i + 1).last() == list@[i as int].deep_view());
        let (key, on, off) = list[i];
        let value = match get_str(attrs, key, url) {
            Ok(value) => value,
            Err(e) => {
                proof {
                    failed_read_stays(attrs@, url@, all, i + 1);
                }
                return Err(e);
            },
        };
        let part = cat4(key, "=", value, " ");
        message.append(part.as_str());
        if !same(value, on) {
            enabled = false;
        }
        if !same(value, off) && !same(off, "any") {
            disabled = false;
        }
        i = i + 1;
    }
    assert(all.take(i as int) =~= all);
    Ok(Report { message, status: overall_status(enabled, disabled) })
}

/// A setting and its value, as text.
pub open spec fn setting_text(name: Seq<char>, value: Option<Seq<char>>) -> Seq<char> {
    name + "="@ + (match value {
        Some(v) => v,
        None => "unknown"@,
    }) + " "@
}

/// A setting and its value, as text.
fn setting_line(name: &str, value: &Option<String>) -> (r: String)
    ensures
        r@ == setting_text(name@, value.deep_view()),
{
    match value {
        Some(v) => cat4(name, "=", v.as_str(), " "),
        None => cat4(name, "=", "unknown", " "),
    }
}

/// Whether `SerialComm` means that the serial console may be on, and that it may
/// be off.
pub open spec fn serial_comm_reading(value: Option<Seq<char>>, url: Seq<char>) -> Result<
    (bool, bool),
    ErrorView,
> {
    match value {
        None => Ok((true, true)),
        Some(v) => match SerialCommSettings::parsed(v) {
            None => Err(
                ErrorView::InvalidValue {
                    url,
                    field: "serial_comm"@,
                    err: "Invalid SerialCommSettings value: "@ + v,
                },
            ),
            Some(SerialCommSettings::Off) => Ok((false, true)),
            Some(SerialCommSettings::OnNoConRedir) => Ok((false, false)),
            Some(_) => Ok((true, false)),
        },
    }
}

/// Whether `RedirAfterBoot` means that the serial console may be on, and that it
/// may be off.
pub open spec fn redir_reading(value: Option<Seq<char>>, url: Seq<char>) -> Result<
    (bool, bool),
    ErrorView,
> {
    match value {
        None => Ok((true, true)),
        Some(v) => match EnabledDisabled::parsed(v) {
            None => Err(
                ErrorView::InvalidValue {
                    url,
                    field: "redir_after_boot"@,
                    err: "Invalid EnabledDisabled value: "@ + v,
                },
            ),
            Some(EnabledDisabled::Enabled) => Ok((true, false)),
            Some(EnabledDisabled::Disabled) => Ok((false, true)),
        },
    }
}

/// Whether a setting that is there has the value `wanted`.
pub open spec fn unless_other(value: Option<Seq<char>>, wanted: Seq<char>) -> bool {
    value matches Some(v) ==> v == wanted
}

/// Whether a setting that is there has the value `wanted`.
fn absent_or(value: &Option<String>, wanted: &str) -> (r: bool)
    ensures
        r == unless_other(value.deep_view(), wanted@),
{
    match value {
        Some(v) => same(v.as_str(), wanted),
        None => true,
    }
}

/// Whether the serial console may be on, by the settings of the BIOS, and whether
/// it may be off. A setting that the machine does not have counts neither for nor
/// against.
pub open spec fn serial_reading(b: BiosSerial, url: Seq<char>) -> Result<(bool, bool), ErrorView> {
    match serial_comm_reading(b.serial_comm.deep_view(), url) {
        Err(e) => Err(e),
        Ok((comm_on, comm_off)) => match redir_reading(b.redir_after_boot.deep_view(), url) {
            Err(e) => Err(e),
            Ok((redir_on, redir_off)) => {
                let address = b.serial_port_address.deep_view();
                let enabled = comm_on && redir_on && (unless_other(
                    address,
                    SerialPortSettings::Com1.text(),
                ) || unless_other(address, SerialPortSettings::Serial1Com2Serial2Com1.text()))
                    && unless_other(
                    b.ext_serial_connector.deep_view(),
                    SerialPortExtSettings::Serial1.text(),
                ) && unless_other(b.fail_safe_baud.deep_view(), "115200"@) && unless_other(
                    b.con_term_type.deep_view(),
                    SerialPortTermSettings::Vt100Vt220.text(),
                );
                Ok((enabled, comm_off && redir_off))
            },
        },
    }
}

/// Whether the BIOS is set up for a serial console.
pub open spec fn bios_serial_report(b: BiosSerial, url: Seq<char>) -> Result<
    StatusView,
    ErrorView,
> {
    match serial_reading(b, url) {
        Err(e) => Err(e),
        Ok((enabled, disabled)) => Ok(
            Report {
                message: setting_text("serial_comm"@, b.serial_comm.deep_view()) + setting_text(
                    "redir_after_boot"@,
                    b.redir_after_boot.deep_view(),
                ) + setting_text("serial_port_address"@, b.serial_port_address.deep_view())
                    + setting_text("ext_serial_connector"@, b.ext_serial_connector.deep_view())
                    + setting_text("fail_safe_baud"@, b.fail_safe_baud.deep_view())
                    + setting_text("con_term_type"@, b.con_term_type.deep_view()),
                status: status_of(enabled, disabled),
            },
        ),
    }
}

/// Whether the BIOS is set up for a serial console.
pub fn bios_serial_status(b: &BiosSerial, url: &str) -> (r: Result<Status, RedfishError>)
    ensures
        outcome(r) == bios_serial_report(*b, url@),
{
    let mut enabled = true;
    let mut disabled = true;
    let mut message = setting_line("serial_comm", &b.serial_comm);
    if let Some(v) = &b.serial_comm {
        match SerialCommSettings::parse(v.as_str()) {
            None => {
                let err = cat2("Invalid SerialCommSettings value: ", v.as_str());
                return Err(invalid_value(url, "serial_comm", err.as_str()));
            },
            Some(SerialCommSettings::Off) => {
                enabled = false;
            },
            Some(SerialCommSettings::OnNoConRedir) => {
                // someone messed with it manually
                enabled = false;
                disabled = false;
            },
            Some(_) => {
                disabled = false;
            },
        }
    }
    let line = setting_line("redir_after_boot", &b.redir_after_boot);
    message.append(line.as_str());
    if let Some(v) = &b.redir_after_boot {
        match EnabledDisabled::parse(v.as_str()) {
            None => {
                let err = cat2("Invalid EnabledDisabled value: ", v.as_str());
                return Err(invalid_value(url, "redir_after_boot", err.as_str()));
            },
            Some(EnabledDisabled::Enabled) => {
                disabled = false;
            },
            Some(EnabledDisabled::Disabled) => {
                enabled = false;
            },
        }
    }
    // All of these need a specific value for serial console access to work.
    // Any other value counts as correctly disabled.
    let line = setting_line("serial_port_address", &b.serial_port_address);
    message.append(line.as_str());
    if !absent_or(&b.serial_port_address, SerialPortSettings::Com1.name()) && !absent_or(
        &b.serial_port_address,
        SerialPortSettings::Serial1Com2Serial2Com1.name(),
    ) {
        enabled = false;
    }
    let line = setting_line("ext_serial_connector", &b.ext_serial_connector);
    message.append(line.as_str());
    if !absent_or(&b.ext_serial_connector, SerialPortExtSettings::Serial1.name()) {
        enabled = false;
    }
    let line = setting_line("fail_safe_baud", &b.fail_safe_baud);
    message.append(line.as_str());
    if !absent_or(&b.fail_safe_baud, "115200") {
        enabled = false;
    }
    let line = setting_line("con_term_type", &b.con_term_type);
    message.append(line.as_str());
    if !absent_or(&b.con_term_type, SerialPortTermSettings::Vt100Vt220.name()) {
        enabled = false;
    }
    Ok(Report { message, status: overall_status(enabled, disabled) })
}

/// Whether the BMC is locked: system lockdown on and `racadm` off. It is unlocked
/// where both are the other way round.
pub open spec fn lockdown_report(attrs: ObjectView, url: Seq<char>) -> Result<
    StatusView,
    ErrorView,
> {
    match text_of(attrs, "Lockdown.1.SystemLockdown"@, url) {
        Err(e) => Err(e),
        Ok(lockdown) => match text_of(attrs, "Racadm.1.Enable"@, url) {
            Err(e) => Err(e),
            Ok(racadm) => Ok(
                Report {
                    message: "BMC: system_lockdown="@ + lockdown + ", racadm="@ + racadm + "."@,
                    status: status_of(
                        lockdown == "Enabled"@ && racadm == "Disabled"@,
                        lockdown == "Disabled"@ && racadm == "Enabled"@,
                    ),
                },
            ),
        },
    }
}

/// Whether the BMC is locked.
pub fn lockdown_status_of(attrs: &Object, url: &str) -> (r: Result<Status, RedfishError>)
    ensures
        outcome(r) == lockdown_report(attrs@, url@),
{
    let lockdown = get_str(attrs, "Lockdown.1.SystemLockdown", url)?;
    let racadm = get_str(attrs, "Racadm.1.Enable", url)?;
    let message = cat5("BMC: system_lockdown=", lockdown, ", racadm=", racadm, ".");
    let locked = same(lockdown, "Enabled") && same(racadm, "Disabled");
    let unlocked = same(lockdown, "Disabled") && same(racadm, "Enabled");
    Ok(Report { message, status: overall_status(locked, unlocked) })
}

} // verus!
