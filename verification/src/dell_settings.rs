//! What Dell machines call their settings, and the bodies that change them.
use crate::json::{JsonView, Object, ObjectView};
use crate::model::{EnabledDisabled, OnOff};
use crate::text::same;
use vstd::prelude::*;
use vstd::string::*;

verus! {

/// When a change takes effect.
#[derive(Clone, Copy, Debug, PartialEq, Eq, Structural)]
pub enum RedfishSettingsApplyTime {
    Immediate,
    OnReset,
}

impl RedfishSettingsApplyTime {
    /// The name as it stands in documents.
    pub open spec fn text(self) -> Seq<char> {
        match self {
            RedfishSettingsApplyTime::Immediate => "Immediate"@,
            RedfishSettingsApplyTime::OnReset => "OnReset"@,
        }
    }

    /// The name as it stands in documents.
    pub fn name(&self) -> (r: &'static str)
        ensures
            r@ == self.text(),
    {
        match self {
            RedfishSettingsApplyTime::Immediate => "Immediate",
            RedfishSettingsApplyTime::OnReset => "OnReset",
        }
    }
}

/// What a Dell machine can be told to boot from first.
#[derive(Clone, Copy, Debug, PartialEq, Eq, Structural)]
pub enum BootDevices {
    Normal,
    PXE,
    HDD,
    UefiHttp,
}

impl BootDevices {
    /// The name as it stands in documents.
    pub open spec fn text(self) -> Seq<char> {
        match self {
            BootDevices::Normal => "Normal"@,
            BootDevices::PXE => "PXE"@,
            BootDevices::HDD => "HDD"@,
            BootDevices::UefiHttp => "UefiHttp"@,
        }
    }

    /// The name as it stands in documents.
    pub fn name(&self) -> (r: &'static str)
        ensures
            r@ == self.text(),
    {
        match self {
            BootDevices::Normal => "Normal",
            BootDevices::PXE => "PXE",
            BootDevices::HDD => "HDD",
            BootDevices::UefiHttp => "UefiHttp",
        }
    }
}

/// Whether the host may change UEFI variables.
#[derive(Clone, Copy, Debug, PartialEq, Eq, Structural)]
pub enum UefiVariableAccessSettings {
    Standard,
    Controlled,
}

impl UefiVariableAccessSettings {
    /// The name as it stands in documents.
    pub open spec fn text(self) -> Seq<char> {
        match self {
            UefiVariableAccessSettings::Standard => "Standard"@,
            UefiVariableAccessSettings::Controlled => "Controlled"@,
        }
    }

    /// The name as it stands in documents.
    pub fn name(&self) -> (r: &'static str)
        ensures
            r@ == self.text(),
    {
        match self {
            UefiVariableAccessSettings::Standard => "Standard",
            UefiVariableAccessSettings::Controlled => "Controlled",
        }
    }

    /// The value that a name stands for.
    pub open spec fn parsed(s: Seq<char>) -> Option<UefiVariableAccessSettings> {
        if s == "Standard"@ {
            Some(UefiVariableAccessSettings::Standard)
        } else if s == "Controlled"@ {
            Some(UefiVariableAccessSettings::Controlled)
        } else {
            None
        }
    }

    /// The value that a name stands for.
    pub fn parse(s: &str) -> (r: Option<UefiVariableAccessSettings>)
        ensures
            r == UefiVariableAccessSettings::parsed(s@),
    {
        if same(s, "Standard") {
            Some(UefiVariableAccessSettings::Standard)
        } else if same(s, "Controlled") {
            Some(UefiVariableAccessSettings::Controlled)
        } else {
            None
        }
    }
}

/// Where the serial console goes.
#[derive(Clone, Copy, Debug, PartialEq, Eq, Structural)]
pub enum SerialCommSettings {
    OnConRedir,
    OnConRedirAuto,
    OnConRedirCom1,
    OnConRedirCom2,
    OnNoConRedir,
    Off,
}

impl SerialCommSettings {
    /// The name as it stands in documents.
    pub open spec fn text(self) -> Seq<char> {
        match self {
            SerialCommSettings::OnConRedir => "OnConRedir"@,
            SerialCommSettings::OnConRedirAuto => "OnConRedirAuto"@,
            SerialCommSettings::OnConRedirCom1 => "OnConRedirCom1"@,
            SerialCommSettings::OnConRedirCom2 => "OnConRedirCom2"@,
            SerialCommSettings::OnNoConRedir => "OnNoConRedir"@,
            SerialCommSettings::Off => "Off"@,
        }
    }

    /// The name as it stands in documents.
    pub fn name(&self) -> (r: &'static str)
        ensures
            r@ == self.text(),
    {
        match self {
            SerialCommSettings::OnConRedir => "OnConRedir",
            SerialCommSettings::OnConRedirAuto => "OnConRedirAuto",
            SerialCommSettings::OnConRedirCom1 => "OnConRedirCom1",
            SerialCommSettings::OnConRedirCom2 => "OnConRedirCom2",
            SerialCommSettings::OnNoConRedir => "OnNoConRedir",
            SerialCommSettings::Off => "Off",
        }
    }

    /// The value that a name stands for.
    pub open spec fn parsed(s: Seq<char>) -> Option<SerialCommSettings> {
        if s == "OnConRedir"@ {
            Some(SerialCommSettings::OnConRedir)
        } else if s == "OnConRedirAuto"@ {
            Some(SerialCommSettings::OnConRedirAuto)
        } else if s == "OnConRedirCom1"@ {
            Some(SerialCommSettings::OnConRedirCom1)
        } else if s == "OnConRedirCom2"@ {
            Some(SerialCommSettings::OnConRedirCom2)
        } else if s == "OnNoConRedir"@ {
            Some(SerialCommSettings::OnNoConRedir)
        } else if s == "Off"@ {
            Some(SerialCommSettings::Off)
        } else {
            None
        }
    }

    /// The value that a name stands for.
    pub fn parse(s: &str) -> (r: Option<SerialCommSettings>)
        ensures
            r == SerialCommSettings::parsed(s@),
    {
        if same(s, "OnConRedir") {
            Some(SerialCommSettings::OnConRedir)
        } else if same(s, "OnConRedirAuto") {
            Some(SerialCommSettings::OnConRedirAuto)
        } else if same(s, "OnConRedirCom1") {
            Some(SerialCommSettings::OnConRedirCom1)
        } else if same(s, "OnConRedirCom2") {
            Some(SerialCommSettings::OnConRedirCom2)
        } else if same(s, "OnNoConRedir") {
            Some(SerialCommSettings::OnNoConRedir)
        } else if same(s, "Off") {
            Some(SerialCommSettings::Off)
        } else {
            None
        }
    }
}

/// How the serial ports are numbered.
#[derive(Clone, Copy, Debug, PartialEq, Eq, Structural)]
pub enum SerialPortSettings {
    Com1,
    Com2,
    Serial1Com1Serial2Com2,
    Serial1Com2Serial2Com1,
}

impl SerialPortSettings {
    /// The name as it stands in documents.
    pub open spec fn text(self) -> Seq<char> {
        match self {
            SerialPortSettings::Com1 => "Com1"@,
            SerialPortSettings::Com2 => "Com2"@,
            SerialPortSettings::Serial1Com1Serial2Com2 => "Serial1Com1Serial2Com2"@,
            SerialPortSettings::Serial1Com2Serial2Com1 => "Serial1Com2Serial2Com1"@,
        }
    }

    /// The name as it stands in documents.
    pub fn name(&self) -> (r: &'static str)
        ensures
            r@ == self.text(),
    {
        match self {
            SerialPortSettings::Com1 => "Com1",
            SerialPortSettings::Com2 => "Com2",
            SerialPortSettings::Serial1Com1Serial2Com2 => "Serial1Com1Serial2Com2",
            SerialPortSettings::Serial1Com2Serial2Com1 => "Serial1Com2Serial2Com1",
        }
    }

    /// The value that a name stands for.
    pub open spec fn parsed(s: Seq<char>) -> Option<SerialPortSettings> {
        if s == "Com1"@ {
            Some(SerialPortSettings::Com1)
        } else if s == "Com2"@ {
            Some(SerialPortSettings::Com2)
        } else if s == "Serial1Com1Serial2Com2"@ {
            Some(SerialPortSettings::Serial1Com1Serial2Com2)
        } else if s == "Serial1Com2Serial2Com1"@ {
            Some(SerialPortSettings::Serial1Com2Serial2Com1)
        } else {
            None
        }
    }

    /// The value that a name stands for.
    pub fn parse(s: &str) -> (r: Option<SerialPortSettings>)
        ensures
            r == SerialPortSettings::parsed(s@),
    {
        if same(s, "Com1") {
            Some(SerialPortSettings::Com1)
        } else if same(s, "Com2") {
            Some(SerialPortSettings::Com2)
        } else if same(s, "Serial1Com1Serial2Com2") {
            Some(SerialPortSettings::Serial1Com1Serial2Com2)
        } else if same(s, "Serial1Com2Serial2Com1") {
            Some(SerialPortSettings::Serial1Com2Serial2Com1)
        } else {
            None
        }
    }
}

/// What the external serial connector is wired to.
#[derive(Clone, Copy, Debug, PartialEq, Eq, Structural)]
pub enum SerialPortExtSettings {
    Serial1,
    Serial2,
    RemoteAccDevice,
}

impl SerialPortExtSettings {
    /// The name as it stands in documents.
    pub open spec fn text(self) -> Seq<char> {
        match self {
            SerialPortExtSettings::Serial1 => "Serial1"@,
            SerialPortExtSettings::Serial2 => "Serial2"@,
            SerialPortExtSettings::RemoteAccDevice => "RemoteAccDevice"@,
        }
    }

    /// The name as it stands in documents.
    pub fn name(&self) -> (r: &'static str)
        ensures
            r@ == self.text(),
    {
        match self {
            SerialPortExtSettings::Serial1 => "Serial1",
            SerialPortExtSettings::Serial2 => "Serial2",
            SerialPortExtSettings::RemoteAccDevice => "RemoteAccDevice",
        }
    }
}

/// Which terminal the serial console talks to.
#[derive(Clone, Copy, Debug, PartialEq, Eq, Structural)]
pub enum SerialPortTermSettings {
    Vt100Vt220,
    Ansi,
}

impl SerialPortTermSettings {
    /// The name as it stands in documents.
    pub open spec fn text(self) -> Seq<char> {
        match self {
            SerialPortTermSettings::Vt100Vt220 => "Vt100Vt220"@,
            SerialPortTermSettings::Ansi => "Ansi"@,
        }
    }

    /// The name as it stands in documents.
    pub fn name(&self) -> (r: &'static str)
        ensures
            r@ == self.text(),
    {
        match self {
            SerialPortTermSettings::Vt100Vt220 => "Vt100Vt220",
            SerialPortTermSettings::Ansi => "Ansi",
        }
    }

    /// The value that a name stands for.
    pub open spec fn parsed(s: Seq<char>) -> Option<SerialPortTermSettings> {
        if s == "Vt100Vt220"@ {
            Some(SerialPortTermSettings::Vt100Vt220)
        } else if s == "Ansi"@ {
            Some(SerialPortTermSettings::Ansi)
        } else {
            None
        }
    }

    /// The value that a name stands for.
    pub fn parse(s: &str) -> (r: Option<SerialPortTermSettings>)
        ensures
            r == SerialPortTermSettings::parsed(s@),
    {
        if same(s, "Vt100Vt220") {
            Some(SerialPortTermSettings::Vt100Vt220)
        } else if same(s, "Ansi") {
            Some(SerialPortTermSettings::Ansi)
        } else {
            None
        }
    }
}

/// What to do with the TPM's hierarchies.
#[derive(Clone, Copy, Debug, PartialEq, Eq, Structural)]
pub enum Tpm2HierarchySettings {
    Enabled,
    Clear,
    Disabled,
}

impl Tpm2HierarchySettings {
    /// The name as it stands in documents.
    pub open spec fn text(self) -> Seq<char> {
        match self {
            Tpm2HierarchySettings::Enabled => "Enabled"@,
            Tpm2HierarchySettings::Clear => "Clear"@,
            Tpm2HierarchySettings::Disabled => "Disabled"@,
        }
    }

    /// The name as it stands in documents.
    pub fn name(&self) -> (r: &'static str)
        ensures
            r@ == self.text(),
    {
        match self {
            Tpm2HierarchySettings::Enabled => "Enabled",
            Tpm2HierarchySettings::Clear => "Clear",
            Tpm2HierarchySettings::Disabled => "Disabled",
        }
    }

    /// The value that a name stands for.
    pub open spec fn parsed(s: Seq<char>) -> Option<Tpm2HierarchySettings> {
        if s == "Enabled"@ {
            Some(Tpm2HierarchySettings::Enabled)
        } else if s == "Clear"@ {
            Some(Tpm2HierarchySettings::Clear)
        } else if s == "Disabled"@ {
            Some(Tpm2HierarchySettings::Disabled)
        } else {
            None
        }
    }

    /// The value that a name stands for.
    pub fn parse(s: &str) -> (r: Option<Tpm2HierarchySettings>)
        ensures
            r == Tpm2HierarchySettings::parsed(s@),
    {
        if same(s, "Enabled") {
            Some(Tpm2HierarchySettings::Enabled)
        } else if same(s, "Clear") {
            Some(Tpm2HierarchySettings::Clear)
        } else if same(s, "Disabled") {
            Some(Tpm2HierarchySettings::Disabled)
        } else {
            None
        }
    }
}

/// The TPM's hash function.
#[derive(Clone, Copy, Debug, PartialEq, Eq, Structural)]
pub enum Tpm2Algorithm {
    SHA1,
    SHA256,
    SHA384,
    SHA512,
    SM3,
}

impl Tpm2Algorithm {
    /// The name as it stands in documents.
    pub open spec fn text(self) -> Seq<char> {
        match self {
            Tpm2Algorithm::SHA1 => "SHA1"@,
            Tpm2Algorithm::SHA256 => "SHA256"@,
            Tpm2Algorithm::SHA384 => "SHA384"@,
            Tpm2Algorithm::SHA512 => "SHA512"@,
            Tpm2Algorithm::SM3 => "SM3"@,
        }
    }

    /// The name as it stands in documents.
    pub fn name(&self) -> (r: &'static str)
        ensures
            r@ == self.text(),
    {
        match self {
            Tpm2Algorithm::SHA1 => "SHA1",
            Tpm2Algorithm::SHA256 => "SHA256",
            Tpm2Algorithm::SHA384 => "SHA384",
            Tpm2Algorithm::SHA512 => "SHA512",
            Tpm2Algorithm::SM3 => "SM3",
        }
    }

    /// The value that a name stands for.
    pub open spec fn parsed(s: Seq<char>) -> Option<Tpm2Algorithm> {
        if s == "SHA1"@ {
            Some(Tpm2Algorithm::SHA1)
        } else if s == "SHA256"@ {
            Some(Tpm2Algorithm::SHA256)
        } else if s == "SHA384"@ {
            Some(Tpm2Algorithm::SHA384)
        } else if s == "SHA512"@ {
            Some(Tpm2Algorithm::SHA512)
        } else if s == "SM3"@ {
            Some(Tpm2Algorithm::SM3)
        } else {
            None
        }
    }

    /// The value that a name stands for.
    pub fn parse(s: &str) -> (r: Option<Tpm2Algorithm>)
        ensures
            r == Tpm2Algorithm::parsed(s@),
    {
        if same(s, "SHA1") {
            Some(Tpm2Algorithm::SHA1)
        } else if same(s, "SHA256") {
            Some(Tpm2Algorithm::SHA256)
        } else if same(s, "SHA384") {
            Some(Tpm2Algorithm::SHA384)
        } else if same(s, "SHA512") {
            Some(Tpm2Algorithm::SHA512)
        } else if same(s, "SM3") {
            Some(Tpm2Algorithm::SM3)
        } else {
            None
        }
    }
}

/// Whether HTTP boot uses TLS.
#[derive(Clone, Copy, Debug, PartialEq, Eq, Structural)]
pub enum TlsMode {
    NoTls,
    OneWay,
}

impl TlsMode {
    /// The name as it stands in documents.
    pub open spec fn text(self) -> Seq<char> {
        match self {
            TlsMode::NoTls => "None"@,
            TlsMode::OneWay => "OneWay"@,
        }
    }

    /// The name as it stands in documents.
    pub fn name(&self) -> (r: &'static str)
        ensures
            r@ == self.text(),
    {
        match self {
            TlsMode::NoTls => "None",
            TlsMode::OneWay => "OneWay",
        }
    }
}

/// A body that sets `attributes`, to take effect at `time`.
pub open spec fn settings_at(time: RedfishSettingsApplyTime, attributes: ObjectView) -> ObjectView {
    seq![
        (
            "@Redfish.SettingsApplyTime"@,
            JsonView::Object(seq![("ApplyTime"@, JsonView::Text(time.text()))]),
        ),
        ("Attributes"@, JsonView::Object(attributes)),
    ]
}

/// A body that sets `attributes`, to take effect at `time`.
pub fn settings(time: RedfishSettingsApplyTime, attributes: Object) -> (r: Object)
    ensures
        r@ == settings_at(time, attributes@),
{
    Object::new().with(
        "@Redfish.SettingsApplyTime",
        Object::new().with_text("ApplyTime", time.name()).into_json(),
    ).with("Attributes", attributes.into_json())
}

/// A body with `attributes` alone.
pub open spec fn attributes_only(attributes: ObjectView) -> ObjectView {
    seq![("Attributes"@, JsonView::Object(attributes))]
}

/// A body with `attributes` alone.
pub fn only_attributes(attributes: Object) -> (r: Object)
    ensures
        r@ == attributes_only(attributes@),
{
    Object::new().with("Attributes", attributes.into_json())
}

/// The attributes that make a machine boot from `entry` first, once or always.
pub open spec fn server_boot(entry: BootDevices, once: EnabledDisabled) -> ObjectView {
    seq![
        ("ServerBoot.1.FirstBootDevice"@, JsonView::Text(entry.text())),
        ("ServerBoot.1.BootOnce"@, JsonView::Text(once.text())),
    ]
}

/// `o` followed by the attributes that make a machine boot from `entry` first.
pub fn with_server_boot(o: Object, entry: BootDevices, once: EnabledDisabled) -> (r: Object)
    ensures
        r@ == o@ + server_boot(entry, once),
{
    let ghost before = o@;
    let r = o.with_text("ServerBoot.1.FirstBootDevice", entry.name()).with_text(
        "ServerBoot.1.BootOnce",
        once.name(),
    );
    assert(r@ =~= before + server_boot(entry, once));
    r
}

/// The serial console attributes of a machine whose serial ports are numbered in
/// the newer way, or in the older.
pub open spec fn serial_port(newer: bool) -> SerialPortSettings {
    if newer {
        SerialPortSettings::Serial1Com2Serial2Com1
    } else {
        SerialPortSettings::Com1
    }
}

/// Where the serial console of a machine goes, whose serial ports are numbered in
/// the newer way, or in the older.
pub open spec fn serial_comm(newer: bool) -> SerialCommSettings {
    if newer {
        SerialCommSettings::OnConRedirAuto
    } else {
        SerialCommSettings::OnConRedir
    }
}

/// The BIOS attributes of a machine that is set up, with text held as `S`.
#[derive(Debug, PartialEq, Eq)]
pub struct BiosAttrs<S> {
    pub in_band_manageability_interface: EnabledDisabled,
    pub uefi_variable_access: UefiVariableAccessSettings,
    pub serial_comm: SerialCommSettings,
    pub serial_port_address: SerialPortSettings,
    pub fail_safe_baud: S,
    pub con_term_type: SerialPortTermSettings,
    pub redir_after_boot: Option<EnabledDisabled>,
    pub sriov_global_enable: EnabledDisabled,
    pub tpm_security: OnOff,
    pub tpm2_hierarchy: Tpm2HierarchySettings,
    pub tpm2_algorithm: Tpm2Algorithm,
    pub http_device_1_enabled_disabled: EnabledDisabled,
    pub pxe_device_1_enabled_disabled: EnabledDisabled,
    pub boot_mode: Option<S>,
    pub http_device_1_interface: S,
    pub set_boot_order_en: S,
    pub http_device_1_tls_mode: TlsMode,
    pub set_boot_order_dis: S,
}

/// The BIOS attributes of a machine that is set up.
pub type MachineBiosAttrs = BiosAttrs<String>;

impl DeepView for BiosAttrs<String> {
    type V = BiosAttrs<Seq<char>>;

    open spec fn deep_view(&self) -> BiosAttrs<Seq<char>> {
        BiosAttrs {
            in_band_manageability_interface: self.in_band_manageability_interface,
            uefi_variable_access: self.uefi_variable_access,
            serial_comm: self.serial_comm,
            serial_port_address: self.serial_port_address,
            fail_safe_baud: self.fail_safe_baud@,
            con_term_type: self.con_term_type,
            redir_after_boot: self.redir_after_boot,
            sriov_global_enable: self.sriov_global_enable,
            tpm_security: self.tpm_security,
            tpm2_hierarchy: self.tpm2_hierarchy,
            tpm2_algorithm: self.tpm2_algorithm,
            http_device_1_enabled_disabled: self.http_device_1_enabled_disabled,
            pxe_device_1_enabled_disabled: self.pxe_device_1_enabled_disabled,
            boot_mode: self.boot_mode.deep_view(),
            http_device_1_interface: self.http_device_1_interface@,
            set_boot_order_en: self.set_boot_order_en@,
            http_device_1_tls_mode: self.http_device_1_tls_mode,
            set_boot_order_dis: self.set_boot_order_dis@,
        }
    }
}

/// One attribute with a value that has a name.
pub open spec fn named(key: Seq<char>, value: Seq<char>) -> (Seq<char>, JsonView) {
    (key, JsonView::Text(value))
}

/// One attribute, where there is a value for it.
pub open spec fn optional(key: Seq<char>, value: Option<Seq<char>>) -> ObjectView {
    match value {
        Some(v) => seq![named(key, v)],
        None => Seq::empty(),
    }
}

/// The attributes as an object. One that has no value is left out.
pub open spec fn bios_object(a: BiosAttrs<Seq<char>>) -> ObjectView {
    seq![
        named("InBandManageabilityInterface"@, a.in_band_manageability_interface.text()),
        named("UefiVariableAccess"@, a.uefi_variable_access.text()),
        named("SerialComm"@, a.serial_comm.text()),
        named("SerialPortAddress"@, a.serial_port_address.text()),
        named("FailSafeBaud"@, a.fail_safe_baud),
        named("ConTermType"@, a.con_term_type.text()),
    ] + optional(
        "RedirAfterBoot"@,
        match a.redir_after_boot {
            Some(v) => Some(v.text()),
            None => None,
        },
    ) + seq![
        named("SriovGlobalEnable"@, a.sriov_global_enable.text()),
        named("TpmSecurity"@, a.tpm_security.text()),
        named("Tpm2Hierarchy"@, a.tpm2_hierarchy.text()),
        named("Tpm2Algorithm"@, a.tpm2_algorithm.text()),
        named("HttpDev1EnDis"@, a.http_device_1_enabled_disabled.text()),
        named("PxeDev1EnDis"@, a.pxe_device_1_enabled_disabled.text()),
    ] + optional("BootMode"@, a.boot_mode) + seq![
        named("HttpDev1Interface"@, a.http_device_1_interface),
        named("SetBootOrderEn"@, a.set_boot_order_en),
        named("HttpDev1TlsMode"@, a.http_device_1_tls_mode.text()),
        named("SetBootOrderDis"@, a.set_boot_order_dis),
    ]
}

impl BiosAttrs<String> {
    /// The attributes as an object. One that has no value is left out.
    pub fn to_object(&self) -> (r: Object)
        ensures
            r@ == bios_object(self.deep_view()),
    {
        let mut o = Object::new();
        o = o.with_text("InBandManageabilityInterface", self.in_band_manageability_interface.name());
        o = o.with_text("UefiVariableAccess", self.uefi_variable_access.name());
        o = o.with_text("SerialComm", self.serial_comm.name());
        o = o.with_text("SerialPortAddress", self.serial_port_address.name());
        o = o.with_text("FailSafeBaud", self.fail_safe_baud.as_str());
        o = o.with_text("ConTermType", self.con_term_type.name());
        if let Some(v) = self.redir_after_boot {
            o = o.with_text("RedirAfterBoot", v.name());
        }
        o = o.with_text("SriovGlobalEnable", self.sriov_global_enable.name());
        o = o.with_text("TpmSecurity", self.tpm_security.name());
        o = o.with_text("Tpm2Hierarchy", self.tpm2_hierarchy.name());
        o = o.with_text("Tpm2Algorithm", self.tpm2_algorithm.name());
        o = o.with_text("HttpDev1EnDis", self.http_device_1_enabled_disabled.name());
        o = o.with_text("PxeDev1EnDis", self.pxe_device_1_enabled_disabled.name());
        if let Some(v) = &self.boot_mode {
            o = o.with_text("BootMode", v.as_str());
        }
        o = o.with_text("HttpDev1Interface", self.http_device_1_interface.as_str());
        o = o.with_text("SetBootOrderEn", self.set_boot_order_en.as_str());
        o = o.with_text("HttpDev1TlsMode", self.http_device_1_tls_mode.name());
        o = o.with_text("SetBootOrderDis", self.set_boot_order_dis.as_str());
        assert(o@ =~= bios_object(self.deep_view()));
        o
    }
}

} // verus!
