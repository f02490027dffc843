//! The values that operations take and give, and the parts of Redfish documents
//! that they look at.
use crate::json::{lookup, Json, Object, ObjectView};
use crate::order::Named;
use crate::text::{after_last, last_segment, lower, same, same_ignore_case};
use vstd::prelude::*;
use vstd::string::*;

verus! {

/// A switch, written `Enabled` or `Disabled`.
#[derive(Clone, Copy, Debug, PartialEq, Eq, Structural)]
pub enum EnabledDisabled {
    Enabled,
    Disabled,
}

impl EnabledDisabled {
    /// The name as it stands in documents.
    pub open spec fn text(self) -> Seq<char> {
        match self {
            EnabledDisabled::Enabled => "Enabled"@,
            EnabledDisabled::Disabled => "Disabled"@,
        }
    }

    /// The name as it stands in documents.
    pub fn name(&self) -> (r: &'static str)
        ensures
            r@ == self.text(),
    {
        match self {
            EnabledDisabled::Enabled => "Enabled",
            EnabledDisabled::Disabled => "Disabled",
        }
    }

    /// The value that a name stands for.
    pub open spec fn parsed(s: Seq<char>) -> Option<EnabledDisabled> {
        if s == "Enabled"@ {
            Some(EnabledDisabled::Enabled)
        } else if s == "Disabled"@ {
            Some(EnabledDisabled::Disabled)
        } else {
            None
        }
    }

    /// The value that a name stands for.
    pub fn parse(s: &str) -> (r: Option<EnabledDisabled>)
        ensures
            r == EnabledDisabled::parsed(s@),
    {
        if same(s, "Enabled") {
            Some(EnabledDisabled::Enabled)
        } else if same(s, "Disabled") {
            Some(EnabledDisabled::Disabled)
        } else {
            None
        }
    }
}

impl EnabledDisabled {
    /// Whether the switch is on.
    pub fn is_enabled(&self) -> (r: bool)
        ensures
            r == (*self == EnabledDisabled::Enabled),
    {
        match self {
            EnabledDisabled::Enabled => true,
            EnabledDisabled::Disabled => false,
        }
    }
}

/// A switch, written `Enable` or `Disable`.
#[derive(Clone, Copy, Debug, PartialEq, Eq, Structural)]
pub enum EnableDisable {
    Enable,
    Disable,
}

impl EnableDisable {
    /// The name as it stands in documents.
    pub open spec fn text(self) -> Seq<char> {
        match self {
            EnableDisable::Enable => "Enable"@,
            EnableDisable::Disable => "Disable"@,
        }
    }

    /// The name as it stands in documents.
    pub fn name(&self) -> (r: &'static str)
        ensures
            r@ == self.text(),
    {
        match self {
            EnableDisable::Enable => "Enable",
            EnableDisable::Disable => "Disable",
        }
    }
}

/// A switch, written `On` or `Off`.
#[derive(Clone, Copy, Debug, PartialEq, Eq, Structural)]
pub enum OnOff {
    On,
    Off,
}

impl OnOff {
    /// The name as it stands in documents.
    pub open spec fn text(self) -> Seq<char> {
        match self {
            OnOff::On => "On"@,
            OnOff::Off => "Off"@,
        }
    }

    /// The name as it stands in documents.
    pub fn name(&self) -> (r: &'static str)
        ensures
            r@ == self.text(),
    {
        match self {
            OnOff::On => "On",
            OnOff::Off => "Off",
        }
    }

    /// The value that a name stands for.
    pub open spec fn parsed(s: Seq<char>) -> Option<OnOff> {
        if s == "On"@ {
            Some(OnOff::On)
        } else if s == "Off"@ {
            Some(OnOff::Off)
        } else {
            None
        }
    }

    /// The value that a name stands for.
    pub fn parse(s: &str) -> (r: Option<OnOff>)
        ensures
            r == OnOff::parsed(s@),
    {
        if same(s, "On") {
            Some(OnOff::On)
        } else if same(s, "Off") {
            Some(OnOff::Off)
        } else {
            None
        }
    }
}

/// How far a feature is set up.
#[derive(Clone, Copy, Debug, PartialEq, Eq, Structural)]
pub enum StatusInternal {
    Enabled,
    Partial,
    Disabled,
}

impl StatusInternal {
    /// The name as it stands in documents.
    pub open spec fn text(self) -> Seq<char> {
        match self {
            StatusInternal::Enabled => "Enabled"@,
            StatusInternal::Partial => "Partial"@,
            StatusInternal::Disabled => "Disabled"@,
        }
    }

    /// The name as it stands in documents.
    pub fn name(&self) -> (r: &'static str)
        ensures
            r@ == self.text(),
    {
        match self {
            StatusInternal::Enabled => "Enabled",
            StatusInternal::Partial => "Partial",
            StatusInternal::Disabled => "Disabled",
        }
    }
}

/// Whether a machine is powered.
#[derive(Clone, Copy, Debug, PartialEq, Eq, Structural)]
pub enum PowerState {
    Off,
    On,
    PoweringOff,
    PoweringOn,
    Paused,
    Reset,
    Unknown,
}

impl PowerState {
    /// The name as it stands in documents.
    pub open spec fn text(self) -> Seq<char> {
        match self {
            PowerState::Off => "Off"@,
            PowerState::On => "On"@,
            PowerState::PoweringOff => "PoweringOff"@,
            PowerState::PoweringOn => "PoweringOn"@,
            PowerState::Paused => "Paused"@,
            PowerState::Reset => "Reset"@,
            PowerState::Unknown => "Unknown"@,
        }
    }

    /// The name as it stands in documents.
    pub fn name(&self) -> (r: &'static str)
        ensures
            r@ == self.text(),
    {
        match self {
            PowerState::Off => "Off",
            PowerState::On => "On",
            PowerState::PoweringOff => "PoweringOff",
            PowerState::PoweringOn => "PoweringOn",
            PowerState::Paused => "Paused",
            PowerState::Reset => "Reset",
            PowerState::Unknown => "Unknown",
        }
    }
}

impl DeepView for PowerState {
    type V = PowerState;

    open spec fn deep_view(&self) -> PowerState {
        *self
    }
}

/// What to do with a machine's power.
#[derive(Clone, Copy, Debug, PartialEq, Eq, Structural)]
pub enum SystemPowerControl {
    On,
    GracefulShutdown,
    ForceOff,
    GracefulRestart,
    ForceRestart,
    ACPowercycle,
    PowerCycle,
}

impl SystemPowerControl {
    /// The name as it stands in documents.
    pub open spec fn text(self) -> Seq<char> {
        match self {
            SystemPowerControl::On => "On"@,
            SystemPowerControl::GracefulShutdown => "GracefulShutdown"@,
            SystemPowerControl::ForceOff => "ForceOff"@,
            SystemPowerControl::GracefulRestart => "GracefulRestart"@,
            SystemPowerControl::ForceRestart => "ForceRestart"@,
            SystemPowerControl::ACPowercycle => "ACPowercycle"@,
            SystemPowerControl::PowerCycle => "PowerCycle"@,
        }
    }

    /// The name as it stands in documents.
    pub fn name(&self) -> (r: &'static str)
        ensures
            r@ == self.text(),
    {
        match self {
            SystemPowerControl::On => "On",
            SystemPowerControl::GracefulShutdown => "GracefulShutdown",
            SystemPowerControl::ForceOff => "ForceOff",
            SystemPowerControl::GracefulRestart => "GracefulRestart",
            SystemPowerControl::ForceRestart => "ForceRestart",
            SystemPowerControl::ACPowercycle => "ACPowercycle",
            SystemPowerControl::PowerCycle => "PowerCycle",
        }
    }
}

/// How to restart a BMC.
#[derive(Clone, Copy, Debug, PartialEq, Eq, Structural)]
pub enum ManagerResetType {
    GracefulRestart,
    ForceRestart,
}

impl ManagerResetType {
    /// The name as it stands in documents.
    pub open spec fn text(self) -> Seq<char> {
        match self {
            ManagerResetType::GracefulRestart => "GracefulRestart"@,
            ManagerResetType::ForceRestart => "ForceRestart"@,
        }
    }

    /// The name as it stands in documents.
    pub fn name(&self) -> (r: &'static str)
        ensures
            r@ == self.text(),
    {
        match self {
            ManagerResetType::GracefulRestart => "GracefulRestart",
            ManagerResetType::ForceRestart => "ForceRestart",
        }
    }
}

/// What an account may do.
#[derive(Clone, Copy, Debug, PartialEq, Eq, Structural)]
pub enum RoleId {
    Administrator,
    Operator,
    ReadOnly,
    NoAccess,
}

impl RoleId {
    /// The name as it stands in documents.
    pub open spec fn text(self) -> Seq<char> {
        match self {
            RoleId::Administrator => "Administrator"@,
            RoleId::Operator => "Operator"@,
            RoleId::ReadOnly => "ReadOnly"@,
            RoleId::NoAccess => "NoAccess"@,
        }
    }

    /// The name as it stands in documents.
    pub fn name(&self) -> (r: &'static str)
        ensures
            r@ == self.text(),
    {
        match self {
            RoleId::Administrator => "Administrator",
            RoleId::Operator => "Operator",
            RoleId::ReadOnly => "ReadOnly",
            RoleId::NoAccess => "NoAccess",
        }
    }
}

/// Who made the BMC.
#[derive(Clone, Copy, Debug, PartialEq, Eq, Structural)]
pub enum RedfishVendor {
    AMI,
    Dell,
    Hpe,
    Lenovo,
    LiteOnPowerShelf,
    NvidiaDpu,
    NvidiaGBSwitch,
    NvidiaGBx00,
    NvidiaGH200,
    P3809,
    Supermicro,
    Unknown,
}

impl RedfishVendor {
    /// The name as it stands in documents.
    pub open spec fn text(self) -> Seq<char> {
        match self {
            RedfishVendor::AMI => "AMI"@,
            RedfishVendor::Dell => "Dell"@,
            RedfishVendor::Hpe => "Hpe"@,
            RedfishVendor::Lenovo => "Lenovo"@,
            RedfishVendor::LiteOnPowerShelf => "LiteOnPowerShelf"@,
            RedfishVendor::NvidiaDpu => "NvidiaDpu"@,
            RedfishVendor::NvidiaGBSwitch => "NvidiaGBSwitch"@,
            RedfishVendor::NvidiaGBx00 => "NvidiaGBx00"@,
            RedfishVendor::NvidiaGH200 => "NvidiaGH200"@,
            RedfishVendor::P3809 => "P3809"@,
            RedfishVendor::Supermicro => "Supermicro"@,
            RedfishVendor::Unknown => "Unknown"@,
        }
    }

    /// The name as it stands in documents.
    pub fn name(&self) -> (r: &'static str)
        ensures
            r@ == self.text(),
    {
        match self {
            RedfishVendor::AMI => "AMI",
            RedfishVendor::Dell => "Dell",
            RedfishVendor::Hpe => "Hpe",
            RedfishVendor::Lenovo => "Lenovo",
            RedfishVendor::LiteOnPowerShelf => "LiteOnPowerShelf",
            RedfishVendor::NvidiaDpu => "NvidiaDpu",
            RedfishVendor::NvidiaGBSwitch => "NvidiaGBSwitch",
            RedfishVendor::NvidiaGBx00 => "NvidiaGBx00",
            RedfishVendor::NvidiaGH200 => "NvidiaGH200",
            RedfishVendor::P3809 => "P3809",
            RedfishVendor::Supermicro => "Supermicro",
            RedfishVendor::Unknown => "Unknown",
        }
    }
}

/// Which set of extra BIOS values a caller wants.
#[derive(Clone, Copy, Debug, PartialEq, Eq, Structural)]
pub enum BiosProfileType {
    Performance,
    PowerEfficiency,
}

impl BiosProfileType {
    /// The name as it stands in documents.
    pub open spec fn text(self) -> Seq<char> {
        match self {
            BiosProfileType::Performance => "Performance"@,
            BiosProfileType::PowerEfficiency => "PowerEfficiency"@,
        }
    }

    /// The name as it stands in documents.
    pub fn name(&self) -> (r: &'static str)
        ensures
            r@ == self.text(),
    {
        match self {
            BiosProfileType::Performance => "Performance",
            BiosProfileType::PowerEfficiency => "PowerEfficiency",
        }
    }
}

/// Whether a DPU acts as a plain network card.
#[derive(Clone, Copy, Debug, PartialEq, Eq, Structural)]
pub enum NicMode {
    Dpu,
    Nic,
}

impl NicMode {
    /// The name as it stands in documents.
    pub open spec fn text(self) -> Seq<char> {
        match self {
            NicMode::Dpu => "Dpu"@,
            NicMode::Nic => "Nic"@,
        }
    }

    /// The name as it stands in documents.
    pub fn name(&self) -> (r: &'static str)
        ensures
            r@ == self.text(),
    {
        match self {
            NicMode::Dpu => "Dpu",
            NicMode::Nic => "Nic",
        }
    }
}

/// What the host may do with its DPU.
#[derive(Clone, Copy, Debug, PartialEq, Eq, Structural)]
pub enum HostPrivilegeLevel {
    Privileged,
    Restricted,
}

impl HostPrivilegeLevel {
    /// The name as it stands in documents.
    pub open spec fn text(self) -> Seq<char> {
        match self {
            HostPrivilegeLevel::Privileged => "Privileged"@,
            HostPrivilegeLevel::Restricted => "Restricted"@,
        }
    }

    /// The name as it stands in documents.
    pub fn name(&self) -> (r: &'static str)
        ensures
            r@ == self.text(),
    {
        match self {
            HostPrivilegeLevel::Privileged => "Privileged",
            HostPrivilegeLevel::Restricted => "Restricted",
        }
    }
}

/// What to boot from.
#[derive(Clone, Copy, Debug, PartialEq, Eq, Structural)]
pub enum Boot {
    Pxe,
    HardDisk,
    UefiHttp,
}

impl Boot {
    /// The name as it stands in documents.
    pub open spec fn text(self) -> Seq<char> {
        match self {
            Boot::Pxe => "Pxe"@,
            Boot::HardDisk => "HardDisk"@,
            Boot::UefiHttp => "UefiHttp"@,
        }
    }

    /// The name as it stands in documents.
    pub fn name(&self) -> (r: &'static str)
        ensures
            r@ == self.text(),
    {
        match self {
            Boot::Pxe => "Pxe",
            Boot::HardDisk => "HardDisk",
            Boot::UefiHttp => "UefiHttp",
        }
    }
}

/// What an override makes the machine boot from.
#[derive(Clone, Copy, Debug, PartialEq, Eq, Structural)]
pub enum BootSourceOverrideTarget {
    NoTarget,
    Pxe,
    Floppy,
    Cd,
    Usb,
    Hdd,
    BiosSetup,
    Utilities,
    Diags,
    UefiShell,
    UefiTarget,
    SDCard,
    UefiHttp,
    RemoteDrive,
    UefiBootNext,
}

impl BootSourceOverrideTarget {
    /// The name as it stands in documents.
    pub open spec fn text(self) -> Seq<char> {
        match self {
            BootSourceOverrideTarget::NoTarget => "None"@,
            BootSourceOverrideTarget::Pxe => "Pxe"@,
            BootSourceOverrideTarget::Floppy => "Floppy"@,
            BootSourceOverrideTarget::Cd => "Cd"@,
            BootSourceOverrideTarget::Usb => "Usb"@,
            BootSourceOverrideTarget::Hdd => "Hdd"@,
            BootSourceOverrideTarget::BiosSetup => "BiosSetup"@,
            BootSourceOverrideTarget::Utilities => "Utilities"@,
            BootSourceOverrideTarget::Diags => "Diags"@,
            BootSourceOverrideTarget::UefiShell => "UefiShell"@,
            BootSourceOverrideTarget::UefiTarget => "UefiTarget"@,
            BootSourceOverrideTarget::SDCard => "SDCard"@,
            BootSourceOverrideTarget::UefiHttp => "UefiHttp"@,
            BootSourceOverrideTarget::RemoteDrive => "RemoteDrive"@,
            BootSourceOverrideTarget::UefiBootNext => "UefiBootNext"@,
        }
    }

    /// The name as it stands in documents.
    pub fn name(&self) -> (r: &'static str)
        ensures
            r@ == self.text(),
    {
        match self {
            BootSourceOverrideTarget::NoTarget => "None",
            BootSourceOverrideTarget::Pxe => "Pxe",
            BootSourceOverrideTarget::Floppy => "Floppy",
            BootSourceOverrideTarget::Cd => "Cd",
            BootSourceOverrideTarget::Usb => "Usb",
            BootSourceOverrideTarget::Hdd => "Hdd",
            BootSourceOverrideTarget::BiosSetup => "BiosSetup",
            BootSourceOverrideTarget::Utilities => "Utilities",
            BootSourceOverrideTarget::Diags => "Diags",
            BootSourceOverrideTarget::UefiShell => "UefiShell",
            BootSourceOverrideTarget::UefiTarget => "UefiTarget",
            BootSourceOverrideTarget::SDCard => "SDCard",
            BootSourceOverrideTarget::UefiHttp => "UefiHttp",
            BootSourceOverrideTarget::RemoteDrive => "RemoteDrive",
            BootSourceOverrideTarget::UefiBootNext => "UefiBootNext",
        }
    }
}

impl BootSourceOverrideTarget {
    /// The override target of a boot device.
    pub open spec fn of(target: Boot) -> BootSourceOverrideTarget {
        match target {
            Boot::Pxe => BootSourceOverrideTarget::Pxe,
            Boot::HardDisk => BootSourceOverrideTarget::Hdd,
            Boot::UefiHttp => BootSourceOverrideTarget::UefiHttp,
        }
    }

    /// The override target of a boot device.
    pub fn from_boot(target: Boot) -> (r: BootSourceOverrideTarget)
        ensures
            r == BootSourceOverrideTarget::of(target),
    {
        match target {
            Boot::Pxe => BootSourceOverrideTarget::Pxe,
            Boot::HardDisk => BootSourceOverrideTarget::Hdd,
            Boot::UefiHttp => BootSourceOverrideTarget::UefiHttp,
        }
    }
}

/// For how long an override holds.
#[derive(Clone, Copy, Debug, PartialEq, Eq, Structural)]
pub enum BootSourceOverrideEnabled {
    Disabled,
    Once,
    Continuous,
}

impl BootSourceOverrideEnabled {
    /// The name as it stands in documents.
    pub open spec fn text(self) -> Seq<char> {
        match self {
            BootSourceOverrideEnabled::Disabled => "Disabled"@,
            BootSourceOverrideEnabled::Once => "Once"@,
            BootSourceOverrideEnabled::Continuous => "Continuous"@,
        }
    }

    /// The name as it stands in documents.
    pub fn name(&self) -> (r: &'static str)
        ensures
            r@ == self.text(),
    {
        match self {
            BootSourceOverrideEnabled::Disabled => "Disabled",
            BootSourceOverrideEnabled::Once => "Once",
            BootSourceOverrideEnabled::Continuous => "Continuous",
        }
    }
}

/// The firmware mode of an override.
#[derive(Clone, Copy, Debug, PartialEq, Eq, Structural)]
pub enum BootSourceOverrideMode {
    UEFI,
    Legacy,
}

impl BootSourceOverrideMode {
    /// The name as it stands in documents.
    pub open spec fn text(self) -> Seq<char> {
        match self {
            BootSourceOverrideMode::UEFI => "UEFI"@,
            BootSourceOverrideMode::Legacy => "Legacy"@,
        }
    }

    /// The name as it stands in documents.
    pub fn name(&self) -> (r: &'static str)
        ensures
            r@ == self.text(),
    {
        match self {
            BootSourceOverrideMode::UEFI => "UEFI",
            BootSourceOverrideMode::Legacy => "Legacy",
        }
    }
}

/// How a BMC fetches a firmware image.
#[derive(Clone, Copy, Debug, PartialEq, Eq, Structural)]
pub enum TransferProtocolType {
    CIFS,
    FTP,
    HTTP,
    HTTPS,
    NFS,
    NSF,
    OEM,
    SCP,
    SFTP,
    TFTP,
}

impl TransferProtocolType {
    /// The name as it stands in documents.
    pub open spec fn text(self) -> Seq<char> {
        match self {
            TransferProtocolType::CIFS => "CIFS"@,
            TransferProtocolType::FTP => "FTP"@,
            TransferProtocolType::HTTP => "HTTP"@,
            TransferProtocolType::HTTPS => "HTTPS"@,
            TransferProtocolType::NFS => "NFS"@,
            TransferProtocolType::NSF => "NSF"@,
            TransferProtocolType::OEM => "OEM"@,
            TransferProtocolType::SCP => "SCP"@,
            TransferProtocolType::SFTP => "SFTP"@,
            TransferProtocolType::TFTP => "TFTP"@,
        }
    }

    /// The name as it stands in documents.
    pub fn name(&self) -> (r: &'static str)
        ensures
            r@ == self.text(),
    {
        match self {
            TransferProtocolType::CIFS => "CIFS",
            TransferProtocolType::FTP => "FTP",
            TransferProtocolType::HTTP => "HTTP",
            TransferProtocolType::HTTPS => "HTTPS",
            TransferProtocolType::NFS => "NFS",
            TransferProtocolType::NSF => "NSF",
            TransferProtocolType::OEM => "OEM",
            TransferProtocolType::SCP => "SCP",
            TransferProtocolType::SFTP => "SFTP",
            TransferProtocolType::TFTP => "TFTP",
        }
    }
}

/// What a firmware image is for.
#[derive(Clone, Copy, Debug, PartialEq, Eq, Structural)]
pub enum ComponentType {
    BMC,
    UEFI,
    EROTBMC,
    EROTBIOS,
    CPLDMID,
    CPLDMB,
    CPLDPDB,
    HGXBMC,
    CombinedBMCUEFI,
    PSU { num: u32 },
    PCIeSwitch { num: u32 },
    PCIeRetimer { num: u32 },
    Unknown,
}

impl ComponentType {
    /// The name as it stands in documents.
    pub open spec fn text(self) -> Seq<char> {
        match self {
            ComponentType::BMC => "BMC"@,
            ComponentType::UEFI => "UEFI"@,
            ComponentType::EROTBMC => "EROTBMC"@,
            ComponentType::EROTBIOS => "EROTBIOS"@,
            ComponentType::CPLDMID => "CPLDMID"@,
            ComponentType::CPLDMB => "CPLDMB"@,
            ComponentType::CPLDPDB => "CPLDPDB"@,
            ComponentType::HGXBMC => "HGXBMC"@,
            ComponentType::CombinedBMCUEFI => "CombinedBMCUEFI"@,
            ComponentType::PSU { .. } => "PSU"@,
            ComponentType::PCIeSwitch { .. } => "PCIeSwitch"@,
            ComponentType::PCIeRetimer { .. } => "PCIeRetimer"@,
            ComponentType::Unknown => "Unknown"@,
        }
    }

    /// The name as it stands in documents.
    pub fn name(&self) -> (r: &'static str)
        ensures
            r@ == self.text(),
    {
        match self {
            ComponentType::BMC => "BMC",
            ComponentType::UEFI => "UEFI",
            ComponentType::EROTBMC => "EROTBMC",
            ComponentType::EROTBIOS => "EROTBIOS",
            ComponentType::CPLDMID => "CPLDMID",
            ComponentType::CPLDMB => "CPLDMB",
            ComponentType::CPLDPDB => "CPLDPDB",
            ComponentType::HGXBMC => "HGXBMC",
            ComponentType::CombinedBMCUEFI => "CombinedBMCUEFI",
            ComponentType::PSU { .. } => "PSU",
            ComponentType::PCIeSwitch { .. } => "PCIeSwitch",
            ComponentType::PCIeRetimer { .. } => "PCIeRetimer",
            ComponentType::Unknown => "Unknown",
        }
    }
}

/// What a Supermicro BMC lets the host do over KCS.
#[derive(Clone, Copy, Debug, PartialEq, Eq, Structural)]
pub enum Privilege {
    Administrator,
    Operator,
    User,
    Callback,
}

impl Privilege {
    /// The name as it stands in documents.
    pub open spec fn text(self) -> Seq<char> {
        match self {
            Privilege::Administrator => "Administrator"@,
            Privilege::Operator => "Operator"@,
            Privilege::User => "User"@,
            Privilege::Callback => "Callback"@,
        }
    }

    /// The name as it stands in documents.
    pub fn name(&self) -> (r: &'static str)
        ensures
            r@ == self.text(),
    {
        match self {
            Privilege::Administrator => "Administrator",
            Privilege::Operator => "Operator",
            Privilege::User => "User",
            Privilege::Callback => "Callback",
        }
    }

    /// The value that a name stands for.
    pub open spec fn parsed(s: Seq<char>) -> Option<Privilege> {
        if s == "Administrator"@ {
            Some(Privilege::Administrator)
        } else if s == "Operator"@ {
            Some(Privilege::Operator)
        } else if s == "User"@ {
            Some(Privilege::User)
        } else if s == "Callback"@ {
            Some(Privilege::Callback)
        } else {
            None
        }
    }

    /// The value that a name stands for.
    pub fn parse(s: &str) -> (r: Option<Privilege>)
        ensures
            r == Privilege::parsed(s@),
    {
        if same(s, "Administrator") {
            Some(Privilege::Administrator)
        } else if same(s, "Operator") {
            Some(Privilege::Operator)
        } else if same(s, "User") {
            Some(Privilege::User)
        } else if same(s, "Callback") {
            Some(Privilege::Callback)
        } else {
            None
        }
    }
}

impl DeepView for Privilege {
    type V = Privilege;

    open spec fn deep_view(&self) -> Privilege {
        *self
    }
}

/// How far a job has come.
#[derive(Clone, Copy, Debug, PartialEq, Eq, Structural)]
pub enum JobState {
    Scheduled,
    ScheduledWithErrors,
    Running,
    Completed,
    CompletedWithErrors,
    Unknown,
}

impl JobState {
    /// The name as it stands in documents.
    pub open spec fn text(self) -> Seq<char> {
        match self {
            JobState::Scheduled => "Scheduled"@,
            JobState::ScheduledWithErrors => "ScheduledWithErrors"@,
            JobState::Running => "Running"@,
            JobState::Completed => "Completed"@,
            JobState::CompletedWithErrors => "CompletedWithErrors"@,
            JobState::Unknown => "Unknown"@,
        }
    }

    /// The name as it stands in documents.
    pub fn name(&self) -> (r: &'static str)
        ensures
            r@ == self.text(),
    {
        match self {
            JobState::Scheduled => "Scheduled",
            JobState::ScheduledWithErrors => "ScheduledWithErrors",
            JobState::Running => "Running",
            JobState::Completed => "Completed",
            JobState::CompletedWithErrors => "CompletedWithErrors",
            JobState::Unknown => "Unknown",
        }
    }
}

impl DeepView for JobState {
    type V = JobState;

    open spec fn deep_view(&self) -> JobState {
        *self
    }
}

impl JobState {
    /// The state that a name stands for.
    pub open spec fn parsed(s: Seq<char>) -> JobState {
        if s == "Scheduled"@ {
            JobState::Scheduled
        } else if s == "Running"@ {
            JobState::Running
        } else if s == "Completed"@ {
            JobState::Completed
        } else if s == "CompletedWithErrors"@ {
            JobState::CompletedWithErrors
        } else {
            JobState::Unknown
        }
    }

    /// The state that a name stands for.
    pub fn from_str(s: &str) -> (r: JobState)
        ensures
            r == JobState::parsed(s@),
    {
        if same(s, "Scheduled") {
            JobState::Scheduled
        } else if same(s, "Running") {
            JobState::Running
        } else if same(s, "Completed") {
            JobState::Completed
        } else if same(s, "CompletedWithErrors") {
            JobState::CompletedWithErrors
        } else {
            JobState::Unknown
        }
    }
}

/// A link to another document.
#[derive(Clone, Debug, PartialEq, Eq)]
pub struct ODataId {
    pub odata_id: String,
}

impl DeepView for ODataId {
    type V = ODataId;

    open spec fn deep_view(&self) -> ODataId {
        *self
    }
}

impl ODataId {
    /// The last part of the link, which names the document in its collection.
    pub fn odata_id_get<'a>(&'a self) -> (r: &'a str)
        ensures
            r@ == after_last(self.odata_id@, '/'),
    {
        last_segment(self.odata_id.as_str(), '/')
    }
}

impl Default for ODataId {
    fn default() -> (r: ODataId)
        ensures
            r.odata_id@ == ""@,
    {
        ODataId { odata_id: "".to_owned() }
    }
}

/// A collection of links: boot options, systems, managers or storage controllers.
#[derive(Debug, PartialEq, Eq)]
pub struct References {
    pub members: Vec<ODataId>,
}

impl DeepView for References {
    type V = References;

    open spec fn deep_view(&self) -> References {
        *self
    }
}

/// An entry that a machine can boot from.
#[derive(Clone, Debug, PartialEq, Eq)]
pub struct BootOption {
    pub odata: ODataId,
    pub alias: Option<String>,
    pub description: Option<String>,
    pub boot_option_enabled: Option<bool>,
    pub boot_option_reference: String,
    pub display_name: String,
    pub id: String,
    pub name: String,
    pub uefi_device_path: Option<String>,
}

impl DeepView for BootOption {
    type V = BootOption;

    open spec fn deep_view(&self) -> BootOption {
        *self
    }
}

/// An enclosure, or a module that reports as one.
#[derive(Debug, PartialEq, Eq)]
pub struct Chassis {
    pub manufacturer: Option<String>,
    pub model: Option<String>,
    pub part_number: Option<String>,
    pub network_adapters: Option<ODataId>,
    pub odata: Option<ODataId>,
}

impl DeepView for Chassis {
    type V = Chassis;

    open spec fn deep_view(&self) -> Chassis {
        *self
    }
}

impl Default for Chassis {
    fn default() -> (r: Chassis)
        ensures
            r == (Chassis {
                manufacturer: None,
                model: None,
                part_number: None,
                network_adapters: None,
                odata: None,
            }),
    {
        Chassis {
            manufacturer: None,
            model: None,
            part_number: None,
            network_adapters: None,
            odata: None,
        }
    }
}

/// The SSH side of a serial console.
#[derive(Debug, PartialEq, Eq)]
pub struct SshConsole {
    pub service_enabled: bool,
}

/// A system's serial console.
#[derive(Debug, PartialEq, Eq)]
pub struct SerialConsole {
    pub ssh: SshConsole,
    pub max_concurrent_sessions: Option<i64>,
}

/// Whether the host reaches its BMC in band.
#[derive(Debug, PartialEq, Eq)]
pub struct IpmiHostInterface {
    pub service_enabled: bool,
}

/// How a system boots.
#[derive(Debug, PartialEq, Eq)]
pub struct SystemBoot {
    pub boot_order: Vec<String>,
}

/// What a system is linked to.
#[derive(Debug, PartialEq, Eq)]
pub struct SystemLinks {
    pub chassis: Option<Vec<ODataId>>,
}

/// A machine.
#[derive(Debug, PartialEq, Eq)]
pub struct ComputerSystem {
    pub model: Option<String>,
    pub power_state: PowerState,
    pub boot: SystemBoot,
    pub serial_console: Option<SerialConsole>,
    pub ipmi_host_interface: Option<IpmiHostInterface>,
    pub links: Option<SystemLinks>,
}

impl DeepView for ComputerSystem {
    type V = ComputerSystem;

    open spec fn deep_view(&self) -> ComputerSystem {
        *self
    }
}

/// A BMC.
#[derive(Debug, PartialEq, Eq)]
pub struct Manager {
    pub firmware_version: Option<String>,
}

impl DeepView for Manager {
    type V = Manager;

    open spec fn deep_view(&self) -> Manager {
        *self
    }
}

/// A serial port of a BMC.
#[derive(Debug, PartialEq, Eq)]
pub struct SerialInterface {
    pub bit_rate: String,
    pub data_bits: String,
    pub flow_control: String,
    pub interface_enabled: bool,
    pub parity: String,
    pub signal_type: Option<String>,
    pub stop_bits: String,
}

impl SerialInterface {
    /// Whether the port is on, with the line settings that Supermicro ships: 115200
    /// bits per second, 8 data bits, no parity, 1 stop bit, no flow control, and
    /// RS-232 where it says which signals it has.
    pub open spec fn supermicro_default(self) -> bool {
        &&& self.bit_rate@ == "115200"@
        &&& self.data_bits@ == "8"@
        &&& self.flow_control@ == "None"@
        &&& self.interface_enabled
        &&& self.parity@ == "None"@
        &&& self.signal_type matches Some(signal) ==> signal@ == "Rs232"@
        &&& self.stop_bits@ == "1"@
    }

    /// Whether the port is on, with the line settings that Supermicro ships.
    pub fn is_supermicro_default(&self) -> (r: bool)
        ensures
            r == self.supermicro_default(),
    {
        let signal = match &self.signal_type {
            Some(signal) => same(signal.as_str(), "Rs232"),
            None => true,
        };
        same(self.bit_rate.as_str(), "115200") && same(self.data_bits.as_str(), "8") && same(
            self.flow_control.as_str(),
            "None",
        ) && self.interface_enabled && same(self.parity.as_str(), "None") && signal && same(
            self.stop_bits.as_str(),
            "1",
        )
    }
}

impl DeepView for SerialInterface {
    type V = SerialInterface;

    open spec fn deep_view(&self) -> SerialInterface {
        *self
    }
}

/// A network interface of a system.
#[derive(Debug, PartialEq, Eq)]
pub struct EthernetInterface {
    pub mac_address: Option<String>,
}

impl DeepView for EthernetInterface {
    type V = EthernetInterface;

    open spec fn deep_view(&self) -> EthernetInterface {
        *self
    }
}

/// A login of a BMC.
#[derive(Clone, Debug, PartialEq, Eq)]
pub struct ManagerAccount {
    pub id: Option<String>,
    pub username: String,
    pub enabled: Option<bool>,
    pub role_id: String,
}

impl DeepView for ManagerAccount {
    type V = ManagerAccount;

    open spec fn deep_view(&self) -> ManagerAccount {
        *self
    }
}

/// What a PCIe device says of itself.
#[derive(Clone, Debug, PartialEq, Eq)]
pub struct PCIeStatus {
    pub state: Option<String>,
}

/// A PCIe device.
#[derive(Clone, Debug, PartialEq, Eq)]
pub struct PCIeDevice {
    pub id: Option<String>,
    pub manufacturer: Option<String>,
    pub name: Option<String>,
    pub part_number: Option<String>,
    pub serial_number: Option<String>,
    pub status: Option<PCIeStatus>,
}

impl DeepView for PCIeDevice {
    type V = PCIeDevice;

    open spec fn deep_view(&self) -> PCIeDevice {
        *self
    }
}

/// A network card.
#[derive(Debug, PartialEq, Eq)]
pub struct NetworkAdapter {
    pub network_device_functions: Option<ODataId>,
}

impl DeepView for NetworkAdapter {
    type V = NetworkAdapter;

    open spec fn deep_view(&self) -> NetworkAdapter {
        *self
    }
}

/// The Ethernet side of a network function.
#[derive(Debug, PartialEq, Eq)]
pub struct Ethernet {
    pub mac_address: Option<String>,
}

/// A port of a network card, as the host sees it.
#[derive(Debug, PartialEq, Eq)]
pub struct NetworkDeviceFunction {
    pub ethernet: Option<Ethernet>,
    pub oem: Option<Object>,
}

impl DeepView for NetworkDeviceFunction {
    type V = NetworkDeviceFunction;

    open spec fn deep_view(&self) -> NetworkDeviceFunction {
        *self
    }
}

/// A storage controller.
#[derive(Debug, PartialEq, Eq)]
pub struct Storage {
    pub drives: Option<Vec<ODataId>>,
}

impl DeepView for Storage {
    type V = Storage;

    open spec fn deep_view(&self) -> Storage {
        *self
    }
}

/// A drive.
#[derive(Clone, Debug, PartialEq, Eq)]
pub struct Drives {
    pub id: Option<String>,
    pub name: Option<String>,
    pub model: Option<String>,
}

impl DeepView for Drives {
    type V = Drives;

    open spec fn deep_view(&self) -> Drives {
        *self
    }
}

/// A note that a task carries.
#[derive(Clone, Debug, PartialEq, Eq)]
pub struct TaskMessage {
    pub message_id: String,
    pub message_args: Vec<String>,
}

/// Work that goes on in a BMC.
#[derive(Clone, Debug, PartialEq, Eq)]
pub struct Task {
    pub id: String,
    pub messages: Vec<TaskMessage>,
}

impl DeepView for Task {
    type V = Task;

    open spec fn deep_view(&self) -> Task {
        *self
    }
}

/// The answer to a request that starts a task.
#[derive(Debug, PartialEq, Eq)]
pub struct TaskReply {
    pub task: Option<Task>,
}

impl DeepView for TaskReply {
    type V = TaskReply;

    open spec fn deep_view(&self) -> TaskReply {
        *self
    }
}

/// Work that a job service reports on.
#[derive(Clone, Debug, PartialEq, Eq)]
pub struct Job {
    pub id: String,
}

impl DeepView for Job {
    type V = Job;

    open spec fn deep_view(&self) -> Job {
        *self
    }
}

/// The boot order of a Supermicro machine: the categories, and the devices of the network category.
#[derive(Debug, PartialEq, Eq)]
pub struct FixedBootOrder {
    pub fixed_boot_order: Vec<String>,
    pub uefi_network: Vec<String>,
}

impl DeepView for FixedBootOrder {
    type V = FixedBootOrder;

    open spec fn deep_view(&self) -> FixedBootOrder {
        *self
    }
}

/// Whether a BMC speaks IPMI over the network; `debug` is the record printed in
/// full.
#[derive(Debug, PartialEq, Eq)]
pub struct ProtocolStatus {
    pub protocol_enabled: Option<bool>,
    pub debug: String,
}

/// The network services of a BMC; `debug` is the record printed in full.
#[derive(Debug, PartialEq, Eq)]
pub struct ManagerNetworkProtocol {
    pub ipmi: Option<ProtocolStatus>,
    pub debug: String,
}

impl DeepView for ManagerNetworkProtocol {
    type V = ManagerNetworkProtocol;

    open spec fn deep_view(&self) -> ManagerNetworkProtocol {
        *self
    }
}

/// Where firmware is sent.
#[derive(Debug, PartialEq, Eq)]
pub struct UpdateService {
    pub multipart_http_push_uri: String,
}

impl DeepView for UpdateService {
    type V = UpdateService;

    open spec fn deep_view(&self) -> UpdateService {
        *self
    }
}

/// The answer to a firmware upload; `task_id` is the id of the task that the body describes, where it describes one.
#[derive(Debug, PartialEq, Eq)]
pub struct Upload {
    pub location: Option<String>,
    pub body: String,
    pub task_id: Option<String>,
}

impl DeepView for Upload {
    type V = Upload;

    open spec fn deep_view(&self) -> Upload {
        *self
    }
}

/// What a Dell lifecycle controller says of itself.
#[derive(Debug, PartialEq, Eq)]
pub struct RemoteServices {
    pub lc_status: Json,
}

impl DeepView for RemoteServices {
    type V = RemoteServices;

    open spec fn deep_view(&self) -> RemoteServices {
        *self
    }
}

/// The serial console settings among the BIOS attributes of a Dell machine.
#[derive(Debug, PartialEq, Eq)]
pub struct BiosSerial {
    pub serial_comm: Option<String>,
    pub redir_after_boot: Option<String>,
    pub serial_port_address: Option<String>,
    pub ext_serial_connector: Option<String>,
    pub fail_safe_baud: Option<String>,
    pub con_term_type: Option<String>,
}

impl DeepView for BiosSerial {
    type V = BiosSerial;

    open spec fn deep_view(&self) -> BiosSerial {
        *self
    }
}

/// The `Location` header of an answer.
#[derive(Debug, PartialEq, Eq)]
pub enum Location {
    /// There is none.
    Missing,
    /// It is not text, for the reason given.
    NotText(String),
    /// It is this.
    Text(String),
}

/// The answer to a change: its headers, where it has any, reduced to the `Location`.
#[derive(Debug, PartialEq, Eq)]
pub struct Written {
    pub headers: Option<Location>,
}

impl DeepView for Written {
    type V = Written;

    open spec fn deep_view(&self) -> Written {
        *self
    }
}

/// The entry document of a BMC.
#[derive(Debug, PartialEq, Eq)]
pub struct ServiceRoot {
    pub vendor: Option<String>,
    pub update_service: Option<Object>,
    pub oem: Option<Object>,
}

/// [`ServiceRoot`], as contracts speak of it.
pub struct RootView {
    pub vendor: Option<Seq<char>>,
    pub update_service: Option<ObjectView>,
    pub oem: Option<ObjectView>,
}

impl DeepView for ServiceRoot {
    type V = RootView;

    open spec fn deep_view(&self) -> RootView {
        RootView {
            vendor: self.vendor.deep_view(),
            update_service: self.update_service.deep_view(),
            oem: self.oem.deep_view(),
        }
    }
}

impl RootView {
    /// The service root of a BMC of which nothing is known.
    pub open spec fn unknown() -> RootView {
        RootView { vendor: None, update_service: None, oem: None }
    }

    /// Whether the vendor is AMI.
    pub open spec fn is_ami(self) -> bool {
        self.vendor matches Some(v) && lower(v) == lower("AMI"@)
    }

    /// Whether the BMC runs AMI firmware, which has a section of its own.
    pub open spec fn ami_bmc(self) -> bool {
        self.oem matches Some(oem) && lookup(oem, "Ami"@) is Some
    }
}

impl ServiceRoot {
    /// Whether the vendor is AMI.
    pub fn vendor_is_ami(&self) -> (r: bool)
        ensures
            r == self.deep_view().is_ami(),
    {
        match &self.vendor {
            Some(v) => same_ignore_case(v.as_str(), "AMI"),
            None => false,
        }
    }

    /// Whether the BMC runs AMI firmware.
    pub fn has_ami_bmc(&self) -> (r: bool)
        ensures
            r == self.deep_view().ami_bmc(),
    {
        match &self.oem {
            Some(oem) => oem.get("Ami").is_some(),
            None => false,
        }
    }

    /// A copy.
    pub fn copy(&self) -> (r: ServiceRoot)
        ensures
            r.deep_view() == self.deep_view(),
    {
        ServiceRoot {
            vendor: match &self.vendor {
                Some(v) => Some(v.clone()),
                None => None,
            },
            update_service: match &self.update_service {
                Some(o) => Some(o.copy()),
                None => None,
            },
            oem: match &self.oem {
                Some(o) => Some(o.copy()),
                None => None,
            },
        }
    }
}

impl Default for ServiceRoot {
    fn default() -> (r: ServiceRoot)
        ensures
            r.deep_view() == RootView::unknown(),
    {
        ServiceRoot { vendor: None, update_service: None, oem: None }
    }
}

impl Named for ManagerAccount {
    open spec fn sort_key(self) -> Seq<char> {
        self.username@
    }

    fn sort_name<'a>(&'a self) -> &'a str {
        self.username.as_str()
    }
}

impl Named for PCIeDevice {
    open spec fn sort_key(self) -> Seq<char> {
        match self.manufacturer {
            Some(m) => m@,
            None => ""@,
        }
    }

    fn sort_name<'a>(&'a self) -> &'a str {
        match &self.manufacturer {
            Some(m) => m.as_str(),
            None => "",
        }
    }
}

/// Documents of one type, as a collection gives them when it is expanded.
#[derive(Debug, PartialEq, Eq)]
pub struct Members<T> {
    pub members: Vec<T>,
}

impl<T> DeepView for Members<T> {
    type V = Members<T>;

    open spec fn deep_view(&self) -> Members<T> {
        *self
    }
}

/// Which network interface to boot from: its MAC address, or its name among the
/// system's Ethernet interfaces.
#[derive(Clone, Copy, Debug, PartialEq, Eq)]
pub enum BootInterfaceRef<'a> {
    Mac(&'a str),
    InterfaceId(&'a str),
}

/// A request to boot from something else than the boot order says.
#[derive(Debug, PartialEq, Eq)]
pub struct BootOverride {
    pub target: BootSourceOverrideTarget,
    pub enabled: BootSourceOverrideEnabled,
    pub mode: Option<BootSourceOverrideMode>,
    pub http_boot_uri: Option<String>,
}

/// How far a feature is set up, and what was looked at. The executable form
/// holds its text as `String`, contracts as `Seq<char>`.
#[derive(Debug, PartialEq, Eq)]
pub struct Report<S> {
    pub message: S,
    pub status: StatusInternal,
}

/// How far a feature is set up, and what was looked at.
pub type Status = Report<String>;

/// [`Status`], as contracts speak of it.
pub type StatusView = Report<Seq<char>>;

impl DeepView for Report<String> {
    type V = Report<Seq<char>>;

    open spec fn deep_view(&self) -> Report<Seq<char>> {
        Report { message: self.message@, status: self.status }
    }
}

impl Report<String> {
    /// Whether all of the feature is set up.
    pub fn is_fully_enabled(&self) -> (r: bool)
        ensures
            r == (self.status == StatusInternal::Enabled),
    {
        match self.status {
            StatusInternal::Enabled => true,
            _ => false,
        }
    }
}

/// A setting that is not as it should be. The executable form holds its text as
/// `String`, contracts as `Seq<char>`.
#[derive(Debug, PartialEq, Eq)]
pub struct Deviation<S> {
    pub key: S,
    pub expected: S,
    pub actual: S,
}

/// A setting that is not as it should be.
pub type MachineSetupDiff = Deviation<String>;

/// [`MachineSetupDiff`], as contracts speak of it.
pub type DiffView = Deviation<Seq<char>>;

impl DeepView for Deviation<String> {
    type V = Deviation<Seq<char>>;

    open spec fn deep_view(&self) -> Deviation<Seq<char>> {
        Deviation { key: self.key@, expected: self.expected@, actual: self.actual@ }
    }
}

impl Deviation<String> {
    /// The setting `key` is `actual` and should be `expected`.
    pub fn new(key: &str, expected: &str, actual: &str) -> (r: MachineSetupDiff)
        ensures
            r.deep_view() == (DiffView { key: key@, expected: expected@, actual: actual@ }),
    {
        Deviation { key: key.to_owned(), expected: expected.to_owned(), actual: actual.to_owned() }
    }
}

/// Whether a machine is set up, and what is not as it should be.
#[derive(Debug, PartialEq, Eq)]
pub struct MachineSetupStatus {
    pub is_done: bool,
    pub diffs: Vec<MachineSetupDiff>,
}

/// [`MachineSetupStatus`], as contracts speak of it.
pub struct SetupView {
    pub is_done: bool,
    pub diffs: Seq<DiffView>,
}

impl DeepView for MachineSetupStatus {
    type V = SetupView;

    open spec fn deep_view(&self) -> SetupView {
        SetupView { is_done: self.is_done, diffs: self.diffs.deep_view() }
    }
}

/// The deviation that a status stands for, if it does.
pub open spec fn status_diff(key: Seq<char>, status: StatusView) -> Seq<DiffView> {
    if status.status == StatusInternal::Enabled {
        Seq::empty()
    } else {
        seq![DiffView { key, expected: "Enabled"@, actual: status.status.text() }]
    }
}

/// Adds the deviation that a status stands for, if it does.
pub fn add_status_diff(diffs: &mut Vec<MachineSetupDiff>, key: &str, status: &Status)
    ensures
        final(diffs).deep_view() == old(diffs).deep_view() + status_diff(
            key@,
            status.deep_view(),
        ),
{
    let ghost before = diffs.deep_view();
    if !status.is_fully_enabled() {
        diffs.push(MachineSetupDiff::new(key, "Enabled", status.status.name()));
    }
    assert(diffs.deep_view() =~= before + status_diff(key@, status.deep_view()));
}

/// A machine is set up if and only if nothing deviates.
pub open spec fn setup_status(diffs: Seq<DiffView>) -> SetupView {
    SetupView { is_done: diffs.len() == 0, diffs }
}

} // verus!
