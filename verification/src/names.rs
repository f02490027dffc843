//! What the values of the enumerations are called in documents.
use crate::dell_settings::{
    BootDevices, RedfishSettingsApplyTime, SerialCommSettings, SerialPortExtSettings,
    SerialPortSettings, SerialPortTermSettings, TlsMode, Tpm2Algorithm, Tpm2HierarchySettings,
    UefiVariableAccessSettings,
};
use crate::model::{
    BiosProfileType, Boot, BootSourceOverrideEnabled, BootSourceOverrideMode,
    BootSourceOverrideTarget, ComponentType, EnableDisable, EnabledDisabled, HostPrivilegeLevel,
    JobState, ManagerResetType, NicMode, OnOff, PowerState, Privilege, RedfishVendor, RoleId,
    StatusInternal, SystemPowerControl, TransferProtocolType,
};
use vstd::prelude::*;
use vstd::string::*;

verus! {

/// EnabledDisabled: what the values are called in documents.
pub proof fn enabled_disabled_names(value: EnabledDisabled, name: &'static str)
    requires
        call_ensures(EnabledDisabled::name, (&value,), name),
    ensures
        value is Enabled ==> name@ == "Enabled"@,
        value is Disabled ==> name@ == "Disabled"@,
{
}

/// EnabledDisabled: a name is read as the value that it stands for, and nothing else is a
/// name.
pub proof fn enabled_disabled_names_are_read_back(
    s: &str,
    r: Option<EnabledDisabled>,
    value: EnabledDisabled,
    name: &'static str,
)
    requires
        call_ensures(EnabledDisabled::parse, (s,), r),
        call_ensures(EnabledDisabled::name, (&value,), name),
    ensures
        r == Some(value) <==> s@ == name@,
{
    reveal_strlit("Enabled");
    reveal_strlit("Disabled");
    assert("Enabled"@.len() == 7);
    assert("Disabled"@.len() == 8);
}

/// EnableDisable: what the values are called in documents.
pub proof fn enable_disable_names(value: EnableDisable, name: &'static str)
    requires
        call_ensures(EnableDisable::name, (&value,), name),
    ensures
        value is Enable ==> name@ == "Enable"@,
        value is Disable ==> name@ == "Disable"@,
{
}

/// OnOff: what the values are called in documents.
pub proof fn on_off_names(value: OnOff, name: &'static str)
    requires
        call_ensures(OnOff::name, (&value,), name),
    ensures
        value is On ==> name@ == "On"@,
        value is Off ==> name@ == "Off"@,
{
}

/// OnOff: a name is read as the value that it stands for, and nothing else is a name.
pub proof fn on_off_names_are_read_back(s: &str, r: Option<OnOff>, value: OnOff, name: &'static str)
    requires
        call_ensures(OnOff::parse, (s,), r),
        call_ensures(OnOff::name, (&value,), name),
    ensures
        r == Some(value) <==> s@ == name@,
{
    reveal_strlit("On");
    reveal_strlit("Off");
    assert("On"@.len() == 2);
    assert("Off"@.len() == 3);
}

/// StatusInternal: what the values are called in documents.
pub proof fn status_internal_names(value: StatusInternal, name: &'static str)
    requires
        call_ensures(StatusInternal::name, (&value,), name),
    ensures
        value is Enabled ==> name@ == "Enabled"@,
        value is Partial ==> name@ == "Partial"@,
        value is Disabled ==> name@ == "Disabled"@,
{
}

/// PowerState: what the values are called in documents.
pub proof fn power_state_names(value: PowerState, name: &'static str)
    requires
        call_ensures(PowerState::name, (&value,), name),
    ensures
        value is Off ==> name@ == "Off"@,
        value is On ==> name@ == "On"@,
        value is PoweringOff ==> name@ == "PoweringOff"@,
        value is PoweringOn ==> name@ == "PoweringOn"@,
        value is Paused ==> name@ == "Paused"@,
        value is Reset ==> name@ == "Reset"@,
        value is Unknown ==> name@ == "Unknown"@,
{
}

/// SystemPowerControl: what the values are called in documents.
pub proof fn system_power_control_names(value: SystemPowerControl, name: &'static str)
    requires
        call_ensures(SystemPowerControl::name, (&value,), name),
    ensures
        value is On ==> name@ == "On"@,
        value is GracefulShutdown ==> name@ == "GracefulShutdown"@,
        value is ForceOff ==> name@ == "ForceOff"@,
        value is GracefulRestart ==> name@ == "GracefulRestart"@,
        value is ForceRestart ==> name@ == "ForceRestart"@,
        value is ACPowercycle ==> name@ == "ACPowercycle"@,
        value is PowerCycle ==> name@ == "PowerCycle"@,
{
}

/// ManagerResetType: what the values are called in documents.
pub proof fn manager_reset_type_names(value: ManagerResetType, name: &'static str)
    requires
        call_ensures(ManagerResetType::name, (&value,), name),
    ensures
        value is GracefulRestart ==> name@ == "GracefulRestart"@,
        value is ForceRestart ==> name@ == "ForceRestart"@,
{
}

/// RoleId: what the values are called in documents.
pub proof fn role_id_names(value: RoleId, name: &'static str)
    requires
        call_ensures(RoleId::name, (&value,), name),
    ensures
        value is Administrator ==> name@ == "Administrator"@,
        value is Operator ==> name@ == "Operator"@,
        value is ReadOnly ==> name@ == "ReadOnly"@,
        value is NoAccess ==> name@ == "NoAccess"@,
{
}

/// RedfishVendor: what the values are called in documents.
pub proof fn redfish_vendor_names(value: RedfishVendor, name: &'static str)
    requires
        call_ensures(RedfishVendor::name, (&value,), name),
    ensures
        value is AMI ==> name@ == "AMI"@,
        value is Dell ==> name@ == "Dell"@,
        value is Hpe ==> name@ == "Hpe"@,
        value is Lenovo ==> name@ == "Lenovo"@,
        value is LiteOnPowerShelf ==> name@ == "LiteOnPowerShelf"@,
        value is NvidiaDpu ==> name@ == "NvidiaDpu"@,
        value is NvidiaGBSwitch ==> name@ == "NvidiaGBSwitch"@,
        value is NvidiaGBx00 ==> name@ == "NvidiaGBx00"@,
        value is NvidiaGH200 ==> name@ == "NvidiaGH200"@,
        value is P3809 ==> name@ == "P3809"@,
        value is Supermicro ==> name@ == "Supermicro"@,
        value is Unknown ==> name@ == "Unknown"@,
{
}

/// BiosProfileType: what the values are called in documents.
pub proof fn bios_profile_type_names(value: BiosProfileType, name: &'static str)
    requires
        call_ensures(BiosProfileType::name, (&value,), name),
    ensures
        value is Performance ==> name@ == "Performance"@,
        value is PowerEfficiency ==> name@ == "PowerEfficiency"@,
{
}

/// NicMode: what the values are called in documents.
pub proof fn nic_mode_names(value: NicMode, name: &'static str)
    requires
        call_ensures(NicMode::name, (&value,), name),
    ensures
        value is Dpu ==> name@ == "Dpu"@,
        value is Nic ==> name@ == "Nic"@,
{
}

/// HostPrivilegeLevel: what the values are called in documents.
pub proof fn host_privilege_level_names(value: HostPrivilegeLevel, name: &'static str)
    requires
        call_ensures(HostPrivilegeLevel::name, (&value,), name),
    ensures
        value is Privileged ==> name@ == "Privileged"@,
        value is Restricted ==> name@ == "Restricted"@,
{
}

/// Boot: what the values are called in documents.
pub proof fn boot_names(value: Boot, name: &'static str)
    requires
        call_ensures(Boot::name, (&value,), name),
    ensures
        value is Pxe ==> name@ == "Pxe"@,
        value is HardDisk ==> name@ == "HardDisk"@,
        value is UefiHttp ==> name@ == "UefiHttp"@,
{
}

/// BootSourceOverrideTarget: what the values are called in documents.
pub proof fn boot_source_override_target_names(value: BootSourceOverrideTarget, name: &'static str)
    requires
        call_ensures(BootSourceOverrideTarget::name, (&value,), name),
    ensures
        value is NoTarget ==> name@ == "None"@,
        value is Pxe ==> name@ == "Pxe"@,
        value is Floppy ==> name@ == "Floppy"@,
        value is Cd ==> name@ == "Cd"@,
        value is Usb ==> name@ == "Usb"@,
        value is Hdd ==> name@ == "Hdd"@,
        value is BiosSetup ==> name@ == "BiosSetup"@,
        value is Utilities ==> name@ == "Utilities"@,
        value is Diags ==> name@ == "Diags"@,
        value is UefiShell ==> name@ == "UefiShell"@,
        value is UefiTarget ==> name@ == "UefiTarget"@,
        value is SDCard ==> name@ == "SDCard"@,
        value is UefiHttp ==> name@ == "UefiHttp"@,
        value is RemoteDrive ==> name@ == "RemoteDrive"@,
        value is UefiBootNext ==> name@ == "UefiBootNext"@,
{
}

/// BootSourceOverrideEnabled: what the values are called in documents.
pub proof fn boot_source_override_enabled_names(
    value: BootSourceOverrideEnabled,
    name: &'static str,
)
    requires
        call_ensures(BootSourceOverrideEnabled::name, (&value,), name),
    ensures
        value is Disabled ==> name@ == "Disabled"@,
        value is Once ==> name@ == "Once"@,
        value is Continuous ==> name@ == "Continuous"@,
{
}

/// BootSourceOverrideMode: what the values are called in documents.
pub proof fn boot_source_override_mode_names(value: BootSourceOverrideMode, name: &'static str)
    requires
        call_ensures(BootSourceOverrideMode::name, (&value,), name),
    ensures
        value is UEFI ==> name@ == "UEFI"@,
        value is Legacy ==> name@ == "Legacy"@,
{
}

/// TransferProtocolType: what the values are called in documents.
pub proof fn transfer_protocol_type_names(value: TransferProtocolType, name: &'static str)
    requires
        call_ensures(TransferProtocolType::name, (&value,), name),
    ensures
        value is CIFS ==> name@ == "CIFS"@,
        value is FTP ==> name@ == "FTP"@,
        value is HTTP ==> name@ == "HTTP"@,
        value is HTTPS ==> name@ == "HTTPS"@,
        value is NFS ==> name@ == "NFS"@,
        value is NSF ==> name@ == "NSF"@,
        value is OEM ==> name@ == "OEM"@,
        value is SCP ==> name@ == "SCP"@,
        value is SFTP ==> name@ == "SFTP"@,
        value is TFTP ==> name@ == "TFTP"@,
{
}

/// ComponentType: what the values are called in documents.
pub proof fn component_type_names(value: ComponentType, name: &'static str)
    requires
        call_ensures(ComponentType::name, (&value,), name),
    ensures
        value is BMC ==> name@ == "BMC"@,
        value is UEFI ==> name@ == "UEFI"@,
        value is EROTBMC ==> name@ == "EROTBMC"@,
        value is EROTBIOS ==> name@ == "EROTBIOS"@,
        value is CPLDMID ==> name@ == "CPLDMID"@,
        value is CPLDMB ==> name@ == "CPLDMB"@,
        value is CPLDPDB ==> name@ == "CPLDPDB"@,
        value is HGXBMC ==> name@ == "HGXBMC"@,
        value is CombinedBMCUEFI ==> name@ == "CombinedBMCUEFI"@,
        value is PSU ==> name@ == "PSU"@,
        value is PCIeSwitch ==> name@ == "PCIeSwitch"@,
        value is PCIeRetimer ==> name@ == "PCIeRetimer"@,
        value is Unknown ==> name@ == "Unknown"@,
{
}

/// Privilege: what the values are called in documents.
pub proof fn privilege_names(value: Privilege, name: &'static str)
    requires
        call_ensures(Privilege::name, (&value,), name),
    ensures
        value is Administrator ==> name@ == "Administrator"@,
        value is Operator ==> name@ == "Operator"@,
        value is User ==> name@ == "User"@,
        value is Callback ==> name@ == "Callback"@,
{
}

/// Privilege: a name is read as the value that it stands for, and nothing else is a name.
pub proof fn privilege_names_are_read_back(
    s: &str,
    r: Option<Privilege>,
    value: Privilege,
    name: &'static str,
)
    requires
        call_ensures(Privilege::parse, (s,), r),
        call_ensures(Privilege::name, (&value,), name),
    ensures
        r == Some(value) <==> s@ == name@,
{
    reveal_strlit("Administrator");
    reveal_strlit("Operator");
    reveal_strlit("User");
    reveal_strlit("Callback");
    assert("Administrator"@.len() == 13);
    assert("Operator"@.len() == 8);
    assert("User"@.len() == 4);
    assert("Callback"@.len() == 8);
    assert("Operator"@[0] == 'O' && "Callback"@[0] == 'C');
}

/// JobState: what the values are called in documents.
pub proof fn job_state_names(value: JobState, name: &'static str)
    requires
        call_ensures(JobState::name, (&value,), name),
    ensures
        value is Scheduled ==> name@ == "Scheduled"@,
        value is ScheduledWithErrors ==> name@ == "ScheduledWithErrors"@,
        value is Running ==> name@ == "Running"@,
        value is Completed ==> name@ == "Completed"@,
        value is CompletedWithErrors ==> name@ == "CompletedWithErrors"@,
        value is Unknown ==> name@ == "Unknown"@,
{
}

/// RedfishSettingsApplyTime: what the values are called in documents.
pub proof fn redfish_settings_apply_time_names(value: RedfishSettingsApplyTime, name: &'static str)
    requires
        call_ensures(RedfishSettingsApplyTime::name, (&value,), name),
    ensures
        value is Immediate ==> name@ == "Immediate"@,
        value is OnReset ==> name@ == "OnReset"@,
{
}

/// BootDevices: what the values are called in documents.
pub proof fn boot_devices_names(value: BootDevices, name: &'static str)
    requires
        call_ensures(BootDevices::name, (&value,), name),
    ensures
        value is Normal ==> name@ == "Normal"@,
        value is PXE ==> name@ == "PXE"@,
        value is HDD ==> name@ == "HDD"@,
        value is UefiHttp ==> name@ == "UefiHttp"@,
{
}

/// UefiVariableAccessSettings: what the values are called in documents.
pub proof fn uefi_variable_access_settings_names(
    value: UefiVariableAccessSettings,
    name: &'static str,
)
    requires
        call_ensures(UefiVariableAccessSettings::name, (&value,), name),
    ensures
        value is Standard ==> name@ == "Standard"@,
        value is Controlled ==> name@ == "Controlled"@,
{
}

/// UefiVariableAccessSettings: a name is read as the value that it stands for, and nothing
/// else is a name.
pub proof fn uefi_variable_access_settings_names_are_read_back(
    s: &str,
    r: Option<UefiVariableAccessSettings>,
    value: UefiVariableAccessSettings,
    name: &'static str,
)
    requires
        call_ensures(UefiVariableAccessSettings::parse, (s,), r),
        call_ensures(UefiVariableAccessSettings::name, (&value,), name),
    ensures
        r == Some(value) <==> s@ == name@,
{
    reveal_strlit("Standard");
    reveal_strlit("Controlled");
    assert("Standard"@.len() == 8);
    assert("Controlled"@.len() == 10);
}

/// SerialCommSettings: what the values are called in documents.
pub proof fn serial_comm_settings_names(value: SerialCommSettings, name: &'static str)
    requires
        call_ensures(SerialCommSettings::name, (&value,), name),
    ensures
        value is OnConRedir ==> name@ == "OnConRedir"@,
        value is OnConRedirAuto ==> name@ == "OnConRedirAuto"@,
        value is OnConRedirCom1 ==> name@ == "OnConRedirCom1"@,
        value is OnConRedirCom2 ==> name@ == "OnConRedirCom2"@,
        value is OnNoConRedir ==> name@ == "OnNoConRedir"@,
        value is Off ==> name@ == "Off"@,
{
}

/// SerialCommSettings: a name is read as the value that it stands for, and nothing else is
/// a name.
pub proof fn serial_comm_settings_names_are_read_back(
    s: &str,
    r: Option<SerialCommSettings>,
    value: SerialCommSettings,
    name: &'static str,
)
    requires
        call_ensures(SerialCommSettings::parse, (s,), r),
        call_ensures(SerialCommSettings::name, (&value,), name),
    ensures
        r == Some(value) <==> s@ == name@,
{
    reveal_strlit("OnConRedir");
    reveal_strlit("OnConRedirAuto");
    reveal_strlit("OnConRedirCom1");
    reveal_strlit("OnConRedirCom2");
    reveal_strlit("OnNoConRedir");
    reveal_strlit("Off");
    assert("OnConRedir"@.len() == 10);
    assert("OnConRedirAuto"@.len() == 14);
    assert("OnConRedirCom1"@.len() == 14);
    assert("OnConRedirCom2"@.len() == 14);
    assert("OnNoConRedir"@.len() == 12);
    assert("Off"@.len() == 3);
    assert("OnConRedirAuto"@[10] == 'A' && "OnConRedirCom1"@[10] == 'C');
    assert("OnConRedirAuto"@[10] == 'A' && "OnConRedirCom2"@[10] == 'C');
    assert("OnConRedirCom1"@[13] == '1' && "OnConRedirCom2"@[13] == '2');
}

/// SerialPortSettings: what the values are called in documents.
pub proof fn serial_port_settings_names(value: SerialPortSettings, name: &'static str)
    requires
        call_ensures(SerialPortSettings::name, (&value,), name),
    ensures
        value is Com1 ==> name@ == "Com1"@,
        value is Com2 ==> name@ == "Com2"@,
        value is Serial1Com1Serial2Com2 ==> name@ == "Serial1Com1Serial2Com2"@,
        value is Serial1Com2Serial2Com1 ==> name@ == "Serial1Com2Serial2Com1"@,
{
}

/// SerialPortSettings: a name is read as the value that it stands for, and nothing else is
/// a name.
pub proof fn serial_port_settings_names_are_read_back(
    s: &str,
    r: Option<SerialPortSettings>,
    value: SerialPortSettings,
    name: &'static str,
)
    requires
        call_ensures(SerialPortSettings::parse, (s,), r),
        call_ensures(SerialPortSettings::name, (&value,), name),
    ensures
        r == Some(value) <==> s@ == name@,
{
    reveal_strlit("Com1");
    reveal_strlit("Com2");
    reveal_strlit("Serial1Com1Serial2Com2");
    reveal_strlit("Serial1Com2Serial2Com1");
    assert("Com1"@.len() == 4);
    assert("Com2"@.len() == 4);
    assert("Serial1Com1Serial2Com2"@.len() == 22);
    assert("Serial1Com2Serial2Com1"@.len() == 22);
    assert("Com1"@[3] == '1' && "Com2"@[3] == '2');
    assert("Serial1Com1Serial2Com2"@[10] == '1' && "Serial1Com2Serial2Com1"@[10] == '2');
}

/// SerialPortExtSettings: what the values are called in documents.
pub proof fn serial_port_ext_settings_names(value: SerialPortExtSettings, name: &'static str)
    requires
        call_ensures(SerialPortExtSettings::name, (&value,), name),
    ensures
        value is Serial1 ==> name@ == "Serial1"@,
        value is Serial2 ==> name@ == "Serial2"@,
        value is RemoteAccDevice ==> name@ == "RemoteAccDevice"@,
{
}

/// SerialPortTermSettings: what the values are called in documents.
pub proof fn serial_port_term_settings_names(value: SerialPortTermSettings, name: &'static str)
    requires
        call_ensures(SerialPortTermSettings::name, (&value,), name),
    ensures
        value is Vt100Vt220 ==> name@ == "Vt100Vt220"@,
        value is Ansi ==> name@ == "Ansi"@,
{
}

/// SerialPortTermSettings: a name is read as the value that it stands for, and nothing else
/// is a name.
pub proof fn serial_port_term_settings_names_are_read_back(
    s: &str,
    r: Option<SerialPortTermSettings>,
    value: SerialPortTermSettings,
    name: &'static str,
)
    requires
        call_ensures(SerialPortTermSettings::parse, (s,), r),
        call_ensures(SerialPortTermSettings::name, (&value,), name),
    ensures
        r == Some(value) <==> s@ == name@,
{
    reveal_strlit("Vt100Vt220");
    reveal_strlit("Ansi");
    assert("Vt100Vt220"@.len() == 10);
    assert("Ansi"@.len() == 4);
}

/// Tpm2HierarchySettings: what the values are called in documents.
pub proof fn tpm2_hierarchy_settings_names(value: Tpm2HierarchySettings, name: &'static str)
    requires
        call_ensures(Tpm2HierarchySettings::name, (&value,), name),
    ensures
        value is Enabled ==> name@ == "Enabled"@,
        value is Clear ==> name@ == "Clear"@,
        value is Disabled ==> name@ == "Disabled"@,
{
}

/// Tpm2HierarchySettings: a name is read as the value that it stands for, and nothing else
/// is a name.
pub proof fn tpm2_hierarchy_settings_names_are_read_back(
    s: &str,
    r: Option<Tpm2HierarchySettings>,
    value: Tpm2HierarchySettings,
    name: &'static str,
)
    requires
        call_ensures(Tpm2HierarchySettings::parse, (s,), r),
        call_ensures(Tpm2HierarchySettings::name, (&value,), name),
    ensures
        r == Some(value) <==> s@ == name@,
{
    reveal_strlit("Enabled");
    reveal_strlit("Clear");
    reveal_strlit("Disabled");
    assert("Enabled"@.len() == 7);
    assert("Clear"@.len() == 5);
    assert("Disabled"@.len() == 8);
}

/// Tpm2Algorithm: what the values are called in documents.
pub proof fn tpm2_algorithm_names(value: Tpm2Algorithm, name: &'static str)
    requires
        call_ensures(Tpm2Algorithm::name, (&value,), name),
    ensures
        value is SHA1 ==> name@ == "SHA1"@,
        value is SHA256 ==> name@ == "SHA256"@,
        value is SHA384 ==> name@ == "SHA384"@,
        value is SHA512 ==> name@ == "SHA512"@,
        value is SM3 ==> name@ == "SM3"@,
{
}

/// Tpm2Algorithm: a name is read as the value that it stands for, and nothing else is a
/// name.
pub proof fn tpm2_algorithm_names_are_read_back(
    s: &str,
    r: Option<Tpm2Algorithm>,
    value: Tpm2Algorithm,
    name: &'static str,
)
    requires
        call_ensures(Tpm2Algorithm::parse, (s,), r),
        call_ensures(Tpm2Algorithm::name, (&value,), name),
    ensures
        r == Some(value) <==> s@ == name@,
{
    reveal_strlit("SHA1");
    reveal_strlit("SHA256");
    reveal_strlit("SHA384");
    reveal_strlit("SHA512");
    reveal_strlit("SM3");
    assert("SHA1"@.len() == 4);
    assert("SHA256"@.len() == 6);
    assert("SHA384"@.len() == 6);
    assert("SHA512"@.len() == 6);
    assert("SM3"@.len() == 3);
    assert("SHA256"@[3] == '2' && "SHA384"@[3] == '3');
    assert("SHA256"@[3] == '2' && "SHA512"@[3] == '5');
    assert("SHA384"@[3] == '3' && "SHA512"@[3] == '5');
}

/// TlsMode: what the values are called in documents.
pub proof fn tls_mode_names(value: TlsMode, name: &'static str)
    requires
        call_ensures(TlsMode::name, (&value,), name),
    ensures
        value is NoTls ==> name@ == "None"@,
        value is OneWay ==> name@ == "OneWay"@,
{
}

/// JobState: four names are read as the states that they stand for, and any other text as
/// an unknown state.
pub proof fn job_state_names_are_read(s: &str, r: JobState)
    requires
        call_ensures(JobState::from_str, (s,), r),
    ensures
        r == JobState::Scheduled <==> s@ == "Scheduled"@,
        r == JobState::Running <==> s@ == "Running"@,
        r == JobState::Completed <==> s@ == "Completed"@,
        r == JobState::CompletedWithErrors <==> s@ == "CompletedWithErrors"@,
        r == JobState::Unknown <==> s@ != "Scheduled"@ && s@ != "Running"@ && s@ != "Completed"@
            && s@ != "CompletedWithErrors"@,
{
    reveal_strlit("Scheduled");
    reveal_strlit("Running");
    reveal_strlit("Completed");
    reveal_strlit("CompletedWithErrors");
    assert("Scheduled"@.len() == 9 && "Running"@.len() == 7 && "Completed"@.len() == 9);
    assert("CompletedWithErrors"@.len() == 19);
    assert("Scheduled"@[0] == 'S' && "Completed"@[0] == 'C');
}

} // verus!
