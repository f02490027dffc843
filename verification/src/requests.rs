//! The standard calls that take one request, and those that the standard leaves
//! to the vendors.
use crate::dell;
use crate::error::{not_supported, outcome, ErrorView, RedfishError};
use crate::exchange::{
    delete, get, patch, plain, post, Method, Payload, PayloadView, Request, RequestView, Timeout,
};
use crate::json::{lookup, Json, JsonView, Object, ObjectView};
use crate::model::{
    BiosProfileType, Boot, ComponentType, EnabledDisabled, HostPrivilegeLevel, ManagerResetType,
    NicMode, ODataId, RedfishVendor, RoleId, RootView, SystemPowerControl,
};
use crate::outside::{percent_encode, percent_encoded, rfc3339, to_rfc3339};
use crate::standard::RedfishStandard;
use crate::supermicro;
use crate::text::{cat2, cat3, cat4, cat5, decimal, numeral, remove_all, same, without_all};
use vstd::prelude::*;
use vstd::string::*;

verus! {

/// The name of the password that guards the UEFI settings.
pub const UEFI_PASSWORD_NAME: &'static str = "AdministratorPassword";

/// A link without the Redfish entry point, which is added to every request.
pub open spec fn below_entry_point(odata_id: Seq<char>) -> Seq<char> {
    without_all(odata_id, "/redfish/v1/"@)
}

/// A link without the Redfish entry point, which is added to every request.
pub fn strip_entry_point(odata_id: &str) -> (r: String)
    ensures
        r@ == below_entry_point(odata_id@),
{
    proof {
        reveal_strlit("/redfish/v1/");
    }
    remove_all(odata_id, "/redfish/v1/")
}

/// The request for a collection with its first level expanded.
pub open spec fn collection_request(odata_id: Seq<char>) -> RequestView {
    get(below_entry_point(odata_id) + "?$expand=.($levels=1)"@)
}

/// The request for a collection with its first level expanded.
pub fn expanded_collection(odata_id: &str) -> (r: Request)
    ensures
        r@ == collection_request(odata_id@),
{
    let url = strip_entry_point(odata_id);
    Request::get(cat2(url.as_str(), "?$expand=.($levels=1)"))
}

/// The body of a request that changes one of the BIOS passwords.
pub open spec fn password_change(
    name: Seq<char>,
    old_password: Seq<char>,
    new_password: Seq<char>,
) -> ObjectView {
    seq![
        ("PasswordName"@, JsonView::Text(name)),
        ("OldPassword"@, JsonView::Text(old_password)),
        ("NewPassword"@, JsonView::Text(new_password)),
    ]
}

/// The request for the log entries from the moment `stamp` on.
pub open spec fn filtered_log_url(url: Seq<char>, stamp: Seq<char>) -> Seq<char> {
    url + "?$filter="@ + percent_encoded("Created ge '"@ + stamp + "'"@)
}

/// The URL of the log entries from the moment `stamp` on.
pub fn event_log_url(url: &str, stamp: &str) -> (r: String)
    ensures
        r@ == filtered_log_url(url@, stamp@),
{
    let filter = cat3("Created ge '", stamp, "'");
    let encoded = percent_encode(filter.as_str());
    cat3(url, "?$filter=", encoded.as_str())
}

/// A moment: seconds and nanoseconds since the start of 1970, in UTC.
#[derive(Clone, Copy, Debug, PartialEq, Eq, Structural)]
pub struct Timestamp {
    pub secs: i64,
    pub nanos: u32,
}

/// Whose calls a machine takes.
#[derive(Clone, Copy, Debug, PartialEq, Eq, Structural)]
pub enum Calls {
    Ami,
    Dell,
    Hpe,
    Lenovo,
    LiteonPowershelf,
    NvidiaDpu,
    NvidiaGbSwitch,
    NvidiaGbx00,
    NvidiaGh200,
    NvidiaViking,
    Supermicro,
    Standard,
}

/// Whose calls a machine takes, and the client that makes them. A vendor of whose
/// calls nothing is known here has the standard ones.
#[derive(Debug, PartialEq, Eq)]
pub enum Backend {
    Ami(RedfishStandard),
    Dell(dell::Bmc),
    Hpe(RedfishStandard),
    Lenovo(RedfishStandard),
    LiteonPowershelf(RedfishStandard),
    NvidiaDpu(RedfishStandard),
    NvidiaGbSwitch(RedfishStandard),
    NvidiaGbx00(RedfishStandard),
    NvidiaGh200(RedfishStandard),
    NvidiaViking(RedfishStandard),
    Supermicro(supermicro::Bmc),
    Standard(RedfishStandard),
}

impl Backend {
    /// Whose calls the machine takes.
    pub open spec fn calls(self) -> Calls {
        match self {
            Backend::Ami(_) => Calls::Ami,
            Backend::Dell(_) => Calls::Dell,
            Backend::Hpe(_) => Calls::Hpe,
            Backend::Lenovo(_) => Calls::Lenovo,
            Backend::LiteonPowershelf(_) => Calls::LiteonPowershelf,
            Backend::NvidiaDpu(_) => Calls::NvidiaDpu,
            Backend::NvidiaGbSwitch(_) => Calls::NvidiaGbSwitch,
            Backend::NvidiaGbx00(_) => Calls::NvidiaGbx00,
            Backend::NvidiaGh200(_) => Calls::NvidiaGh200,
            Backend::NvidiaViking(_) => Calls::NvidiaViking,
            Backend::Supermicro(_) => Calls::Supermicro,
            Backend::Standard(_) => Calls::Standard,
        }
    }

    /// The standard calls of the client.
    pub open spec fn standard(self) -> RedfishStandard {
        match self {
            Backend::Ami(s) => s,
            Backend::Dell(bmc) => bmc.s,
            Backend::Hpe(s) => s,
            Backend::Lenovo(s) => s,
            Backend::LiteonPowershelf(s) => s,
            Backend::NvidiaDpu(s) => s,
            Backend::NvidiaGbSwitch(s) => s,
            Backend::NvidiaGbx00(s) => s,
            Backend::NvidiaGh200(s) => s,
            Backend::NvidiaViking(s) => s,
            Backend::Supermicro(bmc) => bmc.s,
            Backend::Standard(s) => s,
        }
    }
}

/// Whose calls a machine takes. AMI also ships its firmware for other vendors, and
/// NVIDIA DGX systems can report either.
pub open spec fn calls_of(
    vendor: RedfishVendor,
    system: Seq<char>,
    manager: Seq<char>,
    root: RootView,
) -> Calls {
    match vendor {
        RedfishVendor::AMI => if system == "DGX"@ && manager == "BMC"@ {
            Calls::NvidiaViking
        } else {
            Calls::Ami
        },
        RedfishVendor::Dell => Calls::Dell,
        RedfishVendor::Hpe => Calls::Hpe,
        RedfishVendor::Lenovo => if root.ami_bmc() {
            Calls::Ami
        } else {
            Calls::Lenovo
        },
        RedfishVendor::NvidiaDpu => Calls::NvidiaDpu,
        RedfishVendor::NvidiaGBx00 => Calls::NvidiaGbx00,
        RedfishVendor::NvidiaGBSwitch => Calls::NvidiaGbSwitch,
        RedfishVendor::NvidiaGH200 => Calls::NvidiaGh200,
        RedfishVendor::Supermicro => Calls::Supermicro,
        RedfishVendor::LiteOnPowerShelf => Calls::LiteonPowershelf,
        _ => Calls::Standard,
    }
}

impl RedfishStandard {
    /// Creates an account.
    pub fn create_user(&self, username: &str, password: &str, role_id: RoleId) -> (r: Request)
        ensures
            r@ == post("AccountService/Accounts"@, account_body(username@, password@, role_id)),
    {
        let body = Object::new().with_text("UserName", username).with_text(
            "Password",
            password,
        ).with_text("RoleId", role_id.name());
        assert(body@ =~= account_body(username@, password@, role_id));
        Request::post("AccountService/Accounts".to_owned(), body)
    }

    /// Removes an account.
    pub fn delete_user(&self, username: &str) -> (r: Request)
        ensures
            r@ == delete("AccountService/Accounts/"@ + username@),
    {
        Request::delete(cat2("AccountService/Accounts/", username))
    }

    /// An account by its id.
    pub fn get_account_by_id(&self, account_id: &str) -> (r: Request)
        ensures
            r@ == get("AccountService/Accounts/"@ + account_id@),
    {
        Request::get(cat2("AccountService/Accounts/", account_id))
    }

    /// Dell ships with all sixteen user accounts populated but disabled.
    /// To create an account we have to edit one of them.
    pub fn edit_account(
        &self,
        account_id: u8,
        username: &str,
        password: &str,
        role_id: RoleId,
        enabled: bool,
    ) -> (r: Request)
        ensures
            r@ == patch(
                "AccountService/Accounts/"@ + decimal(account_id as nat),
                account_body(username@, password@, role_id).push(
                    ("Enabled"@, JsonView::Bool(enabled)),
                ),
            ),
    {
        let id = numeral(account_id as u64);
        let body = Object::new().with_text("UserName", username).with_text(
            "Password",
            password,
        ).with_text("RoleId", role_id.name());
        assert(body@ =~= account_body(username@, password@, role_id));
        Request::patch(
            cat2("AccountService/Accounts/", id.as_str()),
            body.with("Enabled", Json::Bool(enabled)),
        )
    }

    /// The power supplies and voltages.
    pub fn get_power_metrics(&self) -> (r: Request)
        ensures
            r@ == get("Chassis/"@ + self.system() + "/Power/"@),
    {
        Request::get(cat3("Chassis/", self.system_id(), "/Power/"))
    }

    /// The power status.
    pub fn get_power_status(&self) -> (r: Request)
        ensures
            r@ == get("Chassis/"@ + self.system() + "/Power/"@),
    {
        Request::get(cat3("Chassis/", self.system_id(), "/Power/"))
    }

    /// The temperatures and fans.
    pub fn get_thermal_metrics(&self) -> (r: Request)
        ensures
            r@ == get("Chassis/"@ + self.system() + "/Thermal/"@),
    {
        Request::get(cat3("Chassis/", self.system_id(), "/Thermal/"))
    }

    /// The request that changes the power state.
    pub open spec fn power_request(&self, action: SystemPowerControl) -> RequestView {
        post(
            self.system_path("/Actions/ComputerSystem.Reset"@),
            seq![("ResetType"@, JsonView::Text(action.text()))],
        )
    }

    /// Changes the power state. An AC power cycle is a vendor's own matter.
    pub fn power(&self, action: SystemPowerControl) -> (r: Result<Request, RedfishError>)
        ensures
            outcome(r) == (if action == SystemPowerControl::ACPowercycle {
                Err(ErrorView::NotSupported("AC power cycle not supported on this platform"@))
            } else {
                Ok(self.power_request(action))
            }),
    {
        if action == SystemPowerControl::ACPowercycle {
            return Err(not_supported("AC power cycle not supported on this platform"));
        }
        Ok(
            Request::post(
                self.system_url("/Actions/ComputerSystem.Reset"),
                Object::new().with_text("ResetType", action.name()),
            ),
        )
    }

    /// Whether `power` can do an AC power cycle.
    pub fn ac_powercycle_supported_by_power(&self) -> (r: bool)
        ensures
            !r,
    {
        false
    }

    /// The request that restarts the BMC.
    pub open spec fn manager_reset(&self, reset_type: ManagerResetType) -> RequestView {
        post(
            self.manager_path("/Actions/Manager.Reset"@),
            seq![("ResetType"@, JsonView::Text(reset_type.text()))],
        )
    }

    /// Restarts the BMC, with `headers` where the caller gives some.
    /// Dell only has `GracefulRestart`. The standard, and Lenovo, also have `ForceRestart`.
    pub fn reset_manager(
        &self,
        reset_type: ManagerResetType,
        headers: Option<Vec<(String, String)>>,
    ) -> (r: Request)
        ensures
            r@ == (RequestView {
                headers: match headers {
                    Some(h) => h.deep_view(),
                    None => Seq::empty(),
                },
                ..self.manager_reset(reset_type)
            }),
    {
        let mut r = Request::post(
            self.manager_url("/Actions/Manager.Reset"),
            Object::new().with_text("ResetType", reset_type.name()),
        );
        if let Some(h) = headers {
            r.headers = h;
        }
        r
    }

    /// Restarts the BMC gracefully.
    pub fn bmc_reset(&self) -> (r: Request)
        ensures
            r@ == self.manager_reset(ManagerResetType::GracefulRestart),
    {
        self.reset_manager(ManagerResetType::GracefulRestart, None)
    }

    /// Sets the BMC back to its factory settings.
    pub fn bmc_reset_to_defaults(&self) -> (r: Request)
        ensures
            r@ == post(
                self.manager_path("/Actions/Manager.ResetToDefaults"@),
                seq![("ResetType"@, JsonView::Text("ResetAll"@))],
            ),
    {
        Request::post(
            self.manager_url("/Actions/Manager.ResetToDefaults"),
            Object::new().with_text("ResetType", "ResetAll"),
        )
    }

    /// Changes the power state of a chassis.
    pub fn chassis_reset(&self, chassis_id: &str, reset_type: SystemPowerControl) -> (r: Request)
        ensures
            r@ == post(
                "Chassis/"@ + chassis_id@ + "/Actions/Chassis.Reset"@,
                seq![("ResetType"@, JsonView::Text(reset_type.text()))],
            ),
    {
        Request::post(
            cat3("Chassis/", chassis_id, "/Actions/Chassis.Reset"),
            Object::new().with_text("ResetType", reset_type.name()),
        )
    }

    /// Puts no limit on failed logins.
    pub fn set_machine_password_policy(&self) -> (r: Request)
        ensures
            r@ == patch("AccountService"@, no_lockout()),
    {
        let body = Object::new().with("AccountLockoutThreshold", Json::Number("0".to_owned())).with(
            "AccountLockoutDuration",
            Json::Number("0".to_owned()),
        ).with("AccountLockoutCounterResetAfter", Json::Number("0".to_owned()));
        assert(body@ =~= no_lockout());
        Request::patch("AccountService".to_owned(), body)
    }

    /// The boot options.
    pub fn get_boot_options(&self) -> (r: Request)
        ensures
            r@ == get(self.system_path("/BootOptions"@)),
    {
        Request::get(self.system_url("/BootOptions"))
    }

    /// A boot option by its id.
    pub fn get_boot_option(&self, option_id: &str) -> (r: Request)
        ensures
            r@ == get("Systems/"@ + self.system() + "/BootOptions/"@ + option_id@),
    {
        Request::get(cat4("Systems/", self.system_id(), "/BootOptions/", option_id))
    }

    /// A firmware component.
    pub fn get_firmware(&self, id: &str) -> (r: Request)
        ensures
            r@ == get("UpdateService/FirmwareInventory/"@ + id@),
    {
        Request::get(cat2("UpdateService/FirmwareInventory/", id))
    }

    /// Sends a firmware image to the BMC.
    pub fn update_firmware(&self) -> (r: Request)
        ensures
            r@ == plain(Method::Post, "UpdateService"@, PayloadView::File),
    {
        Request::plain(Method::Post, "UpdateService".to_owned(), Payload::File)
    }

    /// A chassis by its id.
    pub fn get_chassis(&self, id: &str) -> (r: Request)
        ensures
            r@ == get("Chassis/"@ + id@),
    {
        Request::get(cat2("Chassis/", id))
    }

    /// The assembly of a chassis.
    pub fn get_chassis_assembly(&self, chassis_id: &str) -> (r: Request)
        ensures
            r@ == get("Chassis/"@ + chassis_id@ + "/Assembly"@),
    {
        Request::get(cat3("Chassis/", chassis_id, "/Assembly"))
    }

    /// A network adapter of a chassis.
    pub fn get_chassis_network_adapter(&self, chassis_id: &str, id: &str) -> (r: Request)
        ensures
            r@ == get("Chassis/"@ + chassis_id@ + "/NetworkAdapters/"@ + id@),
    {
        Request::get(cat4("Chassis/", chassis_id, "/NetworkAdapters/", id))
    }

    /// An Ethernet interface of the BMC.
    pub fn get_manager_ethernet_interface(&self, id: &str) -> (r: Request)
        ensures
            r@ == get("Managers/"@ + self.manager() + "/EthernetInterfaces/"@ + id@),
    {
        Request::get(cat4("Managers/", self.manager_id(), "/EthernetInterfaces/", id))
    }

    /// An Ethernet interface of the system.
    pub fn get_system_ethernet_interface(&self, id: &str) -> (r: Request)
        ensures
            r@ == get("Systems/"@ + self.system() + "/EthernetInterfaces/"@ + id@),
    {
        Request::get(cat4("Systems/", self.system_id(), "/EthernetInterfaces/", id))
    }

    /// The system.
    pub fn get_system(&self) -> (r: Request)
        ensures
            r@ == get(self.system_path("/"@)),
    {
        Request::get(self.system_url("/"))
    }

    /// The BMC.
    pub fn get_manager(&self) -> (r: Request)
        ensures
            r@ == get("Managers/"@ + self.manager()),
    {
        Request::get(cat2("Managers/", self.manager_id()))
    }

    /// The network services of the BMC.
    pub fn get_manager_network_protocol(&self) -> (r: Request)
        ensures
            r@ == get(self.manager_path("/NetworkProtocol"@)),
    {
        Request::get(self.manager_url("/NetworkProtocol"))
    }

    /// Whether secure boot is on.
    pub fn get_secure_boot(&self) -> (r: Request)
        ensures
            r@ == get(self.system_path("/SecureBoot"@)),
    {
        Request::get(self.system_url("/SecureBoot"))
    }

    /// Turns secure boot on.
    pub fn enable_secure_boot(&self) -> (r: Request)
        ensures
            r@ == patch(
                self.system_path("/SecureBoot"@),
                seq![("SecureBootEnable"@, JsonView::Bool(true))],
            ),
    {
        Request::patch(
            self.system_url("/SecureBoot"),
            Object::new().with("SecureBootEnable", Json::Bool(true)),
        )
    }

    /// Turns secure boot off.
    pub fn disable_secure_boot(&self) -> (r: Request)
        ensures
            r@ == patch(
                self.system_path("/SecureBoot"@),
                seq![("SecureBootEnable"@, JsonView::Bool(false))],
            ),
    {
        Request::patch(
            self.system_url("/SecureBoot"),
            Object::new().with("SecureBootEnable", Json::Bool(false)),
        )
    }

    /// Where the certificates of a secure boot database are.
    pub open spec fn certificates_path(&self, database_id: Seq<char>) -> Seq<char> {
        "Systems/"@ + self.system() + "/SecureBoot/SecureBootDatabases/"@ + database_id
            + "/Certificates"@
    }

    /// Where the certificates of a secure boot database are.
    pub fn certificates_url(&self, database_id: &str) -> (r: String)
        ensures
            r@ == self.certificates_path(database_id@),
    {
        cat5(
            "Systems/",
            self.system_id(),
            "/SecureBoot/SecureBootDatabases/",
            database_id,
            "/Certificates",
        )
    }

    /// A certificate of a secure boot database.
    pub fn get_secure_boot_certificate(
        &self,
        database_id: &str,
        certificate_id: &str,
    ) -> (r: Request)
        ensures
            r@ == get(self.certificates_path(database_id@) + "/"@ + certificate_id@),
    {
        let url = self.certificates_url(database_id);
        Request::get(cat3(url.as_str(), "/", certificate_id))
    }

    /// The document that a link leads to.
    pub fn get_resource(&self, id: &ODataId) -> (r: Request)
        ensures
            r@ == get(below_entry_point(id.odata_id@)),
    {
        Request::get(strip_entry_point(id.odata_id.as_str()))
    }

    /// The collection that a link leads to, with its first level expanded.
    pub fn get_collection(&self, id: &ODataId) -> (r: Request)
        ensures
            r@ == collection_request(id.odata_id@),
    {
        expanded_collection(id.odata_id.as_str())
    }

    /// Where the update service is, as the saved service root says, or else where
    /// it usually is.
    pub open spec fn update_service_path(&self) -> Seq<char> {
        let named = match self.root().update_service {
            Some(o) => lookup(o, "@odata.id"@),
            None => None,
        };
        below_entry_point(
            match named {
                Some(JsonView::Text(s)) => s,
                Some(_) => ""@,
                None => "/redfish/v1/UpdateService"@,
            },
        )
    }

    /// Gets the location of the update service from the saved service root
    pub fn update_service(&self) -> (r: String)
        ensures
            r@ == self.update_service_path(),
    {
        let named: Option<&Json> = match &self.saved_root().update_service {
            Some(o) => o.get("@odata.id"),
            None => None,
        };
        match named {
            Some(v) => match v.as_str() {
                Some(s) => strip_entry_point(s),
                None => strip_entry_point(""),
            },
            // Sane default
            None => strip_entry_point("/redfish/v1/UpdateService"),
        }
    }

    /// The update service.
    pub fn get_update_service(&self) -> (r: Request)
        ensures
            r@ == get(self.update_service_path()),
    {
        Request::get(self.update_service())
    }

    /// Turns IPMI over the network on or off.
    pub fn enable_ipmi_over_lan(&self, target: EnabledDisabled) -> (r: Request)
        ensures
            r@ == patch(
                self.manager_path("/NetworkProtocol"@),
                seq![
                    (
                        "IPMI"@,
                        JsonView::Object(
                            seq![
                                (
                                    "ProtocolEnabled"@,
                                    JsonView::Bool(target == EnabledDisabled::Enabled),
                                ),
                            ],
                        ),
                    ),
                ],
            ),
    {
        Request::patch(
            self.manager_url("/NetworkProtocol"),
            Object::new().with(
                "IPMI",
                Object::new().with("ProtocolEnabled", Json::Bool(target.is_enabled())).into_json(),
            ),
        )
    }

    /// What can be attested, with its first level expanded.
    pub fn get_component_integrities(&self) -> (r: Request)
        ensures
            r@ == get("ComponentIntegrity?$expand=.($levels=1)"@),
    {
        Request::get("ComponentIntegrity?$expand=.($levels=1)".to_owned())
    }

    /// The certificate that a link leads to.
    pub fn get_component_ca_certificate(&self, url: &str) -> (r: Request)
        ensures
            r@ == get(below_entry_point(url@)),
    {
        Request::get(strip_entry_point(url))
    }

    /// The evidence that a link leads to.
    pub fn get_evidence(&self, url: &str) -> (r: Request)
        ensures
            r@ == get(below_entry_point(url@) + "/data"@),
    {
        let stripped = strip_entry_point(url);
        Request::get(cat2(stripped.as_str(), "/data"))
    }

    /// Sets the BIOS back to its factory settings.
    pub fn factory_reset_bios(&self) -> (r: Request)
        ensures
            r@ == plain(
                Method::Post,
                self.system_path("/Bios/Actions/Bios.ResetBios"@),
                PayloadView::Empty,
            ),
    {
        Request::plain(
            Method::Post,
            self.system_url("/Bios/Actions/Bios.ResetBios"),
            Payload::Empty,
        )
    }

    /// The request that changes one of the BIOS passwords. HPE has it elsewhere.
    pub open spec fn bios_password_change(
        &self,
        name: Seq<char>,
        old_password: Seq<char>,
        new_password: Seq<char>,
    ) -> RequestView {
        post(
            self.system_path(
                if self.known_vendor() == Some(RedfishVendor::Hpe) {
                    "/Bios/Settings/Actions/Bios.ChangePasswords"@
                } else {
                    "/Bios/Actions/Bios.ChangePassword"@
                },
            ),
            password_change(name, old_password, new_password),
        )
    }

    /// Changes one of the BIOS passwords.
    pub fn change_bios_password(
        &self,
        password_name: &str,
        current_bios_password: &str,
        new_bios_password: &str,
    ) -> (r: Request)
        ensures
            r@ == self.bios_password_change(
                password_name@,
                current_bios_password@,
                new_bios_password@,
            ),
    {
        let url = if self.vendor_is(RedfishVendor::Hpe) {
            self.system_url("/Bios/Settings/Actions/Bios.ChangePasswords")
        } else {
            self.system_url("/Bios/Actions/Bios.ChangePassword")
        };
        let body = Object::new().with_text("PasswordName", password_name).with_text(
            "OldPassword",
            current_bios_password,
        ).with_text("NewPassword", new_bios_password);
        assert(body@ =~= password_change(password_name@, current_bios_password@, new_bios_password@));
        Request::post(url, body)
    }

    /// Changes the UEFI password.
    pub fn change_uefi_password(
        &self,
        current_uefi_password: &str,
        new_uefi_password: &str,
    ) -> (r: Request)
        ensures
            r@ == self.bios_password_change(
                "AdministratorPassword"@,
                current_uefi_password@,
                new_uefi_password@,
            ),
    {
        self.change_bios_password(UEFI_PASSWORD_NAME, current_uefi_password, new_uefi_password)
    }

    /// Clears the UEFI password.
    pub fn clear_uefi_password(&self, current_uefi_password: &str) -> (r: Request)
        ensures
            r@ == self.bios_password_change(
                "AdministratorPassword"@,
                current_uefi_password@,
                ""@,
            ),
    {
        self.change_uefi_password(current_uefi_password, "")
    }

    /// The entries of the event log at `url`, all or those from a moment on. There is
    /// no such request where the moment cannot be written as a date.
    pub fn fetch_bmc_event_log(&self, url: String, from: Option<Timestamp>) -> (r: Option<Request>)
        ensures
            r.deep_view() == (match from {
                Some(from) => match rfc3339(from.secs, from.nanos) {
                    Some(stamp) => Some(get(filtered_log_url(url@, stamp))),
                    None => None,
                },
                None => Some(get(url@)),
            }),
    {
        match from {
            Some(from) => match to_rfc3339(from.secs, from.nanos) {
                Some(stamp) => Some(Request::get(event_log_url(url.as_str(), stamp.as_str()))),
                None => None,
            },
            None => Some(Request::get(url)),
        }
    }

    /// Records the vendor, and gives the calls that the machine takes, made by a client
    /// that is the same as this one.
    pub fn set_vendor(&mut self, vendor: RedfishVendor) -> (r: Result<Backend, RedfishError>)
        ensures
            r matches Ok(backend) && backend.calls() == calls_of(
                vendor,
                old(self).system(),
                old(self).manager(),
                old(self).root(),
            ),
            r matches Ok(backend) && {
                let s = backend.standard();
                &&& s.known_vendor() == Some(vendor)
                &&& s.system() == old(self).system()
                &&& s.manager() == old(self).manager()
                &&& s.root() == old(self).root()
                &&& s.http_client() == old(self).http_client()
            },
            final(self).known_vendor() == Some(vendor),
            final(self).system() == old(self).system(),
            final(self).manager() == old(self).manager(),
            final(self).root() == old(self).root(),
            final(self).http_client() == old(self).http_client(),
    {
        self.record_vendor(vendor);
        let s = self.clone();
        let backend = match vendor {
            // nvidia dgx systems may have both ami and nvidia as vendor strings depending on hw
            // ami also ships its bmc fw for other system vendors.
            RedfishVendor::AMI => if same(self.system_id(), "DGX") && same(
                self.manager_id(),
                "BMC",
            ) {
                Backend::NvidiaViking(s)
            } else {
                Backend::Ami(s)
            },
            RedfishVendor::Dell => Backend::Dell(dell::Bmc::new(s)?),
            RedfishVendor::Hpe => Backend::Hpe(s),
            // Check if this Lenovo has an AMI-based BMC
            RedfishVendor::Lenovo => if self.saved_root().has_ami_bmc() {
                Backend::Ami(s)
            } else {
                Backend::Lenovo(s)
            },
            RedfishVendor::NvidiaDpu => Backend::NvidiaDpu(s),
            RedfishVendor::NvidiaGBx00 => Backend::NvidiaGbx00(s),
            RedfishVendor::NvidiaGBSwitch => Backend::NvidiaGbSwitch(s),
            RedfishVendor::NvidiaGH200 => Backend::NvidiaGh200(s),
            RedfishVendor::Supermicro => Backend::Supermicro(supermicro::Bmc::new(s)?),
            RedfishVendor::LiteOnPowerShelf => Backend::LiteonPowershelf(s),
            _ => Backend::Standard(s),
        };
        Ok(backend)
    }
}

/// The settings that put no limit on failed logins.
pub open spec fn no_lockout() -> ObjectView {
    seq![
        ("AccountLockoutThreshold"@, JsonView::Number("0"@)),
        ("AccountLockoutDuration"@, JsonView::Number("0"@)),
        ("AccountLockoutCounterResetAfter"@, JsonView::Number("0"@)),
    ]
}

/// The body that describes an account.
pub open spec fn account_body(
    username: Seq<char>,
    password: Seq<char>,
    role_id: RoleId,
) -> ObjectView {
    seq![
        ("UserName"@, JsonView::Text(username)),
        ("Password"@, JsonView::Text(password)),
        ("RoleId"@, JsonView::Text(role_id.text())),
    ]
}

/// The calls that the standard leaves to the vendors.
impl RedfishStandard {
    /// The GPU sensors.
    pub fn get_gpu_sensors(&self) -> (r: Result<Request, RedfishError>)
        ensures
            outcome(r) == Err::<RequestView, _>(
                ErrorView::NotSupported("No GPUs on this machine"@),
            ),
    {
        Err(not_supported("No GPUs on this machine"))
    }

    /// The system event log.
    pub fn get_system_event_log(&self) -> (r: Result<Request, RedfishError>)
        ensures
            outcome(r) == Err::<RequestView, _>(ErrorView::NotSupported("SEL"@)),
    {
        Err(not_supported("SEL"))
    }

    /// The event log of the BMC.
    pub fn get_bmc_event_log(&self, _from: Option<Timestamp>) -> (r: Result<Request, RedfishError>)
        ensures
            outcome(r) == Err::<RequestView, _>(ErrorView::NotSupported("BMC Event Log"@)),
    {
        Err(not_supported("BMC Event Log"))
    }

    /// Sets BIOS attributes.
    pub fn set_bios(&self, _values: &Object) -> (r: Result<Request, RedfishError>)
        ensures
            outcome(r) == Err::<RequestView, _>(
                ErrorView::NotSupported(
                    "set_bios is vendor specific and not available on this platform"@,
                ),
            ),
    {
        Err(not_supported("set_bios is vendor specific and not available on this platform"))
    }

    /// Resets the BIOS attributes.
    pub fn reset_bios(&self) -> (r: Result<Request, RedfishError>)
        ensures
            outcome(r) == Err::<RequestView, _>(
                ErrorView::NotSupported(
                    "reset_bios is vendor specific and not available on this platform"@,
                ),
            ),
    {
        Err(not_supported("reset_bios is vendor specific and not available on this platform"))
    }

    /// Sets up the machine.
    pub fn machine_setup(
        &self,
        _boot_interface_mac: Option<&str>,
        _selected_profile: BiosProfileType,
    ) -> (r: Result<Request, RedfishError>)
        ensures
            outcome(r) == Err::<RequestView, _>(ErrorView::NotSupported("machine_setup"@)),
    {
        Err(not_supported("machine_setup"))
    }

    /// Whether the machine is set up.
    pub fn machine_setup_status(
        &self,
        _boot_interface_mac: Option<&str>,
    ) -> (r: Result<Request, RedfishError>)
        ensures
            outcome(r) == Err::<RequestView, _>(ErrorView::NotSupported("machine_setup_status"@)),
    {
        Err(not_supported("machine_setup_status"))
    }

    /// Locks or unlocks the machine.
    pub fn lockdown(&self, _target: EnabledDisabled) -> (r: Result<Request, RedfishError>)
        ensures
            outcome(r) == Err::<RequestView, _>(ErrorView::NotSupported("lockdown"@)),
    {
        Err(not_supported("lockdown"))
    }

    /// Whether the machine is locked.
    pub fn lockdown_status(&self) -> (r: Result<Request, RedfishError>)
        ensures
            outcome(r) == Err::<RequestView, _>(ErrorView::NotSupported("lockdown_status"@)),
    {
        Err(not_supported("lockdown_status"))
    }

    /// Sets up the serial console.
    pub fn setup_serial_console(&self) -> (r: Result<Request, RedfishError>)
        ensures
            outcome(r) == Err::<RequestView, _>(ErrorView::NotSupported("setup_serial_console"@)),
    {
        Err(not_supported("setup_serial_console"))
    }

    /// Whether the serial console is set up.
    pub fn serial_console_status(&self) -> (r: Result<Request, RedfishError>)
        ensures
            outcome(r) == Err::<RequestView, _>(ErrorView::NotSupported("setup_serial_console"@)),
    {
        Err(not_supported("setup_serial_console"))
    }

    /// Boots from something else once.
    pub fn boot_once(&self, _target: Boot) -> (r: Result<Request, RedfishError>)
        ensures
            outcome(r) == Err::<RequestView, _>(ErrorView::NotSupported("boot_once"@)),
    {
        Err(not_supported("boot_once"))
    }

    /// Boots from something else from now on.
    pub fn boot_first(&self, _target: Boot) -> (r: Result<Request, RedfishError>)
        ensures
            outcome(r) == Err::<RequestView, _>(ErrorView::NotSupported("boot_first"@)),
    {
        Err(not_supported("boot_first"))
    }

    /// Clears the TPM.
    pub fn clear_tpm(&self) -> (r: Result<Request, RedfishError>)
        ensures
            outcome(r) == Err::<RequestView, _>(ErrorView::NotSupported("clear_tpm"@)),
    {
        Err(not_supported("clear_tpm"))
    }

    /// Sends a firmware image in parts.
    pub fn update_firmware_multipart(
        &self,
        _reboot: bool,
        _timeout: Timeout,
        _component_type: ComponentType,
    ) -> (r: Result<Request, RedfishError>)
        ensures
            outcome(r) == Err::<RequestView, _>(
                ErrorView::NotSupported(
                    "Multipart firmware updates not currently supported on this platform"@,
                ),
            ),
    {
        Err(not_supported("Multipart firmware updates not currently supported on this platform"))
    }

    /// The base network adapters: only implemented in iLO5, and removed in iLO6.
    pub fn get_base_network_adapters(&self, _system_id: &str) -> (r: Result<Request, RedfishError>)
        ensures
            outcome(r) == Err::<RequestView, _>(
                ErrorView::NotSupported("BaseNetworkAdapter is only supported in iLO5"@),
            ),
    {
        Err(not_supported("BaseNetworkAdapter is only supported in iLO5"))
    }

    /// A base network adapter: only implemented in iLO5, and removed in iLO6.
    pub fn get_base_network_adapter(
        &self,
        _system_id: &str,
        _id: &str,
    ) -> (r: Result<Request, RedfishError>)
        ensures
            outcome(r) == Err::<RequestView, _>(
                ErrorView::NotSupported("BaseNetworkAdapter is only supported in iLO5"@),
            ),
    {
        Err(not_supported("BaseNetworkAdapter is only supported in iLO5"))
    }

    /// The network device functions.
    pub fn get_network_device_functions(
        &self,
        _chassis_id: &str,
    ) -> (r: Result<Request, RedfishError>)
        ensures
            outcome(r) == Err::<RequestView, _>(
                ErrorView::NotSupported("get_network_device_functions"@),
            ),
    {
        Err(not_supported("get_network_device_functions"))
    }

    /// A network device function.
    pub fn get_network_device_function(
        &self,
        _chassis_id: &str,
        _id: &str,
        _port: Option<&str>,
    ) -> (r: Result<Request, RedfishError>)
        ensures
            outcome(r) == Err::<RequestView, _>(
                ErrorView::NotSupported("get_network_device_function"@),
            ),
    {
        Err(not_supported("get_network_device_function"))
    }

    /// The ports of a network adapter.
    pub fn get_ports(
        &self,
        _chassis_id: &str,
        _network_adapter: &str,
    ) -> (r: Result<Request, RedfishError>)
        ensures
            outcome(r) == Err::<RequestView, _>(ErrorView::NotSupported("get_ports"@)),
    {
        Err(not_supported("get_ports"))
    }

    /// A port of a network adapter.
    pub fn get_port(
        &self,
        _chassis_id: &str,
        _network_adapter: &str,
        _id: &str,
    ) -> (r: Result<Request, RedfishError>)
        ensures
            outcome(r) == Err::<RequestView, _>(ErrorView::NotSupported("get_port"@)),
    {
        Err(not_supported("get_port"))
    }

    /// Sets the boot order.
    pub fn change_boot_order(&self, _boot_array: &[String]) -> (r: Result<Request, RedfishError>)
        ensures
            outcome(r) == Err::<RequestView, _>(ErrorView::NotSupported("change_boot_order"@)),
    {
        Err(not_supported("change_boot_order"))
    }

    /// How far a job has come.
    pub fn get_job_state(&self, _job_id: &str) -> (r: Result<Request, RedfishError>)
        ensures
            outcome(r) == Err::<RequestView, _>(ErrorView::NotSupported("get_job_state"@)),
    {
        Err(not_supported("get_job_state"))
    }

    /// Boots from the DPU first.
    pub fn set_boot_order_dpu_first(&self, _address: &str) -> (r: Result<Request, RedfishError>)
        ensures
            outcome(r) == Err::<RequestView, _>(
                ErrorView::NotSupported("set_boot_order_dpu_first"@),
            ),
    {
        Err(not_supported("set_boot_order_dpu_first"))
    }

    /// The base MAC address.
    pub fn get_base_mac_address(&self) -> (r: Result<Request, RedfishError>)
        ensures
            outcome(r) == Err::<RequestView, _>(ErrorView::NotSupported("get_base_mac_address"@)),
    {
        Err(not_supported("get_base_mac_address"))
    }

    /// Gives the BMC the rshim.
    pub fn enable_rshim_bmc(&self) -> (r: Result<Request, RedfishError>)
        ensures
            outcome(r) == Err::<RequestView, _>(ErrorView::NotSupported("enable_rshim_bmc"@)),
    {
        Err(not_supported("enable_rshim_bmc"))
    }

    /// Clears the NVRAM.
    pub fn clear_nvram(&self) -> (r: Result<Request, RedfishError>)
        ensures
            outcome(r) == Err::<RequestView, _>(ErrorView::NotSupported("clear_nvram"@)),
    {
        Err(not_supported("clear_nvram"))
    }

    /// Changes the mode of a DPU.
    pub fn set_nic_mode(&self, _mode: NicMode) -> (r: Result<Request, RedfishError>)
        ensures
            outcome(r) == Err::<RequestView, _>(ErrorView::NotSupported("set_nic_mode"@)),
    {
        Err(not_supported("set_nic_mode"))
    }

    /// Makes the machine try its boot order for ever.
    pub fn enable_infinite_boot(&self) -> (r: Result<Request, RedfishError>)
        ensures
            outcome(r) == Err::<RequestView, _>(ErrorView::NotSupported("enable_infinite_boot"@)),
    {
        Err(not_supported("enable_infinite_boot"))
    }

    /// Gives the host the rshim, or takes it.
    pub fn set_host_rshim(&self, _enabled: EnabledDisabled) -> (r: Result<Request, RedfishError>)
        ensures
            outcome(r) == Err::<RequestView, _>(ErrorView::NotSupported("set_host_rshim"@)),
    {
        Err(not_supported("set_host_rshim"))
    }

    /// Locks or unlocks an iDRAC.
    pub fn set_idrac_lockdown(
        &self,
        _enabled: EnabledDisabled,
    ) -> (r: Result<Request, RedfishError>)
        ensures
            outcome(r) == Err::<RequestView, _>(ErrorView::NotSupported("set_idrac_lockdown"@)),
    {
        Err(not_supported("set_idrac_lockdown"))
    }

    /// Wipes the drives of a storage controller.
    pub fn decommission_storage_controller(
        &self,
        _controller_id: &str,
    ) -> (r: Result<Request, RedfishError>)
        ensures
            outcome(r) == Err::<RequestView, _>(
                ErrorView::NotSupported("decommission_storage_controller"@),
            ),
    {
        Err(not_supported("decommission_storage_controller"))
    }

    /// Creates a volume.
    pub fn create_storage_volume(
        &self,
        _controller_id: &str,
        _volume_name: &str,
    ) -> (r: Result<Request, RedfishError>)
        ensures
            outcome(r) == Err::<RequestView, _>(ErrorView::NotSupported("create_storage_volume"@)),
    {
        Err(not_supported("create_storage_volume"))
    }

    /// Whether the boot order is set up.
    pub fn is_boot_order_setup(
        &self,
        _boot_interface_mac: &str,
    ) -> (r: Result<Request, RedfishError>)
        ensures
            outcome(r) == Err::<RequestView, _>(ErrorView::NotSupported("is_boot_order_setup"@)),
    {
        Err(not_supported("is_boot_order_setup"))
    }

    /// Whether the BIOS is set up.
    pub fn is_bios_setup(
        &self,
        _boot_interface_mac: Option<&str>,
    ) -> (r: Result<Request, RedfishError>)
        ensures
            outcome(r) == Err::<RequestView, _>(ErrorView::NotSupported("is_bios_setup"@)),
    {
        Err(not_supported("is_bios_setup"))
    }

    /// The firmware of a component that can be attested.
    pub fn get_firmware_for_component(
        &self,
        _component_integrity_id: &str,
    ) -> (r: Result<Request, RedfishError>)
        ensures
            outcome(r) == Err::<RequestView, _>(
                ErrorView::NotSupported("Not implemented for the given vendor."@),
            ),
    {
        Err(not_supported("Not implemented for the given vendor."))
    }

    /// Sets what the host may do with its DPU.
    pub fn set_host_privilege_level(
        &self,
        _level: HostPrivilegeLevel,
    ) -> (r: Result<Request, RedfishError>)
        ensures
            outcome(r) == Err::<RequestView, _>(
                ErrorView::NotSupported("set_host_privilege_level"@),
            ),
    {
        Err(not_supported("set_host_privilege_level"))
    }

    /// Turns the hot spare power supply off. It is Dell's own; other vendors handle redundancy otherwise.
    pub fn disable_psu_hot_spare(&self) -> (r: Result<Request, RedfishError>)
        ensures
            outcome(r) == Err::<RequestView, _>(ErrorView::NotSupported("disable_psu_hot_spare"@)),
    {
        Err(not_supported("disable_psu_hot_spare"))
    }

    /// The mode of the DPU: there is none to speak of.
    pub fn get_nic_mode(&self) -> (r: Result<Option<NicMode>, RedfishError>)
        ensures
            r matches Ok(v) && v is None,
    {
        Ok(None)
    }

    /// Whether the machine tries its boot order for ever: not known.
    pub fn is_infinite_boot_enabled(&self) -> (r: Result<Option<bool>, RedfishError>)
        ensures
            r matches Ok(v) && v is None,
    {
        Ok(None)
    }

    /// Whether the host has the rshim: there is none.
    pub fn get_host_rshim(&self) -> (r: Result<Option<EnabledDisabled>, RedfishError>)
        ensures
            r matches Ok(v) && v is None,
    {
        Ok(None)
    }

    /// The boot drive controller: there is none.
    pub fn get_boss_controller(&self) -> (r: Result<Option<String>, RedfishError>)
        ensures
            r matches Ok(v) && v is None,
    {
        Ok(None)
    }

    /// Locks or unlocks the BMC: nothing to do.
    pub fn lockdown_bmc(&self, _target: EnabledDisabled) -> (r: Result<(), RedfishError>)
        ensures
            r matches Ok(v) && v == (),
    {
        Ok(())
    }

    /// Sets the clock of the BMC to UTC: nothing to do but on a Dell.
    pub fn set_utc_timezone(&self) -> (r: Result<(), RedfishError>)
        ensures
            r matches Ok(v) && v == (),
    {
        Ok(())
    }
}

} // verus!
