//! The calls that use the Redfish standard without any OEM extensions.
use crate::error::{outcome, Fault, RedfishError};
use crate::exchange::{
    fetched, flow, get, patch, plain, sent, settle, settled, Exchange, Flow, Method, Payload,
    PayloadView, Request, RequestView, Stop, Tape, Timeout,
};
use crate::json::{alike, member, Json, JsonView, Object, ObjectView};
use crate::jsonmap::{entries_of, get_member_names, get_object, get_value, member_names, value_of};
use crate::model::{
    Chassis, ComputerSystem, ManagerAccount, Members, PowerState, RedfishVendor, RootView,
    ServiceRoot,
};
use crate::order::{in_order, references_to, refs, sort_by_name};
use crate::requests::{collection_request, expanded_collection};
use crate::text::{cat2, cat3, same};
use vstd::prelude::*;
use vstd::string::*;

verus! {

/// Where a BMC is reached.
#[derive(Debug, PartialEq, Eq)]
pub struct RedfishHttpClient {
    pub host: String,
}

/// The calls that use the Redfish standard without any OEM extensions.
#[derive(Debug, PartialEq, Eq)]
pub struct RedfishStandard {
    pub client: RedfishHttpClient,
    pub vendor: Option<RedfishVendor>,
    manager_id: String,
    system_id: String,
    service_root: ServiceRoot,
}

impl RedfishStandard {
    /// The system that `Systems/` calls are for.
    pub closed spec fn system(&self) -> Seq<char> {
        self.system_id@
    }

    /// The manager that `Managers/` calls are for.
    pub closed spec fn manager(&self) -> Seq<char> {
        self.manager_id@
    }

    /// The service root that was saved.
    pub closed spec fn root(&self) -> RootView {
        self.service_root.deep_view()
    }

    /// The vendor, where it is known.
    pub closed spec fn known_vendor(&self) -> Option<RedfishVendor> {
        self.vendor
    }

    /// Where the BMC is reached.
    pub closed spec fn http_client(&self) -> RedfishHttpClient {
        self.client
    }

    /// A client for a BMC of which nothing is known yet.
    pub fn new(client: RedfishHttpClient) -> (r: Self)
        ensures
            r.http_client() == client,
            r.known_vendor() is None,
            r.system() == ""@,
            r.manager() == ""@,
            r.root() == RootView::unknown(),
    {
        RedfishStandard {
            client,
            manager_id: "".to_owned(),
            system_id: "".to_owned(),
            vendor: None,
            service_root: ServiceRoot::default(),
        }
    }

    /// Needed for all `Systems/{system_id}/...` calls
    pub fn set_system_id(&mut self, system_id: &str) -> (r: Result<(), RedfishError>)
        ensures
            r is Ok,
            final(self).system() == system_id@,
            final(self).manager() == old(self).manager(),
            final(self).root() == old(self).root(),
            final(self).http_client() == old(self).http_client(),
            final(self).known_vendor() == old(self).known_vendor(),
    {
        self.system_id = system_id.to_owned();
        Ok(())
    }

    /// Needed for all `Managers/{manager_id}/...` calls
    pub fn set_manager_id(&mut self, manager_id: &str) -> (r: Result<(), RedfishError>)
        ensures
            r is Ok,
            final(self).manager() == manager_id@,
            final(self).system() == old(self).system(),
            final(self).root() == old(self).root(),
            final(self).http_client() == old(self).http_client(),
            final(self).known_vendor() == old(self).known_vendor(),
    {
        self.manager_id = manager_id.to_owned();
        Ok(())
    }

    /// Saves the service root for later use
    pub fn set_service_root(&mut self, service_root: ServiceRoot) -> (r: Result<(), RedfishError>)
        ensures
            r is Ok,
            final(self).root() == service_root.deep_view(),
            final(self).system() == old(self).system(),
            final(self).manager() == old(self).manager(),
            final(self).http_client() == old(self).http_client(),
            final(self).known_vendor() == old(self).known_vendor(),
    {
        self.service_root = service_root;
        Ok(())
    }

    /// The system that `Systems/` calls are for.
    pub fn system_id<'a>(&'a self) -> (r: &'a str)
        ensures
            r@ == self.system(),
    {
        self.system_id.as_str()
    }

    /// The manager that `Managers/` calls are for.
    pub fn manager_id<'a>(&'a self) -> (r: &'a str)
        ensures
            r@ == self.manager(),
    {
        self.manager_id.as_str()
    }

    /// The service root that was saved.
    pub fn saved_root<'a>(&'a self) -> (r: &'a ServiceRoot)
        ensures
            r.deep_view() == self.root(),
    {
        &self.service_root
    }

    /// Whether the vendor is known to be `vendor`.
    pub fn vendor_is(&self, vendor: RedfishVendor) -> (r: bool)
        ensures
            r == (self.known_vendor() == Some(vendor)),
    {
        match self.vendor {
            Some(known) => known == vendor,
            None => false,
        }
    }

    /// Records the vendor.
    pub fn record_vendor(&mut self, vendor: RedfishVendor)
        ensures
            final(self).known_vendor() == Some(vendor),
            final(self).system() == old(self).system(),
            final(self).manager() == old(self).manager(),
            final(self).root() == old(self).root(),
            final(self).http_client() == old(self).http_client(),
    {
        self.vendor = Some(vendor);
    }

    /// The document at `tail` below this system.
    pub open spec fn system_path(&self, tail: Seq<char>) -> Seq<char> {
        "Systems/"@ + self.system() + tail
    }

    /// The document at `tail` below this manager.
    pub open spec fn manager_path(&self, tail: Seq<char>) -> Seq<char> {
        "Managers/"@ + self.manager() + tail
    }

    /// The document at `tail` below this system.
    pub fn system_url(&self, tail: &str) -> (r: String)
        ensures
            r@ == self.system_path(tail@),
    {
        cat3("Systems/", self.system_id(), tail)
    }

    /// The document at `tail` below this manager.
    pub fn manager_url(&self, tail: &str) -> (r: String)
        ensures
            r@ == self.manager_path(tail@),
    {
        cat3("Managers/", self.manager_id(), tail)
    }

    /// The BIOS document of the system.
    pub fn bios(&self) -> (r: Request)
        ensures
            r@ == get(self.system_path("/Bios"@)),
    {
        Request::get(self.system_url("/Bios"))
    }

    /// The current BIOS attributes.
    pub open spec fn bios_attributes_flow(&self, t: Tape) -> Flow<JsonView> {
        let url = self.system_path("/Bios"@);
        fetched::<Object>(get(url), t).and_then(
            |body: ObjectView, t: Tape| settled(value_of(body, "Attributes"@, url), t),
        )
    }

    /// The current BIOS attributes.
    pub fn bios_attributes<'a>(&self, io: &mut Exchange<'a>) -> (r: Result<&'a Json, Stop>)
        ensures
            flow(r, final(io)@) == self.bios_attributes_flow(old(io)@),
    {
        let url = self.system_url("/Bios");
        let body: &'a Object = io.fetch::<Object>(self.bios())?;
        settle(get_value(body, "Attributes", url.as_str()))
    }

    /// The BIOS attributes that will be applied on next restart.
    pub open spec fn pending_attributes_flow(&self, url: Seq<char>, t: Tape) -> Flow<ObjectView> {
        fetched::<Object>(get(url), t).and_then(
            |body: ObjectView, t: Tape| settled(entries_of(body, "Attributes"@, url), t),
        )
    }

    /// The BIOS attributes that will be applied on next restart.
    pub fn pending_attributes<'a>(&self, pending_url: &str, io: &mut Exchange<'a>) -> (r: Result<
        &'a Object,
        Stop,
    >)
        ensures
            flow(r, final(io)@) == self.pending_attributes_flow(pending_url@, old(io)@),
    {
        let body: &'a Object = io.fetch::<Object>(Request::get(pending_url.to_owned()))?;
        settle(get_object(body, "Attributes", pending_url))
    }

    /// The pending changes: what the document at `url` has other than the current
    /// attributes.
    pub open spec fn pending_with_url_flow(&self, url: Seq<char>, t: Tape) -> Flow<ObjectView> {
        self.pending_attributes_flow(url, t).and_then(
            |pending: ObjectView, t: Tape|
                self.bios_attributes_flow(t).map(
                    |current: JsonView| differing(pending, current),
                ),
        )
    }

    /// The pending changes. The URL differs for Lenovo, but the rest is the same.
    pub fn pending_with_url<'a>(&self, pending_url: &str, io: &mut Exchange<'a>) -> (r: Result<
        Object,
        Stop,
    >)
        ensures
            flow(r, final(io)@) == self.pending_with_url_flow(pending_url@, old(io)@),
    {
        let pending: &'a Object = self.pending_attributes(pending_url, io)?;
        let current: &'a Json = self.bios_attributes(io)?;
        Ok(attr_diff(pending, current))
    }

    /// The pending changes.
    pub fn pending<'a>(&self, io: &mut Exchange<'a>) -> (r: Result<Object, Stop>)
        ensures
            flow(r, final(io)@) == self.pending_with_url_flow(
                self.system_path("/Bios/Settings"@),
                old(io)@,
            ),
    {
        let url = self.system_url("/Bios/Settings");
        self.pending_with_url(url.as_str(), io)
    }

    /// The request that sets the pending changes back to the current values.
    pub open spec fn clear_pending_with_url_flow(&self, url: Seq<char>, t: Tape) -> Flow<()> {
        self.pending_attributes_flow(url, t).and_then(
            |pending: ObjectView, t: Tape|
                self.bios_attributes_flow(t).and_then(
                    |current: JsonView, t: Tape|
                        sent(
                            patch(
                                url,
                                seq![
                                    (
                                        "Attributes"@,
                                        JsonView::Object(
                                            current_values(differing(pending, current), current),
                                        ),
                                    ),
                                ],
                            ),
                            t,
                        ),
                ),
        )
    }

    /// There's no standard Redfish way to clear pending BIOS settings, so we find
    /// the pending changes and set them back to their existing values
    pub fn clear_pending_with_url<'a>(&self, pending_url: &str, io: &mut Exchange<'a>) -> (r:
        Result<(), Stop>)
        ensures
            flow(r, final(io)@) == self.clear_pending_with_url_flow(pending_url@, old(io)@),
    {
        let pending: &'a Object = self.pending_attributes(pending_url, io)?;
        let current: &'a Json = self.bios_attributes(io)?;
        let diff = attr_diff(pending, current);
        let reset = reset_attributes(&diff, current);
        io.send(
            Request::patch(
                pending_url.to_owned(),
                Object::new().with("Attributes", reset.into_json()),
            ),
        )
    }

    /// Sets the pending changes back to the current values.
    pub fn clear_pending<'a>(&self, io: &mut Exchange<'a>) -> (r: Result<(), Stop>)
        ensures
            flow(r, final(io)@) == self.clear_pending_with_url_flow(
                self.system_path("/Bios/Settings"@),
                old(io)@,
            ),
    {
        let url = self.system_url("/Bios/Settings");
        self.clear_pending_with_url(url.as_str(), io)
    }

    /// The names of the documents in the collection that `request` asks for.
    pub open spec fn members_flow(&self, request: RequestView, t: Tape) -> Flow<Seq<Seq<char>>> {
        fetched::<Object>(request, t).and_then(
            |body: ObjectView, t: Tape| settled(member_names(body, request.url), t),
        )
    }

    /// The names of the documents in the collection at `url`.
    pub fn get_members<'a>(&self, url: &str, io: &mut Exchange<'a>) -> (r: Result<
        Vec<String>,
        Stop,
    >)
        ensures
            flow(r, final(io)@) == self.members_flow(get(url@), old(io)@),
    {
        let body: &'a Object = io.fetch::<Object>(Request::get(url.to_owned()))?;
        settle(self.parse_members(url, body))
    }

    /// The names of the documents in the collection at `url`, with a time limit
    /// for the answer.
    pub fn get_members_with_timout<'a>(
        &self,
        url: &str,
        timeout: Option<Timeout>,
        io: &mut Exchange<'a>,
    ) -> (r: Result<Vec<String>, Stop>)
        ensures
            flow(r, final(io)@) == self.members_flow(
                (RequestView { timeout, ..get(url@) }),
                old(io)@,
            ),
    {
        let mut request = Request::get(url.to_owned());
        request.timeout = timeout;
        let body: &'a Object = io.fetch::<Object>(request)?;
        settle(self.parse_members(url, body))
    }

    /// The names of the documents that a collection leads to.
    pub fn parse_members(&self, url: &str, body: &Object) -> (r: Result<Vec<String>, RedfishError>)
        ensures
            outcome(r) == member_names(body@, url@),
    {
        get_member_names(body, url)
    }

    /// The ids of all tasks.
    pub fn get_tasks<'a>(&self, io: &mut Exchange<'a>) -> (r: Result<Vec<String>, Stop>)
        ensures
            flow(r, final(io)@) == self.members_flow(get("TaskService/Tasks/"@), old(io)@),
    {
        self.get_members("TaskService/Tasks/", io)
    }

    /// The ids of all chassis.
    pub fn get_chassis_all<'a>(&self, io: &mut Exchange<'a>) -> (r: Result<Vec<String>, Stop>)
        ensures
            flow(r, final(io)@) == self.members_flow(get("Chassis/"@), old(io)@),
    {
        self.get_members("Chassis/", io)
    }

    /// The ids of the network adapters of a chassis.
    pub fn get_chassis_network_adapters<'a>(&self, chassis_id: &str, io: &mut Exchange<'a>) -> (r:
        Result<Vec<String>, Stop>)
        ensures
            flow(r, final(io)@) == self.members_flow(
                get("Chassis/"@ + chassis_id@ + "/NetworkAdapters"@),
                old(io)@,
            ),
    {
        let url = cat3("Chassis/", chassis_id, "/NetworkAdapters");
        self.get_members(url.as_str(), io)
    }

    /// The ids of the Ethernet interfaces of the BMC.
    pub fn get_manager_ethernet_interfaces<'a>(&self, io: &mut Exchange<'a>) -> (r: Result<
        Vec<String>,
        Stop,
    >)
        ensures
            flow(r, final(io)@) == self.members_flow(
                get(self.manager_path("/EthernetInterfaces"@)),
                old(io)@,
            ),
    {
        let url = self.manager_url("/EthernetInterfaces");
        self.get_members(url.as_str(), io)
    }

    /// The ids of the Ethernet interfaces of the system.
    pub fn get_system_ethernet_interfaces<'a>(&self, io: &mut Exchange<'a>) -> (r: Result<
        Vec<String>,
        Stop,
    >)
        ensures
            flow(r, final(io)@) == self.members_flow(
                get(self.system_path("/EthernetInterfaces"@)),
                old(io)@,
            ),
    {
        let url = self.system_url("/EthernetInterfaces");
        self.get_members(url.as_str(), io)
    }

    /// The ids of all firmware components.
    pub fn get_software_inventories<'a>(&self, io: &mut Exchange<'a>) -> (r: Result<
        Vec<String>,
        Stop,
    >)
        ensures
            flow(r, final(io)@) == self.members_flow(
                get("UpdateService/FirmwareInventory"@),
                old(io)@,
            ),
    {
        self.get_members("UpdateService/FirmwareInventory", io)
    }

    /// The ids of the certificates of a secure boot database.
    pub fn get_secure_boot_certificates<'a>(&self, database_id: &str, io: &mut Exchange<'a>) -> (r:
        Result<Vec<String>, Stop>)
        ensures
            flow(r, final(io)@) == self.members_flow(
                get(self.certificates_path(database_id@)),
                old(io)@,
            ),
    {
        let url = self.certificates_url(database_id);
        self.get_members(url.as_str(), io)
    }

    /// The first account with the name `username` among those with the ids `ids`.
    pub open spec fn account_among(ids: Seq<Seq<char>>, username: Seq<char>, t: Tape) -> Flow<
        ManagerAccount,
    >
        decreases ids.len(),
    {
        if ids.len() == 0 {
            Flow::Fail(Fault::UserNotFound(username), t)
        } else {
            match fetched::<ManagerAccount>(get("AccountService/Accounts/"@ + ids[0]), t) {
                Flow::Ready(account, t) => if account.username@ == username {
                    Flow::Ready(account, t)
                } else {
                    Self::account_among(ids.drop_first(), username, t)
                },
                Flow::Fail(e, t) => Flow::Fail(e, t),
                Flow::Wait(q, k) => Flow::Wait(q, k),
            }
        }
    }

    /// The account with the name `username`.
    pub open spec fn account_by_name_flow(&self, username: Seq<char>, t: Tape) -> Flow<
        ManagerAccount,
    > {
        self.members_flow(get("AccountService/Accounts"@), t).and_then(
            |ids: Seq<Seq<char>>, t: Tape| Self::account_among(ids, username, t),
        )
    }

    /// Iterates all accounts comparing the username. In practice I've never seen a
    /// BMC with more than about three accounts, so perf not a concern.
    /// Returns an error if the account does not exist.
    pub fn get_account_by_name<'a>(&self, username: &str, io: &mut Exchange<'a>) -> (r: Result<
        &'a ManagerAccount,
        Stop,
    >)
        ensures
            flow(r, final(io)@) == self.account_by_name_flow(username@, old(io)@),
    {
        let ids: Vec<String> = self.get_members("AccountService/Accounts", io)?;
        let ghost all = ids.deep_view();
        let mut i: usize = 0;
        assert(all.skip(0) =~= all);
        while i < ids.len()
            invariant
                i <= ids.len(),
                all == ids.deep_view(),
                self.account_by_name_flow(username@, old(io)@) == Self::account_among(
                    all.skip(i as int),
                    username@,
                    io@,
                ),
            decreases ids.len() - i,
        {
            assert(all.skip(i as int).drop_first() =~= all.skip(i + 1));
            assert(all.skip(i as int)[0] == ids@[i as int]@);
            let account: &'a ManagerAccount = io.fetch::<ManagerAccount>(
                self.get_account_by_id(ids[i].as_str()),
            )?;
            if same(account.username.as_str(), username) {
                return Ok(account);
            }
            i = i + 1;
        }
        Err(Stop::Fail(Fault::UserNotFound(username.to_owned())))
    }

    /// The id of the account with the name `username`.
    pub open spec fn account_id_flow(&self, username: Seq<char>, t: Tape) -> Flow<Seq<char>> {
        self.account_by_name_flow(username, t).and_then(
            |account: ManagerAccount, t: Tape|
                match account.id {
                    Some(id) => Flow::Ready(id@, t),
                    None => Flow::Fail(Fault::UserNotFound(username + " has no ID field"@), t),
                },
        )
    }

    /// The id of the account with the name `username`.
    fn get_account_id<'a>(&self, username: &str, io: &mut Exchange<'a>) -> (r: Result<
        &'a str,
        Stop,
    >)
        ensures
            flow(r, final(io)@) == self.account_id_flow(username@, old(io)@),
    {
        let account: &'a ManagerAccount = self.get_account_by_name(username, io)?;
        match &account.id {
            Some(id) => Ok(id.as_str()),
            None => Err(Stop::Fail(Fault::UserNotFound(cat2(username, " has no ID field")))),
        }
    }

    /// Renames an account.
    pub open spec fn change_username_flow(
        &self,
        old_name: Seq<char>,
        new_name: Seq<char>,
        t: Tape,
    ) -> Flow<()> {
        self.account_id_flow(old_name, t).and_then(
            |id: Seq<char>, t: Tape|
                sent(
                    patch(
                        "AccountService/Accounts/"@ + id,
                        seq![("UserName"@, JsonView::Text(new_name))],
                    ),
                    t,
                ),
        )
    }

    /// Renames an account.
    pub fn change_username<'a>(&self, old_name: &str, new_name: &str, io: &mut Exchange<'a>) -> (r:
        Result<(), Stop>)
        ensures
            flow(r, final(io)@) == self.change_username_flow(old_name@, new_name@, old(io)@),
    {
        let id: &'a str = self.get_account_id(old_name, io)?;
        io.send(
            Request::patch(
                cat2("AccountService/Accounts/", id),
                Object::new().with_text("UserName", new_name),
            ),
        )
    }

    /// The service root. A Lite-On power shelf names no vendor there, but its
    /// chassis does.
    pub open spec fn service_root_flow(&self, t: Tape) -> Flow<RootView> {
        fetched::<ServiceRoot>(get(""@), t).and_then(
            |root: RootView, t: Tape|
                if root.vendor is Some {
                    Flow::Ready(root, t)
                } else {
                    self.members_flow(get("Chassis/"@), t).and_then(
                        |ids: Seq<Seq<char>>, t: Tape|
                            if ids.contains("powershelf"@) {
                                fetched::<Chassis>(get("Chassis/"@ + "powershelf"@), t).map(
                                    |chassis: Chassis|
                                        RootView {
                                            vendor: chassis.manufacturer.deep_view(),
                                            ..root
                                        },
                                )
                            } else {
                                Flow::Ready(root, t)
                            },
                    )
                },
        )
    }

    /// The service root.
    pub fn get_service_root<'a>(&self, io: &mut Exchange<'a>) -> (r: Result<ServiceRoot, Stop>)
        ensures
            flow(r, final(io)@) == self.service_root_flow(old(io)@),
    {
        let body: &'a ServiceRoot = io.fetch::<ServiceRoot>(Request::get("".to_owned()))?;
        let mut root = body.copy();
        // fix lite-on power shelf bmc behavior
        if root.vendor.is_none() {
            let chassis_all: Vec<String> = self.get_chassis_all(io)?;
            if holds(&chassis_all, "powershelf") {
                let chassis: &'a Chassis = io.fetch::<Chassis>(self.get_chassis("powershelf"))?;
                if let Some(x) = &chassis.manufacturer {
                    root.vendor = Some(x.clone());
                }
            }
        }
        Ok(root)
    }

    /// The request that gives the account with the id `id` a new password. AMI
    /// firmware wants an `If-Match` header.
    pub open spec fn password_request(id: Seq<char>, new_pass: Seq<char>, root: RootView) -> RequestView {
        plain(
            if root.is_ami() || root.ami_bmc() {
                Method::PatchIfMatch
            } else {
                Method::Patch
            },
            "AccountService/Accounts/"@ + id,
            PayloadView::Json(
                JsonView::Object(seq![("Password"@, JsonView::Text(new_pass))]),
            ),
        )
    }

    /// Gives the account with the id `id` a new password.
    pub open spec fn change_password_by_id_flow(
        &self,
        id: Seq<char>,
        new_pass: Seq<char>,
        t: Tape,
    ) -> Flow<()> {
        self.service_root_flow(t).and_then(
            |root: RootView, t: Tape| sent(Self::password_request(id, new_pass, root), t),
        )
    }

    /// Gives the account with the id `account_id` a new password.
    pub fn change_password_by_id<'a>(
        &self,
        account_id: &str,
        new_pass: &str,
        io: &mut Exchange<'a>,
    ) -> (r: Result<(), Stop>)
        ensures
            flow(r, final(io)@) == self.change_password_by_id_flow(
                account_id@,
                new_pass@,
                old(io)@,
            ),
    {
        let root: ServiceRoot = self.get_service_root(io)?;
        // AMI BMC requires If-Match header for PATCH requests
        let method = if root.vendor_is_ami() || root.has_ami_bmc() {
            Method::PatchIfMatch
        } else {
            Method::Patch
        };
        io.send(
            Request::plain(
                method,
                cat2("AccountService/Accounts/", account_id),
                Payload::Json(Object::new().with_text("Password", new_pass).into_json()),
            ),
        )
    }

    /// Gives an account a new password.
    pub open spec fn change_password_flow(
        &self,
        user: Seq<char>,
        new_pass: Seq<char>,
        t: Tape,
    ) -> Flow<()> {
        self.account_id_flow(user, t).and_then(
            |id: Seq<char>, t: Tape| self.change_password_by_id_flow(id, new_pass, t),
        )
    }

    /// Gives an account a new password.
    pub fn change_password<'a>(&self, user: &str, new_pass: &str, io: &mut Exchange<'a>) -> (r:
        Result<(), Stop>)
        ensures
            flow(r, final(io)@) == self.change_password_flow(user@, new_pass@, old(io)@),
    {
        let id: &'a str = self.get_account_id(user, io)?;
        self.change_password_by_id(id, new_pass, io)
    }

    /// All accounts, sorted by name; none where they cannot be had.
    pub open spec fn accounts_flow(&self, t: Tape) -> Flow<Seq<ManagerAccount>> {
        let request = collection_request("/redfish/v1/AccountService/Accounts"@);
        match fetched::<Members<ManagerAccount>>(request, t) {
            Flow::Ready(m, t) => Flow::Ready(in_order(m.members@), t),
            Flow::Fail(_, t) => Flow::Ready(Seq::empty(), t),
            Flow::Wait(q, k) => Flow::Wait(q, k),
        }
    }

    /// All accounts, sorted by name; none where they cannot be had.
    pub fn get_accounts<'a>(&self, io: &mut Exchange<'a>) -> (r: Result<
        Vec<&'a ManagerAccount>,
        Stop,
    >)
        ensures
            flow(r, final(io)@) == self.accounts_flow(old(io)@),
    {
        match io.fetch::<Members<ManagerAccount>>(
            expanded_collection("/redfish/v1/AccountService/Accounts"),
        ) {
            Ok(m) => {
                let sorted = sort_by_name(references_to(&m.members));
                assert(sorted.deep_view() =~= refs(sorted@));
                Ok(sorted)
            },
            Err(Stop::Fail(_)) => {
                let accounts: Vec<&'a ManagerAccount> = Vec::new();
                assert(accounts.deep_view() =~= Seq::empty());
                Ok(accounts)
            },
            Err(stop) => Err(stop),
        }
    }

    /// Whether the machine is powered.
    pub fn get_power_state<'a>(&self, io: &mut Exchange<'a>) -> (r: Result<PowerState, Stop>)
        ensures
            flow(r, final(io)@) == self.power_state_flow(old(io)@),
    {
        let system: &'a ComputerSystem = io.fetch::<ComputerSystem>(self.get_system())?;
        Ok(system.power_state)
    }

    /// Whether the machine is powered.
    pub open spec fn power_state_flow(&self, t: Tape) -> Flow<PowerState> {
        self.system_flow(t).map(|system: ComputerSystem| system.power_state)
    }

    /// The system.
    pub open spec fn system_flow(&self, t: Tape) -> Flow<ComputerSystem> {
        fetched::<ComputerSystem>(get(self.system_path("/"@)), t)
    }
}

impl Clone for RedfishStandard {
    fn clone(&self) -> (r: Self)
        ensures
            r.http_client() == self.http_client(),
            r.known_vendor() == self.known_vendor(),
            r.system() == self.system(),
            r.manager() == self.manager(),
            r.root() == self.root(),
    {
        RedfishStandard {
            client: RedfishHttpClient { host: self.client.host.clone() },
            vendor: self.vendor,
            manager_id: self.manager_id.clone(),
            system_id: self.system_id.clone(),
            service_root: self.service_root.copy(),
        }
    }
}

/// Whether `texts` holds `wanted`.
fn holds(texts: &Vec<String>, wanted: &str) -> (r: bool)
    ensures
        r == texts.deep_view().contains(wanted@),
{
    let ghost all = texts.deep_view();
    let mut i: usize = 0;
    while i < texts.len()
        invariant
            i <= texts.len(),
            all == texts.deep_view(),
            forall|k: int| 0 <= k < i ==> #[trigger] all[k] != wanted@,
        decreases texts.len() - i,
    {
        assert(all[i as int] == texts@[i as int]@);
        if same(texts[i].as_str(), wanted) {
            return true;
        }
        i = i + 1;
    }
    false
}

/// Whether `r` has the same value under the key of `e`.
pub open spec fn has_entry(r: JsonView, e: (Seq<char>, JsonView)) -> bool {
    member(r, e.0) matches Some(v) && alike(v, e.1)
}

/// The entries of `l` that `r` does not have in the same way.
pub open spec fn differing(l: ObjectView, r: JsonView) -> ObjectView {
    l.filter(|e: (Seq<char>, JsonView)| !has_entry(r, e))
}

/// The values that `current` has for the keys of `o`, nothing where it has none.
pub open spec fn current_values(o: ObjectView, current: JsonView) -> ObjectView {
    o.map_values(
        |e: (Seq<char>, JsonView)|
            (
                e.0,
                match member(current, e.0) {
                    Some(v) => v,
                    None => JsonView::Null,
                },
            ),
    )
}

/// Key/value pairs that differ between these two sets of attributes
/// The left needs to be a full map, but the right side only needs to support `get`.
pub fn attr_diff(l: &Object, r: &Json) -> (d: Object)
    ensures
        d@ == differing(l@, r@),
{
    let ghost all = l@;
    let ghost differs = |e: (Seq<char>, JsonView)| !has_entry(r@, e);
    let mut d = Object::new();
    let mut i: usize = 0;
    reveal(Seq::filter);
    assert(all.take(0).filter(differs) =~= Seq::empty());
    while i < l.entries.len()
        invariant
            i <= l.entries.len(),
            all == l@,
            differs == (|e: (Seq<char>, JsonView)| !has_entry(r@, e)),
            d@ == all.take(i as int).filter(differs),
        decreases l.entries.len() - i,
    {
        reveal(Seq::filter);
        let entry = &l.entries[i];
        assert(all[i as int] == (entry.key@, entry.value@));
        assert(all.take(i + 1).drop_last() =~= all.take(i as int));
        assert(all.take(i + 1).last() == all[i as int]);
        let differs_here = match r.get(entry.key.as_str()) {
            Some(v) => !v.is(&entry.value),
            None => true,
        };
        if differs_here {
            d = d.with(entry.key.as_str(), entry.value.copy());
        }
        i = i + 1;
    }
    assert(all.take(i as int) =~= all);
    d
}

/// The values that `current` has for the keys of `diff`, nothing where it has
/// none.
fn reset_attributes(diff: &Object, current: &Json) -> (r: Object)
    ensures
        r@ == current_values(diff@, current@),
{
    let mut r = Object::new();
    let mut i: usize = 0;
    let ghost wanted = current_values(diff@, current@);
    assert(r@ =~= wanted.take(0));
    while i < diff.entries.len()
        invariant
            i <= diff.entries.len(),
            wanted == current_values(diff@, current@),
            r@ == wanted.take(i as int),
        decreases diff.entries.len() - i,
    {
        let entry = &diff.entries[i];
        assert(diff@[i as int] == (entry.key@, entry.value@));
        let value = match current.get(entry.key.as_str()) {
            Some(v) => v.copy(),
            None => Json::Null,
        };
        r = r.with(entry.key.as_str(), value);
        assert(r@ =~= wanted.take(i + 1));
        i = i + 1;
    }
    assert(wanted.take(i as int) =~= wanted);
    r
}

} // verus!
