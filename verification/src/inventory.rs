//! The standard calls that look through what a machine has.
use crate::error::{generic, invalid_value, missing_key, ErrorView, Fault};
use crate::exchange::{fetched, flow, get, post, Exchange, Flow, Request, RequestView, Stop, Tape};
use crate::json::{texts_model, Json, JsonView, Object, ObjectView};
use crate::model::{
    BootInterfaceRef, BootOption, ComputerSystem, Drives, EthernetInterface, Job,
    ManagerNetworkProtocol, Members, ODataId, PCIeDevice, References, SerialInterface, Storage,
    Task, TaskMessage, TaskReply, TransferProtocolType,
};
use crate::order::{in_order, refs, sort_by_name};
use crate::requests::{
    below_entry_point, collection_request, expanded_collection, strip_entry_point,
};
use crate::search::{first_where_absent, first_where_found, found_where};
use crate::standard::RedfishStandard;
use crate::text::{
    after_last, begins, cat2, cat3, cat4, contains, has, last_segment, lower, lower_contains, same,
    starts_with, trim_char, without_ends,
};
use vstd::prelude::*;
use vstd::string::*;

verus! {

/// The name of the document that a link leads to, with or without a slash at its
/// end.
pub open spec fn linked_name(link: ODataId) -> Seq<char> {
    after_last(without_ends(link.odata_id@, '/'), '/')
}

/// The names of the documents that links lead to.
pub open spec fn linked_names(links: Seq<ODataId>) -> Seq<Seq<char>> {
    links.map_values(|link: ODataId| linked_name(link))
}

/// The names of the documents that links lead to.
fn names_of(links: &Vec<ODataId>) -> (r: Vec<String>)
    ensures
        r.deep_view() == linked_names(links@),
{
    let mut r: Vec<String> = Vec::new();
    let mut i: usize = 0;
    while i < links.len()
        invariant
            i <= links.len(),
            r.len() == i,
            forall|k: int| 0 <= k < i ==> (#[trigger] r@[k])@ == linked_name(links@[k]),
        decreases links.len() - i,
    {
        r.push(last_segment(trim_char(links[i].odata_id.as_str(), '/'), '/').to_owned());
        i = i + 1;
    }
    assert(r.deep_view() =~= linked_names(links@));
    r
}

/// The names in a top collection; where it is empty, the one that the standard
/// suggests.
pub open spec fn names_or_first(links: Seq<ODataId>) -> Seq<Seq<char>> {
    if links.len() == 0 {
        seq!["1"@]
    } else {
        linked_names(links)
    }
}

/// The names in a top collection; where it is empty, the one that the standard
/// suggests.
fn names_or_default(links: &Vec<ODataId>) -> (r: Vec<String>)
    ensures
        r.deep_view() == names_or_first(links@),
{
    if links.len() == 0 {
        let mut r: Vec<String> = Vec::new();
        r.push("1".to_owned());
        assert(r.deep_view() =~= seq!["1"@]);
        r
    } else {
        names_of(links)
    }
}

/// The links to the drives of storage controllers, but for those on USB.
pub open spec fn drive_links(storages: Seq<Storage>) -> Seq<Seq<char>>
    decreases storages.len(),
{
    if storages.len() == 0 {
        Seq::empty()
    } else {
        drive_links(storages.drop_last()) + (match storages.last().drives {
            Some(drives) => drives_off_usb(drives@),
            None => Seq::empty(),
        })
    }
}

/// Those links that do not name USB.
pub open spec fn drives_off_usb(links: Seq<ODataId>) -> Seq<Seq<char>>
    decreases links.len(),
{
    if links.len() == 0 {
        Seq::empty()
    } else if has(links.last().odata_id@, "USB"@) {
        drives_off_usb(links.drop_last())
    } else {
        drives_off_usb(links.drop_last()).push(links.last().odata_id@)
    }
}

/// The drives at `links`, after those that are already there.
pub open spec fn drives_at(links: Seq<Seq<char>>, found: Seq<Drives>, t: Tape) -> Flow<Seq<Drives>>
    decreases links.len(),
{
    if links.len() == 0 {
        Flow::Ready(found, t)
    } else {
        match fetched::<Drives>(get(below_entry_point(links[0])), t) {
            Flow::Ready(drive, t) => drives_at(links.drop_first(), found.push(drive), t),
            Flow::Fail(e, t) => Flow::Fail(e, t),
            Flow::Wait(q, k) => Flow::Wait(q, k),
        }
    }
}

/// Adds the links in `more` that do not name USB.
fn add_drives_off_usb<'a>(links: &mut Vec<&'a str>, more: &'a Vec<ODataId>)
    ensures
        final(links).deep_view() == old(links).deep_view() + drives_off_usb(more@),
{
    let ghost before = links.deep_view();
    let mut i: usize = 0;
    assert(links.deep_view() =~= before + drives_off_usb(more@.take(0)));
    while i < more.len()
        invariant
            i <= more.len(),
            links.deep_view() == before + drives_off_usb(more@.take(i as int)),
        decreases more.len() - i,
    {
        let ghost now = links.deep_view();
        assert(more@.take(i + 1).drop_last() =~= more@.take(i as int));
        if !contains(more[i].odata_id.as_str(), "USB") {
            links.push(more[i].odata_id.as_str());
            assert(links.deep_view() =~= now.push(more@[i as int].odata_id@));
        }
        assert(links.deep_view() =~= before + drives_off_usb(more@.take(i + 1)));
        i = i + 1;
    }
    assert(more@.take(i as int) =~= more@);
}

/// The links to the drives of storage controllers, but for those on USB.
fn links_to_drives<'a>(storages: &'a Vec<Storage>) -> (r: Vec<&'a str>)
    ensures
        r.deep_view() == drive_links(storages@),
{
    let mut r: Vec<&'a str> = Vec::new();
    let mut i: usize = 0;
    assert(r.deep_view() =~= drive_links(storages@.take(0)));
    while i < storages.len()
        invariant
            i <= storages.len(),
            r.deep_view() == drive_links(storages@.take(i as int)),
        decreases storages.len() - i,
    {
        assert(storages@.take(i + 1).drop_last() =~= storages@.take(i as int));
        if let Some(drives) = &storages[i].drives {
            add_drives_off_usb(&mut r, drives);
        }
        assert(r.deep_view() =~= drive_links(storages@.take(i + 1)));
        i = i + 1;
    }
    assert(storages@.take(i as int) =~= storages@);
    r
}

/// Whether a PCIe device is worth a place in an inventory: it has an id and a
/// manufacturer, and is enabled.
pub open spec fn in_service(d: PCIeDevice) -> bool {
    d.id is Some && d.manufacturer is Some && (d.status matches Some(status) && (status.state
        matches Some(state) && has(lower(state@), "enabled"@)))
}

/// Whether a PCIe device is worth a place in an inventory.
fn is_in_service(d: &PCIeDevice) -> (r: bool)
    ensures
        r == in_service(*d),
{
    d.id.is_some() && d.manufacturer.is_some() && (match &d.status {
        Some(status) => match &status.state {
            Some(state) => lower_contains(state.as_str(), "enabled"),
            None => false,
        },
        None => false,
    })
}

/// The request for the PCIe devices of a chassis.
pub open spec fn pcie_request(chassis: Seq<char>) -> RequestView {
    collection_request("/redfish/v1/Chassis/"@ + chassis + "/PCIeDevices/"@)
}

/// The PCIe devices in service of each chassis in `list`, after those that are
/// already there. A chassis whose devices cannot be had has none.
pub open spec fn devices_of(list: Seq<Seq<char>>, found: Seq<PCIeDevice>, t: Tape) -> Flow<
    Seq<PCIeDevice>,
>
    decreases list.len(),
{
    if list.len() == 0 {
        Flow::Ready(found, t)
    } else {
        match fetched::<Members<PCIeDevice>>(pcie_request(list[0]), t) {
            Flow::Ready(m, t) => devices_of(
                list.drop_first(),
                found + m.members@.filter(|d: PCIeDevice| in_service(d)),
                t,
            ),
            Flow::Fail(_, t) => devices_of(list.drop_first(), found, t),
            Flow::Wait(q, k) => Flow::Wait(q, k),
        }
    }
}

/// Adds the devices in `more` that are in service.
fn add_in_service<'a>(devices: &mut Vec<&'a PCIeDevice>, more: &'a Vec<PCIeDevice>)
    ensures
        refs(final(devices)@) == refs(old(devices)@) + more@.filter(
            |d: PCIeDevice| in_service(d),
        ),
{
    let ghost before = refs(devices@);
    let ghost serves = |d: PCIeDevice| in_service(d);
    let mut i: usize = 0;
    reveal(Seq::filter);
    assert(refs(devices@) =~= before + more@.take(0).filter(serves));
    while i < more.len()
        invariant
            i <= more.len(),
            serves == (|d: PCIeDevice| in_service(d)),
            refs(devices@) == before + more@.take(i as int).filter(serves),
        decreases more.len() - i,
    {
        reveal(Seq::filter);
        let ghost now = refs(devices@);
        assert(more@.take(i + 1).drop_last() =~= more@.take(i as int));
        assert(more@.take(i + 1).last() == more@[i as int]);
        if is_in_service(&more[i]) {
            devices.push(&more[i]);
            assert(refs(devices@) =~= now.push(more@[i as int]));
        }
        assert(refs(devices@) =~= before + more@.take(i + 1).filter(serves));
        i = i + 1;
    }
    assert(more@.take(i as int) =~= more@);
}

/// What reports on a task: the task itself, or the job that it has become.
#[derive(Debug)]
pub enum Progress<'a> {
    Task(&'a Task),
    Job(&'a Job),
}

/// [`Progress`], as contracts speak of it.
pub enum ProgressView {
    Task(Task),
    Job(Job),
}

impl<'a> DeepView for Progress<'a> {
    type V = ProgressView;

    open spec fn deep_view(&self) -> ProgressView {
        match *self {
            Progress::Task(task) => ProgressView::Task(*task),
            Progress::Job(job) => ProgressView::Job(*job),
        }
    }
}

/// Whether a message says that the task has become a job.
pub open spec fn became_job(m: TaskMessage) -> bool {
    m.message_id@ == "Update.1.0.OperationTransitionedToJob"@
}

/// Where the job is that a task has become, if it has.
pub open spec fn job_path(task: Task) -> Option<Seq<char>> {
    match found_where(task.messages@, |m: TaskMessage| became_job(m)) {
        Some(m) => if m.message_args@.len() == 0 {
            None
        } else {
            let link = m.message_args@[0]@;
            Some(
                if begins(link, "/redfish/v1/"@) {
                    link.skip("/redfish/v1/"@.len() as int)
                } else {
                    "wrong_prefix"@
                },
            )
        },
        None => None,
    }
}

/// Where the job is that a task has become, if it has.
fn job_url(task: &Task) -> (r: Option<String>)
    ensures
        r.deep_view() == job_path(*task),
{
    let ghost p = |m: TaskMessage| became_job(m);
    let mut i: usize = 0;
    while i < task.messages.len()
        invariant
            i <= task.messages.len(),
            p == (|m: TaskMessage| became_job(m)),
            forall|k: int| 0 <= k < i ==> !p(#[trigger] task.messages@[k]),
        decreases task.messages.len() - i,
    {
        let m = &task.messages[i];
        if same(m.message_id.as_str(), "Update.1.0.OperationTransitionedToJob") {
            proof {
                first_where_found(task.messages@, p, i as int);
            }
            if m.message_args.len() == 0 {
                return None;
            }
            let link = m.message_args[0].as_str();
            let prefix = "/redfish/v1/";
            if starts_with(link, prefix) {
                let n: usize = prefix.unicode_len();
                let rest = link.substring_char(n, link.unicode_len());
                assert(rest@ =~= link@.skip(n as int));
                return Some(rest.to_owned());
            }
            return Some("wrong_prefix".to_owned());
        }
        i = i + 1;
    }
    proof {
        first_where_absent(task.messages@, p);
    }
    None
}

/// What comes of a request that starts a task.
pub open spec fn task_flow(request: RequestView, t: Tape) -> Flow<Task> {
    fetched::<TaskReply>(request, t).and_then(
        |reply: TaskReply, t: Tape|
            match reply.task {
                Some(task) => Flow::Ready(task, t),
                None => Flow::Fail(Fault::NoContent, t),
            },
    )
}

/// Sends a request that starts a task.
fn start_task<'a>(request: Request, io: &mut Exchange<'a>) -> (r: Result<&'a Task, Stop>)
    ensures
        flow(r, final(io)@) == task_flow(request@, old(io)@),
{
    let reply: &'a TaskReply = io.fetch::<TaskReply>(request)?;
    match &reply.task {
        Some(task) => Ok(task),
        None => Err(Stop::Fail(Fault::NoContent)),
    }
}

/// The body that adds a certificate.
pub open spec fn certificate_body(pem_cert: Seq<char>) -> ObjectView {
    seq![
        ("CertificateString"@, JsonView::Text(pem_cert)),
        ("CertificateType"@, JsonView::Text("PEM"@)),
    ]
}

/// The body that makes a BMC fetch a firmware image.
pub open spec fn simple_update_body(
    image_uri: Seq<char>,
    transfer_protocol: TransferProtocolType,
    targets: Seq<Seq<char>>,
) -> ObjectView {
    seq![
        ("ImageURI"@, JsonView::Text(image_uri)),
        ("TransferProtocol"@, JsonView::Text(transfer_protocol.text())),
        ("Targets"@, texts_model(targets)),
    ]
}

/// Whether the network services say that IPMI is on.
pub open spec fn ipmi_enabled(p: ManagerNetworkProtocol) -> Result<bool, ErrorView> {
    match p.ipmi {
        Some(status) => match status.protocol_enabled {
            Some(enabled) => Ok(enabled),
            None => Err(
                ErrorView::GenericError {
                    error: "protocol_enabled is None in the server's ipmi status: "@
                        + status.debug@,
                },
            ),
        },
        None => Err(
            ErrorView::GenericError {
                error: "ipmi is None in the server's network service settings: "@ + p.debug@,
            },
        ),
    }
}

impl RedfishStandard {
    /// The ids of all systems.
    pub open spec fn systems_flow(&self, t: Tape) -> Flow<Seq<Seq<char>>> {
        fetched::<References>(get("Systems/"@), t).map(
            |systems: References| names_or_first(systems.members@),
        )
    }

    /// The ids of all systems.
    pub fn get_systems<'a>(&self, io: &mut Exchange<'a>) -> (r: Result<Vec<String>, Stop>)
        ensures
            flow(r, final(io)@) == self.systems_flow(old(io)@),
    {
        let systems: &'a References = io.fetch::<References>(Request::get("Systems/".to_owned()))?;
        Ok(names_or_default(&systems.members))
    }

    /// The ids of all managers.
    pub open spec fn managers_flow(&self, t: Tape) -> Flow<Seq<Seq<char>>> {
        fetched::<References>(get("Managers/"@), t).map(
            |bmcs: References| names_or_first(bmcs.members@),
        )
    }

    /// The ids of all managers.
    pub fn get_managers<'a>(&self, io: &mut Exchange<'a>) -> (r: Result<Vec<String>, Stop>)
        ensures
            flow(r, final(io)@) == self.managers_flow(old(io)@),
    {
        let bmcs: &'a References = io.fetch::<References>(Request::get("Managers/".to_owned()))?;
        Ok(names_or_default(&bmcs.members))
    }

    /// The drives of all storage controllers, but for those on USB. Where the
    /// controllers cannot be had, there are none.
    pub open spec fn drives_flow(&self, t: Tape) -> Flow<Seq<Drives>> {
        let request = collection_request(
            "/redfish/v1/Systems/"@ + self.system() + "/Storage/"@,
        );
        match fetched::<Members<Storage>>(request, t) {
            Flow::Ready(m, t) => drives_at(drive_links(m.members@), Seq::empty(), t),
            Flow::Fail(_, t) => Flow::Ready(Seq::empty(), t),
            Flow::Wait(q, k) => Flow::Wait(q, k),
        }
    }

    /// Query the drives status from the server
    pub fn get_drives_metrics<'a>(&self, io: &mut Exchange<'a>) -> (r: Result<
        Vec<&'a Drives>,
        Stop,
    >)
        ensures
            flow(r, final(io)@) == self.drives_flow(old(io)@),
    {
        let mut drives: Vec<&'a Drives> = Vec::new();
        assert(drives.deep_view() =~= Seq::empty());
        let url = cat3("/redfish/v1/Systems/", self.system_id(), "/Storage/");
        let storages: &'a Members<Storage> = match io.fetch::<Members<Storage>>(
            expanded_collection(url.as_str()),
        ) {
            Ok(m) => m,
            Err(Stop::Fail(_)) => {
                return Ok(drives);
            },
            Err(stop) => {
                return Err(stop);
            },
        };
        let links = links_to_drives(&storages.members);
        let ghost all = links.deep_view();
        let mut i: usize = 0;
        assert(all.skip(0) =~= all);
        while i < links.len()
            invariant
                i <= links.len(),
                all == links.deep_view(),
                self.drives_flow(old(io)@) == drives_at(
                    all.skip(i as int),
                    drives.deep_view(),
                    io@,
                ),
            decreases links.len() - i,
        {
            let ghost found = drives.deep_view();
            assert(all.skip(i as int).drop_first() =~= all.skip(i + 1));
            assert(all.skip(i as int)[0] == links@[i as int]@);
            let drive: &'a Drives = io.fetch::<Drives>(
                Request::get(strip_entry_point(links[i])),
            )?;
            drives.push(drive);
            assert(drives.deep_view() =~= found.push(*drive));
            i = i + 1;
        }
        Ok(drives)
    }

    /// The PCIe devices in service of each chassis in the list, sorted by
    /// manufacturer.
    pub open spec fn pcie_devices_for_chassis_flow(&self, list: Seq<Seq<char>>, t: Tape) -> Flow<
        Seq<PCIeDevice>,
    > {
        devices_of(list, Seq::empty(), t).map(|devices: Seq<PCIeDevice>| in_order(devices))
    }

    /// The PCIe devices in service of each chassis in the list, sorted by
    /// manufacturer.
    pub fn pcie_devices_for_chassis<'a>(
        &self,
        chassis_list: &Vec<String>,
        io: &mut Exchange<'a>,
    ) -> (r: Result<Vec<&'a PCIeDevice>, Stop>)
        ensures
            flow(r, final(io)@) == self.pcie_devices_for_chassis_flow(
                chassis_list.deep_view(),
                old(io)@,
            ),
    {
        let ghost all = chassis_list.deep_view();
        let mut devices: Vec<&'a PCIeDevice> = Vec::new();
        let mut i: usize = 0;
        assert(refs(devices@) =~= Seq::empty());
        assert(all.skip(0) =~= all);
        while i < chassis_list.len()
            invariant
                i <= chassis_list.len(),
                all == chassis_list.deep_view(),
                devices_of(all, Seq::empty(), old(io)@) == devices_of(
                    all.skip(i as int),
                    refs(devices@),
                    io@,
                ),
            decreases chassis_list.len() - i,
        {
            assert(all.skip(i as int).drop_first() =~= all.skip(i + 1));
            assert(all.skip(i as int)[0] == chassis_list@[i as int]@);
            let url = cat3("/redfish/v1/Chassis/", chassis_list[i].as_str(), "/PCIeDevices/");
            match io.fetch::<Members<PCIeDevice>>(expanded_collection(url.as_str())) {
                Ok(m) => add_in_service(&mut devices, &m.members),
                Err(Stop::Fail(_)) => {},
                Err(stop) => {
                    return Err(stop);
                },
            }
            i = i + 1;
        }
        let sorted = sort_by_name(devices);
        assert(sorted.deep_view() =~= refs(sorted@));
        Ok(sorted)
    }

    /// The chassis of a system: those that it is linked to, or else the one with
    /// its own id.
    pub open spec fn chassis_of(&self, system: ComputerSystem) -> Seq<Seq<char>> {
        match system.links {
            Some(links) => match links.chassis {
                Some(chassis) => linked_names(chassis@),
                None => seq![self.system()],
            },
            None => seq![self.system()],
        }
    }

    /// The PCIe devices in service, sorted by manufacturer.
    pub open spec fn pcie_devices_flow(&self, t: Tape) -> Flow<Seq<PCIeDevice>> {
        self.system_flow(t).and_then(
            |system: ComputerSystem, t: Tape|
                self.pcie_devices_for_chassis_flow(self.chassis_of(system), t),
        )
    }

    /// The PCIe devices in service, sorted by manufacturer.
    pub fn pcie_devices<'a>(&self, io: &mut Exchange<'a>) -> (r: Result<Vec<&'a PCIeDevice>, Stop>)
        ensures
            flow(r, final(io)@) == self.pcie_devices_flow(old(io)@),
    {
        let system: &'a ComputerSystem = io.fetch::<ComputerSystem>(self.get_system())?;
        let linked: Option<&Vec<ODataId>> = match &system.links {
            Some(links) => match &links.chassis {
                Some(chassis) => Some(chassis),
                None => None,
            },
            None => None,
        };
        let chassis = match linked {
            Some(links) => names_of(links),
            None => {
                let mut own: Vec<String> = Vec::new();
                own.push(self.system_id().to_owned());
                assert(own.deep_view() =~= seq![self.system()]);
                own
            },
        };
        self.pcie_devices_for_chassis(&chassis, io)
    }

    /// A task, or the job that it has become.
    pub open spec fn task_by_id_flow(&self, id: Seq<char>, t: Tape) -> Flow<ProgressView> {
        fetched::<Task>(get("TaskService/Tasks/"@ + id), t).and_then(
            |task: Task, t: Tape|
                match job_path(task) {
                    Some(url) => fetched::<Job>(get(url), t).map(
                        |job: Job| ProgressView::Job(job),
                    ),
                    None => Flow::Ready(ProgressView::Task(task), t),
                },
        )
    }

    /// A task. One that redirects us to a job service is looked up there instead.
    pub fn get_task<'a>(&self, id: &str, io: &mut Exchange<'a>) -> (r: Result<Progress<'a>, Stop>)
        ensures
            flow(r, final(io)@) == self.task_by_id_flow(id@, old(io)@),
    {
        let task: &'a Task = io.fetch::<Task>(Request::get(cat2("TaskService/Tasks/", id)))?;
        if let Some(url) = job_url(task) {
            let job: &'a Job = io.fetch::<Job>(Request::get(url))?;
            return Ok(Progress::Job(job));
        }
        Ok(Progress::Task(task))
    }

    /// Adds a certificate to a secure boot database.
    pub fn add_secure_boot_certificate<'a>(
        &self,
        pem_cert: &str,
        database_id: &str,
        io: &mut Exchange<'a>,
    ) -> (r: Result<&'a Task, Stop>)
        ensures
            flow(r, final(io)@) == task_flow(
                post(self.certificates_path(database_id@), certificate_body(pem_cert@)),
                old(io)@,
            ),
    {
        let body = Object::new().with_text("CertificateString", pem_cert).with_text(
            "CertificateType",
            "PEM",
        );
        assert(body@ =~= certificate_body(pem_cert@));
        start_task(Request::post(self.certificates_url(database_id), body), io)
    }

    /// Makes the BMC fetch a firmware image.
    pub fn update_firmware_simple_update<'a>(
        &self,
        image_uri: &str,
        targets: &Vec<String>,
        transfer_protocol: TransferProtocolType,
        io: &mut Exchange<'a>,
    ) -> (r: Result<&'a Task, Stop>)
        ensures
            flow(r, final(io)@) == task_flow(
                post(
                    "UpdateService/Actions/UpdateService.SimpleUpdate"@,
                    simple_update_body(image_uri@, transfer_protocol, targets.deep_view()),
                ),
                old(io)@,
            ),
    {
        let body = Object::new().with_text("ImageURI", image_uri).with_text(
            "TransferProtocol",
            transfer_protocol.name(),
        ).with("Targets", Json::texts(targets));
        assert(body@ =~= simple_update_body(image_uri@, transfer_protocol, targets.deep_view()));
        start_task(
            Request::post("UpdateService/Actions/UpdateService.SimpleUpdate".to_owned(), body),
            io,
        )
    }

    /// Makes a component collect evidence for its attestation.
    pub fn trigger_evidence_collection<'a>(
        &self,
        url: &str,
        nonce: &str,
        io: &mut Exchange<'a>,
    ) -> (r: Result<&'a Task, Stop>)
        ensures
            flow(r, final(io)@) == task_flow(
                post(below_entry_point(url@), seq![("Nonce"@, JsonView::Text(nonce@))]),
                old(io)@,
            ),
    {
        start_task(
            Request::post(strip_entry_point(url), Object::new().with_text("Nonce", nonce)),
            io,
        )
    }

    /// The first boot option.
    pub open spec fn first_boot_option_flow(&self, t: Tape) -> Flow<BootOption> {
        fetched::<References>(get(self.system_path("/BootOptions"@)), t).and_then(
            |options: References, t: Tape|
                if options.members@.len() == 0 {
                    Flow::Fail(Fault::NoContent, t)
                } else {
                    fetched::<BootOption>(
                        get(below_entry_point(options.members@[0].odata_id@)),
                        t,
                    )
                },
        )
    }

    /// The first boot option.
    pub fn get_first_boot_option<'a>(&self, io: &mut Exchange<'a>) -> (r: Result<
        &'a BootOption,
        Stop,
    >)
        ensures
            flow(r, final(io)@) == self.first_boot_option_flow(old(io)@),
    {
        let options: &'a References = io.fetch::<References>(self.get_boot_options())?;
        if options.members.len() == 0 {
            return Err(Stop::Fail(Fault::NoContent));
        }
        io.fetch::<BootOption>(
            Request::get(strip_entry_point(options.members[0].odata_id.as_str())),
        )
    }

    /// The request for a boot option by its id.
    pub open spec fn boot_option_request(&self, id: Seq<char>) -> RequestView {
        get("Systems/"@ + self.system() + "/BootOptions/"@ + id)
    }

    /// The boot options that `links` lead to, after those that are already there.
    pub open spec fn boot_options_at(
        &self,
        links: Seq<ODataId>,
        found: Seq<BootOption>,
        t: Tape,
    ) -> Flow<Seq<BootOption>>
        decreases links.len(),
    {
        if links.len() == 0 {
            Flow::Ready(found, t)
        } else {
            match fetched::<BootOption>(
                self.boot_option_request(after_last(links[0].odata_id@, '/')),
                t,
            ) {
                Flow::Ready(option, t) => self.boot_options_at(
                    links.drop_first(),
                    found.push(option),
                    t,
                ),
                Flow::Fail(e, t) => Flow::Fail(e, t),
                Flow::Wait(q, k) => Flow::Wait(q, k),
            }
        }
    }

    /// The boot options that the links in a collection lead to.
    pub fn follow_boot_options<'a>(&self, options: &References, io: &mut Exchange<'a>) -> (r:
        Result<Vec<&'a BootOption>, Stop>)
        ensures
            flow(r, final(io)@) == self.boot_options_at(
                options.members@,
                Seq::empty(),
                old(io)@,
            ),
    {
        let ghost all = options.members@;
        let mut found: Vec<&'a BootOption> = Vec::new();
        let mut i: usize = 0;
        assert(found.deep_view() =~= Seq::empty());
        assert(all.skip(0) =~= all);
        while i < options.members.len()
            invariant
                i <= options.members.len(),
                all == options.members@,
                self.boot_options_at(all, Seq::empty(), old(io)@) == self.boot_options_at(
                    all.skip(i as int),
                    found.deep_view(),
                    io@,
                ),
            decreases options.members.len() - i,
        {
            let ghost before = found.deep_view();
            assert(all.skip(i as int).drop_first() =~= all.skip(i + 1));
            assert(all.skip(i as int)[0] == all[i as int]);
            let option: &'a BootOption = io.fetch::<BootOption>(
                self.get_boot_option(options.members[i].odata_id_get()),
            )?;
            found.push(option);
            assert(found.deep_view() =~= before.push(*option));
            i = i + 1;
        }
        Ok(found)
    }

    /// The name of the first serial interface of the BMC.
    pub open spec fn serial_interface_name_flow(&self, t: Tape) -> Flow<Seq<char>> {
        let url = self.manager_path("/SerialInterfaces"@);
        self.members_flow(get(url), t).and_then(
            |names: Seq<Seq<char>>, t: Tape|
                if names.len() == 0 {
                    Flow::Fail(
                        Fault::InvalidValue {
                            url,
                            field: "0"@,
                            err: "Members array is empty, no SerialInterfaces"@,
                        },
                        t,
                    )
                } else {
                    Flow::Ready(names[0], t)
                },
        )
    }

    /// The name of the first serial interface.
    /// I have not seen a box with any number except exactly one yet.
    pub fn get_serial_interface_name<'a>(&self, io: &mut Exchange<'a>) -> (r: Result<String, Stop>)
        ensures
            flow(r, final(io)@) == self.serial_interface_name_flow(old(io)@),
    {
        let url = self.manager_url("/SerialInterfaces");
        let names: Vec<String> = self.get_members(url.as_str(), io)?;
        if names.len() == 0 {
            return Err(
                Stop::Fail(
                    invalid_value(
                        url.as_str(),
                        "0",
                        "Members array is empty, no SerialInterfaces",
                    ),
                ),
            );
        }
        assert(names.deep_view()[0] == names@[0]@);
        Ok(names[0].clone())
    }

    /// The first serial interface of the BMC.
    pub open spec fn serial_interface_flow(&self, t: Tape) -> Flow<SerialInterface> {
        self.serial_interface_name_flow(t).and_then(
            |name: Seq<char>, t: Tape|
                fetched::<SerialInterface>(
                    get("Managers/"@ + self.manager() + "/SerialInterfaces/"@ + name),
                    t,
                ),
        )
    }

    /// Get the first serial interface
    /// On Dell it has no useful content. On Lenovo and Supermicro it does,
    /// and on Supermicro it's part of setting up Serial-Over-LAN.
    pub fn get_serial_interface<'a>(&self, io: &mut Exchange<'a>) -> (r: Result<
        &'a SerialInterface,
        Stop,
    >)
        ensures
            flow(r, final(io)@) == self.serial_interface_flow(old(io)@),
    {
        let name: String = self.get_serial_interface_name(io)?;
        io.fetch::<SerialInterface>(
            Request::get(
                cat4("Managers/", self.manager_id(), "/SerialInterfaces/", name.as_str()),
            ),
        )
    }

    /// Whether the BMC speaks IPMI over the network.
    pub open spec fn ipmi_over_lan_flow(&self, t: Tape) -> Flow<bool> {
        fetched::<ManagerNetworkProtocol>(
            get(self.manager_path("/NetworkProtocol"@)),
            t,
        ).and_then(
            |p: ManagerNetworkProtocol, t: Tape| crate::exchange::settled(ipmi_enabled(p), t),
        )
    }

    /// Whether the BMC speaks IPMI over the network.
    pub fn is_ipmi_over_lan_enabled<'a>(&self, io: &mut Exchange<'a>) -> (r: Result<bool, Stop>)
        ensures
            flow(r, final(io)@) == self.ipmi_over_lan_flow(old(io)@),
    {
        let p: &'a ManagerNetworkProtocol = io.fetch::<ManagerNetworkProtocol>(
            self.get_manager_network_protocol(),
        )?;
        match &p.ipmi {
            Some(status) => match status.protocol_enabled {
                Some(enabled) => Ok(enabled),
                None => {
                    let error = cat2(
                        "protocol_enabled is None in the server's ipmi status: ",
                        status.debug.as_str(),
                    );
                    Err(Stop::Fail(generic(error.as_str())))
                },
            },
            None => {
                let error = cat2(
                    "ipmi is None in the server's network service settings: ",
                    p.debug.as_str(),
                );
                Err(Stop::Fail(generic(error.as_str())))
            },
        }
    }

    /// The MAC address of a boot interface: it is given, or the system's Ethernet
    /// interface of that name has it.
    pub open spec fn boot_interface_mac_flow(&self, interface: BootInterfaceRef, t: Tape) -> Flow<
        Seq<char>,
    > {
        match interface {
            BootInterfaceRef::Mac(mac) => Flow::Ready(mac@, t),
            BootInterfaceRef::InterfaceId(id) => {
                let url = "Systems/"@ + self.system() + "/EthernetInterfaces/"@ + id@;
                fetched::<EthernetInterface>(get(url), t).and_then(
                    |interface: EthernetInterface, t: Tape|
                        match interface.mac_address {
                            Some(mac) => Flow::Ready(mac@, t),
                            None => Flow::Fail(Fault::MissingKey { key: "MACAddress"@, url }, t),
                        },
                )
            },
        }
    }

    /// The MAC address of a boot interface.
    pub fn resolve_boot_interface_mac<'a>(
        &self,
        interface: BootInterfaceRef<'_>,
        io: &mut Exchange<'a>,
    ) -> (r: Result<String, Stop>)
        ensures
            flow(r, final(io)@) == self.boot_interface_mac_flow(interface, old(io)@),
            final(io)@.replies == old(io)@.replies,
    {
        match interface {
            BootInterfaceRef::Mac(mac) => Ok(mac.to_owned()),
            BootInterfaceRef::InterfaceId(id) => {
                let found: &'a EthernetInterface = io.fetch::<EthernetInterface>(
                    self.get_system_ethernet_interface(id),
                )?;
                match &found.mac_address {
                    Some(mac) => Ok(mac.clone()),
                    None => {
                        let url = cat4(
                            "Systems/",
                            self.system_id(),
                            "/EthernetInterfaces/",
                            id,
                        );
                        Err(Stop::Fail(missing_key("MACAddress", url.as_str())))
                    },
                }
            },
        }
    }
}

} // verus!
