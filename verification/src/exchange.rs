//! Operations as functions of the replies received so far.
//!
//! An operation takes an [`Exchange`] and asks it for one document after the
//! other. Where the reply is there, the operation goes on with it. Where it is
//! not, the operation stops and names the request to send. The caller sends it,
//! adds the reply, and calls the operation again from the start. Contracts say
//! with [`Flow`] what an operation does on every list of replies.
use crate::error::{ErrorView, Fault, RedfishError};
use crate::json::{Json, JsonView, Object, ObjectView};
use crate::model::{
    BiosSerial, BootOption, Chassis, ComputerSystem, Drives, EthernetInterface, FixedBootOrder, Job,
    Manager, ManagerAccount, ManagerNetworkProtocol, Members, NetworkAdapter, NetworkDeviceFunction,
    PCIeDevice, References, RemoteServices, SerialInterface, ServiceRoot, Storage, Task, TaskReply,
    UpdateService, Upload, Written,
};
use vstd::prelude::*;

verus! {

/// The verb of a request.
#[derive(Clone, Copy, Debug, PartialEq, Eq, Structural)]
pub enum Method {
    Get,
    Post,
    Patch,
    /// A `PATCH` under the condition that the document is still the one that was
    /// read just before.
    PatchIfMatch,
    Delete,
}

/// How long to wait for an answer.
#[derive(Clone, Copy, Debug, PartialEq, Eq, Structural)]
pub struct Timeout {
    pub secs: u64,
    pub nanos: u32,
}

/// What is sent along with a request.
#[derive(Debug, PartialEq, Eq)]
pub enum Payload {
    Empty,
    Json(Json),
    /// The firmware image.
    File,
    /// The firmware image, after a part with `parameters`. With
    /// `drop_redfish_url` the request's URL stands for itself, without the
    /// Redfish prefix.
    Multipart { parameters: String, drop_redfish_url: bool },
}

/// [`Payload`], as contracts speak of it.
#[verifier::ext_equal]
pub enum PayloadView {
    Empty,
    Json(JsonView),
    File,
    Multipart { parameters: Seq<char>, drop_redfish_url: bool },
}

impl View for Payload {
    type V = PayloadView;

    open spec fn view(&self) -> PayloadView {
        match *self {
            Payload::Empty => PayloadView::Empty,
            Payload::Json(j) => PayloadView::Json(j@),
            Payload::File => PayloadView::File,
            Payload::Multipart { parameters, drop_redfish_url } => PayloadView::Multipart {
                parameters: parameters@,
                drop_redfish_url,
            },
        }
    }
}

/// A request to a BMC. The URL stands below the Redfish entry point.
#[derive(Debug, PartialEq, Eq)]
pub struct Request {
    pub method: Method,
    pub url: String,
    pub payload: Payload,
    pub headers: Vec<(String, String)>,
    pub timeout: Option<Timeout>,
}

/// [`Request`], as contracts speak of it.
#[verifier::ext_equal]
pub struct RequestView {
    pub method: Method,
    pub url: Seq<char>,
    pub payload: PayloadView,
    pub headers: Seq<(Seq<char>, Seq<char>)>,
    pub timeout: Option<Timeout>,
}

impl View for Request {
    type V = RequestView;

    open spec fn view(&self) -> RequestView {
        RequestView {
            method: self.method,
            url: self.url@,
            payload: self.payload@,
            headers: self.headers.deep_view(),
            timeout: self.timeout,
        }
    }
}

impl DeepView for Request {
    type V = RequestView;

    open spec fn deep_view(&self) -> RequestView {
        self@
    }
}

/// A request with no headers and no time limit of its own.
pub open spec fn plain(method: Method, url: Seq<char>, payload: PayloadView) -> RequestView {
    RequestView { method, url, payload, headers: Seq::empty(), timeout: None }
}

/// A request for the document at `url`.
pub open spec fn get(url: Seq<char>) -> RequestView {
    plain(Method::Get, url, PayloadView::Empty)
}

/// A request that posts an object to `url`.
pub open spec fn post(url: Seq<char>, body: ObjectView) -> RequestView {
    plain(Method::Post, url, PayloadView::Json(JsonView::Object(body)))
}

/// A request that changes the document at `url`.
pub open spec fn patch(url: Seq<char>, body: ObjectView) -> RequestView {
    plain(Method::Patch, url, PayloadView::Json(JsonView::Object(body)))
}

/// A request that removes the document at `url`.
pub open spec fn delete(url: Seq<char>) -> RequestView {
    plain(Method::Delete, url, PayloadView::Empty)
}

impl Request {
    /// A request with no headers and no time limit of its own.
    pub fn plain(method: Method, url: String, payload: Payload) -> (r: Request)
        ensures
            r@ == plain(method, url@, payload@),
    {
        let headers: Vec<(String, String)> = Vec::new();
        assert(headers.deep_view() =~= Seq::empty());
        Request { method, url, payload, headers, timeout: None }
    }

    /// A request for the document at `url`.
    pub fn get(url: String) -> (r: Request)
        ensures
            r@ == get(url@),
    {
        Request::plain(Method::Get, url, Payload::Empty)
    }

    /// A request that posts an object to `url`.
    pub fn post(url: String, body: Object) -> (r: Request)
        ensures
            r@ == post(url@, body@),
    {
        Request::plain(Method::Post, url, Payload::Json(Json::Object(body)))
    }

    /// A request that changes the document at `url`.
    pub fn patch(url: String, body: Object) -> (r: Request)
        ensures
            r@ == patch(url@, body@),
    {
        Request::plain(Method::Patch, url, Payload::Json(Json::Object(body)))
    }

    /// A request that removes the document at `url`.
    pub fn delete(url: String) -> (r: Request)
        ensures
            r@ == delete(url@),
    {
        Request::plain(Method::Delete, url, Payload::Empty)
    }
}

/// What kind of document a request is answered with.
#[derive(Clone, Copy, Debug, PartialEq, Eq, Structural)]
pub enum Kind {
    Written,
    Object,
    References,
    System,
    BootOption,
    Chassis,
    ChassisList,
    NetworkAdapters,
    NetworkDeviceFunctions,
    Accounts,
    StorageList,
    PcieDevices,
    Account,
    PcieDevice,
    ServiceRoot,
    Task,
    TaskReply,
    Job,
    FixedBootOrder,
    Manager,
    SerialInterface,
    EthernetInterface,
    Drive,
    NetworkProtocol,
    UpdateService,
    Upload,
    RemoteServices,
    BiosSerial,
}

/// An answer, read as the kind of document that was asked for.
#[derive(Debug, PartialEq, Eq)]
pub enum Response {
    /// The answer to a change.
    Written(Written),
    /// A document of any shape.
    Object(Object),
    /// A collection of links.
    References(References),
    /// A system.
    System(ComputerSystem),
    /// A boot option.
    BootOption(BootOption),
    /// A chassis.
    Chassis(Chassis),
    /// All chassis.
    ChassisList(Members<Chassis>),
    /// The network adapters of a chassis.
    NetworkAdapters(Members<NetworkAdapter>),
    /// The functions of a network adapter.
    NetworkDeviceFunctions(Members<NetworkDeviceFunction>),
    /// All accounts.
    Accounts(Members<ManagerAccount>),
    /// The storage controllers of a system.
    StorageList(Members<Storage>),
    /// The PCIe devices of a chassis.
    PcieDevices(Members<PCIeDevice>),
    /// An account.
    Account(ManagerAccount),
    /// A PCIe device.
    PcieDevice(PCIeDevice),
    /// The service root.
    ServiceRoot(ServiceRoot),
    /// A task.
    Task(Task),
    /// The answer to a request that starts a task.
    TaskReply(TaskReply),
    /// A job.
    Job(Job),
    /// The boot order of a Supermicro machine.
    FixedBootOrder(FixedBootOrder),
    /// A manager.
    Manager(Manager),
    /// A serial interface.
    SerialInterface(SerialInterface),
    /// An Ethernet interface.
    EthernetInterface(EthernetInterface),
    /// A drive.
    Drive(Drives),
    /// The network services of a manager.
    NetworkProtocol(ManagerNetworkProtocol),
    /// The update service.
    UpdateService(UpdateService),
    /// The answer to a firmware upload.
    Upload(Upload),
    /// The state of a Dell lifecycle controller.
    RemoteServices(RemoteServices),
    /// The serial console settings of a Dell machine.
    BiosSerial(BiosSerial),
}

/// What came of a request: an answer, or the reason why there is none.
pub type Reply = Result<Response, RedfishError>;

/// A type that some answers hold.
pub trait Document: DeepView + Sized {
    /// The kind of those answers.
    spec fn kind_of() -> Kind;

    /// The document in an answer of that kind.
    spec fn in_response(response: Response) -> Option<Self>;

    /// The kind of those answers.
    fn kind() -> (k: Kind)
        ensures
            k == Self::kind_of(),
    ;

    /// The document in an answer of that kind.
    fn pick<'a>(response: &'a Response) -> (r: Option<&'a Self>)
        ensures
            r == (match Self::in_response(*response) {
                Some(document) => Some(&document),
                None => None,
            }),
    ;
}

impl Document for Written {
    open spec fn kind_of() -> Kind {
        Kind::Written
    }

    open spec fn in_response(response: Response) -> Option<Self> {
        match response {
            Response::Written(document) => Some(document),
            _ => None,
        }
    }

    fn kind() -> Kind {
        Kind::Written
    }

    fn pick<'a>(response: &'a Response) -> (r: Option<&'a Self>) {
        match response {
            Response::Written(document) => Some(document),
            _ => None,
        }
    }
}

impl Document for Object {
    open spec fn kind_of() -> Kind {
        Kind::Object
    }

    open spec fn in_response(response: Response) -> Option<Self> {
        match response {
            Response::Object(document) => Some(document),
            _ => None,
        }
    }

    fn kind() -> Kind {
        Kind::Object
    }

    fn pick<'a>(response: &'a Response) -> (r: Option<&'a Self>) {
        match response {
            Response::Object(document) => Some(document),
            _ => None,
        }
    }
}

impl Document for References {
    open spec fn kind_of() -> Kind {
        Kind::References
    }

    open spec fn in_response(response: Response) -> Option<Self> {
        match response {
            Response::References(document) => Some(document),
            _ => None,
        }
    }

    fn kind() -> Kind {
        Kind::References
    }

    fn pick<'a>(response: &'a Response) -> (r: Option<&'a Self>) {
        match response {
            Response::References(document) => Some(document),
            _ => None,
        }
    }
}

impl Document for ComputerSystem {
    open spec fn kind_of() -> Kind {
        Kind::System
    }

    open spec fn in_response(response: Response) -> Option<Self> {
        match response {
            Response::System(document) => Some(document),
            _ => None,
        }
    }

    fn kind() -> Kind {
        Kind::System
    }

    fn pick<'a>(response: &'a Response) -> (r: Option<&'a Self>) {
        match response {
            Response::System(document) => Some(document),
            _ => None,
        }
    }
}

impl Document for BootOption {
    open spec fn kind_of() -> Kind {
        Kind::BootOption
    }

    open spec fn in_response(response: Response) -> Option<Self> {
        match response {
            Response::BootOption(document) => Some(document),
            _ => None,
        }
    }

    fn kind() -> Kind {
        Kind::BootOption
    }

    fn pick<'a>(response: &'a Response) -> (r: Option<&'a Self>) {
        match response {
            Response::BootOption(document) => Some(document),
            _ => None,
        }
    }
}

impl Document for Chassis {
    open spec fn kind_of() -> Kind {
        Kind::Chassis
    }

    open spec fn in_response(response: Response) -> Option<Self> {
        match response {
            Response::Chassis(document) => Some(document),
            _ => None,
        }
    }

    fn kind() -> Kind {
        Kind::Chassis
    }

    fn pick<'a>(response: &'a Response) -> (r: Option<&'a Self>) {
        match response {
            Response::Chassis(document) => Some(document),
            _ => None,
        }
    }
}

impl Document for Members<Chassis> {
    open spec fn kind_of() -> Kind {
        Kind::ChassisList
    }

    open spec fn in_response(response: Response) -> Option<Self> {
        match response {
            Response::ChassisList(document) => Some(document),
            _ => None,
        }
    }

    fn kind() -> Kind {
        Kind::ChassisList
    }

    fn pick<'a>(response: &'a Response) -> (r: Option<&'a Self>) {
        match response {
            Response::ChassisList(document) => Some(document),
            _ => None,
        }
    }
}

impl Document for Members<NetworkAdapter> {
    open spec fn kind_of() -> Kind {
        Kind::NetworkAdapters
    }

    open spec fn in_response(response: Response) -> Option<Self> {
        match response {
            Response::NetworkAdapters(document) => Some(document),
            _ => None,
        }
    }

    fn kind() -> Kind {
        Kind::NetworkAdapters
    }

    fn pick<'a>(response: &'a Response) -> (r: Option<&'a Self>) {
        match response {
            Response::NetworkAdapters(document) => Some(document),
            _ => None,
        }
    }
}

impl Document for Members<NetworkDeviceFunction> {
    open spec fn kind_of() -> Kind {
        Kind::NetworkDeviceFunctions
    }

    open spec fn in_response(response: Response) -> Option<Self> {
        match response {
            Response::NetworkDeviceFunctions(document) => Some(document),
            _ => None,
        }
    }

    fn kind() -> Kind {
        Kind::NetworkDeviceFunctions
    }

    fn pick<'a>(response: &'a Response) -> (r: Option<&'a Self>) {
        match response {
            Response::NetworkDeviceFunctions(document) => Some(document),
            _ => None,
        }
    }
}

impl Document for Members<ManagerAccount> {
    open spec fn kind_of() -> Kind {
        Kind::Accounts
    }

    open spec fn in_response(response: Response) -> Option<Self> {
        match response {
            Response::Accounts(document) => Some(document),
            _ => None,
        }
    }

    fn kind() -> Kind {
        Kind::Accounts
    }

    fn pick<'a>(response: &'a Response) -> (r: Option<&'a Self>) {
        match response {
            Response::Accounts(document) => Some(document),
            _ => None,
        }
    }
}

impl Document for Members<Storage> {
    open spec fn kind_of() -> Kind {
        Kind::StorageList
    }

    open spec fn in_response(response: Response) -> Option<Self> {
        match response {
            Response::StorageList(document) => Some(document),
            _ => None,
        }
    }

    fn kind() -> Kind {
        Kind::StorageList
    }

    fn pick<'a>(response: &'a Response) -> (r: Option<&'a Self>) {
        match response {
            Response::StorageList(document) => Some(document),
            _ => None,
        }
    }
}

impl Document for Members<PCIeDevice> {
    open spec fn kind_of() -> Kind {
        Kind::PcieDevices
    }

    open spec fn in_response(response: Response) -> Option<Self> {
        match response {
            Response::PcieDevices(document) => Some(document),
            _ => None,
        }
    }

    fn kind() -> Kind {
        Kind::PcieDevices
    }

    fn pick<'a>(response: &'a Response) -> (r: Option<&'a Self>) {
        match response {
            Response::PcieDevices(document) => Some(document),
            _ => None,
        }
    }
}

impl Document for ManagerAccount {
    open spec fn kind_of() -> Kind {
        Kind::Account
    }

    open spec fn in_response(response: Response) -> Option<Self> {
        match response {
            Response::Account(document) => Some(document),
            _ => None,
        }
    }

    fn kind() -> Kind {
        Kind::Account
    }

    fn pick<'a>(response: &'a Response) -> (r: Option<&'a Self>) {
        match response {
            Response::Account(document) => Some(document),
            _ => None,
        }
    }
}

impl Document for PCIeDevice {
    open spec fn kind_of() -> Kind {
        Kind::PcieDevice
    }

    open spec fn in_response(response: Response) -> Option<Self> {
        match response {
            Response::PcieDevice(document) => Some(document),
            _ => None,
        }
    }

    fn kind() -> Kind {
        Kind::PcieDevice
    }

    fn pick<'a>(response: &'a Response) -> (r: Option<&'a Self>) {
        match response {
            Response::PcieDevice(document) => Some(document),
            _ => None,
        }
    }
}

impl Document for ServiceRoot {
    open spec fn kind_of() -> Kind {
        Kind::ServiceRoot
    }

    open spec fn in_response(response: Response) -> Option<Self> {
        match response {
            Response::ServiceRoot(document) => Some(document),
            _ => None,
        }
    }

    fn kind() -> Kind {
        Kind::ServiceRoot
    }

    fn pick<'a>(response: &'a Response) -> (r: Option<&'a Self>) {
        match response {
            Response::ServiceRoot(document) => Some(document),
            _ => None,
        }
    }
}

impl Document for Task {
    open spec fn kind_of() -> Kind {
        Kind::Task
    }

    open spec fn in_response(response: Response) -> Option<Self> {
        match response {
            Response::Task(document) => Some(document),
            _ => None,
        }
    }

    fn kind() -> Kind {
        Kind::Task
    }

    fn pick<'a>(response: &'a Response) -> (r: Option<&'a Self>) {
        match response {
            Response::Task(document) => Some(document),
            _ => None,
        }
    }
}

impl Document for TaskReply {
    open spec fn kind_of() -> Kind {
        Kind::TaskReply
    }

    open spec fn in_response(response: Response) -> Option<Self> {
        match response {
            Response::TaskReply(document) => Some(document),
            _ => None,
        }
    }

    fn kind() -> Kind {
        Kind::TaskReply
    }

    fn pick<'a>(response: &'a Response) -> (r: Option<&'a Self>) {
        match response {
            Response::TaskReply(document) => Some(document),
            _ => None,
        }
    }
}

impl Document for Job {
    open spec fn kind_of() -> Kind {
        Kind::Job
    }

    open spec fn in_response(response: Response) -> Option<Self> {
        match response {
            Response::Job(document) => Some(document),
            _ => None,
        }
    }

    fn kind() -> Kind {
        Kind::Job
    }

    fn pick<'a>(response: &'a Response) -> (r: Option<&'a Self>) {
        match response {
            Response::Job(document) => Some(document),
            _ => None,
        }
    }
}

impl Document for FixedBootOrder {
    open spec fn kind_of() -> Kind {
        Kind::FixedBootOrder
    }

    open spec fn in_response(response: Response) -> Option<Self> {
        match response {
            Response::FixedBootOrder(document) => Some(document),
            _ => None,
        }
    }

    fn kind() -> Kind {
        Kind::FixedBootOrder
    }

    fn pick<'a>(response: &'a Response) -> (r: Option<&'a Self>) {
        match response {
            Response::FixedBootOrder(document) => Some(document),
            _ => None,
        }
    }
}

impl Document for Manager {
    open spec fn kind_of() -> Kind {
        Kind::Manager
    }

    open spec fn in_response(response: Response) -> Option<Self> {
        match response {
            Response::Manager(document) => Some(document),
            _ => None,
        }
    }

    fn kind() -> Kind {
        Kind::Manager
    }

    fn pick<'a>(response: &'a Response) -> (r: Option<&'a Self>) {
        match response {
            Response::Manager(document) => Some(document),
            _ => None,
        }
    }
}

impl Document for SerialInterface {
    open spec fn kind_of() -> Kind {
        Kind::SerialInterface
    }

    open spec fn in_response(response: Response) -> Option<Self> {
        match response {
            Response::SerialInterface(document) => Some(document),
            _ => None,
        }
    }

    fn kind() -> Kind {
        Kind::SerialInterface
    }

    fn pick<'a>(response: &'a Response) -> (r: Option<&'a Self>) {
        match response {
            Response::SerialInterface(document) => Some(document),
            _ => None,
        }
    }
}

impl Document for EthernetInterface {
    open spec fn kind_of() -> Kind {
        Kind::EthernetInterface
    }

    open spec fn in_response(response: Response) -> Option<Self> {
        match response {
            Response::EthernetInterface(document) => Some(document),
            _ => None,
        }
    }

    fn kind() -> Kind {
        Kind::EthernetInterface
    }

    fn pick<'a>(response: &'a Response) -> (r: Option<&'a Self>) {
        match response {
            Response::EthernetInterface(document) => Some(document),
            _ => None,
        }
    }
}

impl Document for Drives {
    open spec fn kind_of() -> Kind {
        Kind::Drive
    }

    open spec fn in_response(response: Response) -> Option<Self> {
        match response {
            Response::Drive(document) => Some(document),
            _ => None,
        }
    }

    fn kind() -> Kind {
        Kind::Drive
    }

    fn pick<'a>(response: &'a Response) -> (r: Option<&'a Self>) {
        match response {
            Response::Drive(document) => Some(document),
            _ => None,
        }
    }
}

impl Document for ManagerNetworkProtocol {
    open spec fn kind_of() -> Kind {
        Kind::NetworkProtocol
    }

    open spec fn in_response(response: Response) -> Option<Self> {
        match response {
            Response::NetworkProtocol(document) => Some(document),
            _ => None,
        }
    }

    fn kind() -> Kind {
        Kind::NetworkProtocol
    }

    fn pick<'a>(response: &'a Response) -> (r: Option<&'a Self>) {
        match response {
            Response::NetworkProtocol(document) => Some(document),
            _ => None,
        }
    }
}

impl Document for UpdateService {
    open spec fn kind_of() -> Kind {
        Kind::UpdateService
    }

    open spec fn in_response(response: Response) -> Option<Self> {
        match response {
            Response::UpdateService(document) => Some(document),
            _ => None,
        }
    }

    fn kind() -> Kind {
        Kind::UpdateService
    }

    fn pick<'a>(response: &'a Response) -> (r: Option<&'a Self>) {
        match response {
            Response::UpdateService(document) => Some(document),
            _ => None,
        }
    }
}

impl Document for Upload {
    open spec fn kind_of() -> Kind {
        Kind::Upload
    }

    open spec fn in_response(response: Response) -> Option<Self> {
        match response {
            Response::Upload(document) => Some(document),
            _ => None,
        }
    }

    fn kind() -> Kind {
        Kind::Upload
    }

    fn pick<'a>(response: &'a Response) -> (r: Option<&'a Self>) {
        match response {
            Response::Upload(document) => Some(document),
            _ => None,
        }
    }
}

impl Document for RemoteServices {
    open spec fn kind_of() -> Kind {
        Kind::RemoteServices
    }

    open spec fn in_response(response: Response) -> Option<Self> {
        match response {
            Response::RemoteServices(document) => Some(document),
            _ => None,
        }
    }

    fn kind() -> Kind {
        Kind::RemoteServices
    }

    fn pick<'a>(response: &'a Response) -> (r: Option<&'a Self>) {
        match response {
            Response::RemoteServices(document) => Some(document),
            _ => None,
        }
    }
}

impl Document for BiosSerial {
    open spec fn kind_of() -> Kind {
        Kind::BiosSerial
    }

    open spec fn in_response(response: Response) -> Option<Self> {
        match response {
            Response::BiosSerial(document) => Some(document),
            _ => None,
        }
    }

    fn kind() -> Kind {
        Kind::BiosSerial
    }

    fn pick<'a>(response: &'a Response) -> (r: Option<&'a Self>) {
        match response {
            Response::BiosSerial(document) => Some(document),
            _ => None,
        }
    }
}

/// The replies received so far, and how many of them an operation has used.
#[derive(Debug)]
pub struct Exchange<'a> {
    replies: &'a [Reply],
    pos: usize,
}

/// [`Exchange`], as contracts speak of it.
pub struct Tape {
    pub replies: Seq<Reply>,
    pub pos: nat,
}

impl Tape {
    /// The tape after one more reply has been used.
    pub open spec fn next(self) -> Tape {
        Tape { replies: self.replies, pos: self.pos + 1 }
    }
}

/// Why an operation has not finished.
#[derive(Debug, PartialEq, Eq)]
pub enum Stop {
    /// It needs an answer of this kind to this request.
    Wait(Request, Kind),
    /// It has failed.
    Fail(RedfishError),
}

/// What an operation comes to on a tape: a value, a failure, or the request that
/// it needs an answer to. A value and a failure come with the rest of the tape.
pub enum Flow<V> {
    Ready(V, Tape),
    Fail(ErrorView, Tape),
    Wait(RequestView, Kind),
}

impl<V> Flow<V> {
    /// This operation, and where it gives a value, `f` on that value and the rest
    /// of the tape.
    pub open spec fn and_then<W>(self, f: spec_fn(V, Tape) -> Flow<W>) -> Flow<W> {
        match self {
            Flow::Ready(v, t) => f(v, t),
            Flow::Fail(e, t) => Flow::Fail(e, t),
            Flow::Wait(q, k) => Flow::Wait(q, k),
        }
    }

    /// This operation with its value changed by `f`.
    pub open spec fn map<W>(self, f: spec_fn(V) -> W) -> Flow<W> {
        match self {
            Flow::Ready(v, t) => Flow::Ready(f(v), t),
            Flow::Fail(e, t) => Flow::Fail(e, t),
            Flow::Wait(q, k) => Flow::Wait(q, k),
        }
    }
}

/// A plain result as a flow that uses no reply.
pub open spec fn settled<V>(r: Result<V, ErrorView>, t: Tape) -> Flow<V> {
    match r {
        Ok(v) => Flow::Ready(v, t),
        Err(e) => Flow::Fail(e, t),
    }
}

/// The flow that an operation's result and the rest of its tape make.
pub open spec fn flow<T: DeepView>(r: Result<T, Stop>, t: Tape) -> Flow<T::V> {
    match r {
        Ok(v) => Flow::Ready(v.deep_view(), t),
        Err(Stop::Fail(e)) => Flow::Fail(e@, t),
        Err(Stop::Wait(q, k)) => Flow::Wait(q@, k),
    }
}

/// What it comes to to send `request` for a document of type `T`.
pub open spec fn fetched<T: Document>(request: RequestView, t: Tape) -> Flow<T::V> {
    if t.pos >= t.replies.len() {
        Flow::Wait(request, T::kind_of())
    } else {
        match t.replies[t.pos as int] {
            Err(e) => Flow::Fail(e@, t.next()),
            Ok(response) => match T::in_response(response) {
                Some(document) => Flow::Ready(document.deep_view(), t.next()),
                None => Flow::Fail(Fault::UnexpectedReply, t.next()),
            },
        }
    }
}

/// What it comes to to send `request`, a change.
pub open spec fn sent(request: RequestView, t: Tape) -> Flow<()> {
    fetched::<Written>(request, t).map(|w: Written| ())
}

impl<'a> View for Exchange<'a> {
    type V = Tape;

    closed spec fn view(&self) -> Tape {
        Tape { replies: self.replies@, pos: self.pos as nat }
    }
}

impl<'a> Exchange<'a> {
    /// An exchange of which nothing has been used yet.
    pub fn new(replies: &'a [Reply]) -> (r: Exchange<'a>)
        ensures
            r@ == (Tape { replies: replies@, pos: 0 }),
    {
        Exchange { replies, pos: 0 }
    }

    /// The document that answers `request`, or the reason why there is none.
    pub fn fetch<T: Document>(&mut self, request: Request) -> (r: Result<&'a T, Stop>)
        ensures
            flow(r, final(self)@) == fetched::<T>(request@, old(self)@),
            final(self)@.replies == old(self)@.replies,
    {
        if self.pos < self.replies.len() {
            let i: usize = self.pos;
            self.pos = i + 1;
            match &self.replies[i] {
                Err(e) => Err(Stop::Fail(e.clone())),
                Ok(response) => match T::pick(response) {
                    Some(document) => Ok(document),
                    None => Err(Stop::Fail(Fault::UnexpectedReply)),
                },
            }
        } else {
            Err(Stop::Wait(request, T::kind()))
        }
    }

    /// Sends `request`, a change.
    pub fn send(&mut self, request: Request) -> (r: Result<(), Stop>)
        ensures
            flow(r, final(self)@) == sent(request@, old(self)@),
            final(self)@.replies == old(self)@.replies,
    {
        match self.fetch::<Written>(request) {
            Ok(_) => Ok(()),
            Err(stop) => Err(stop),
        }
    }
}

/// A plain result as the result of an operation that uses no reply.
pub fn settle<T>(r: Result<T, RedfishError>) -> (s: Result<T, Stop>)
    ensures
        s == (match r {
            Ok(v) => Ok::<T, Stop>(v),
            Err(e) => Err::<T, Stop>(Stop::Fail(e)),
        }),
{
    match r {
        Ok(v) => Ok(v),
        Err(e) => Err(Stop::Fail(e)),
    }
}

} // verus!
