//! What taking stock of a machine asks for, and what it comes to.
use crate::error::RedfishError;
use crate::exchange::{Exchange, Flow, Kind, Reply, Response, Stop, Tape};
use crate::inventory::{
    devices_of, drive_links, drives_at, drives_off_usb, in_service, pcie_request,
};
use crate::model::{ComputerSystem, Drives, Members, ODataId, PCIeDevice, Storage};
use crate::order::in_order_is_ordered;
use crate::requests::below_entry_point;
use crate::run::{after, asks, reading};
use crate::standard::RedfishStandard;
use crate::standard_runs::{name_is_pointed_to, points_to};
use crate::text::{has, lower, precedes};
use crate::text_laws::prefix_is_taken_away;
use vstd::prelude::*;
use vstd::string::*;

verus! {

/// The links to the drives of a controller, but for those on USB, in their order.
pub open spec fn off_usb(links: Seq<ODataId>) -> Seq<ODataId> {
    links.filter(|link: ODataId| !(has(link.odata_id@, "USB"@)))
}

/// The links to the drives of a controller that lists any.
pub open spec fn drives_of(storage: Storage) -> Seq<ODataId> {
    match storage.drives {
        Some(links) => links@,
        None => Seq::empty(),
    }
}

/// The places of all drives but those on USB, controller by controller.
pub open spec fn all_drives(storages: Seq<Storage>) -> Seq<Seq<char>>
    decreases storages.len(),
{
    if storages.len() == 0 {
        Seq::empty()
    } else {
        off_usb(drives_of(storages[0])).map_values(|link: ODataId| link.odata_id@) + all_drives(
            storages.drop_first(),
        )
    }
}

proof fn off_usb_is_what_is_kept(links: Seq<ODataId>)
    ensures
        drives_off_usb(links) == off_usb(links).map_values(|link: ODataId| link.odata_id@),
    decreases links.len(),
{
    let p = |link: ODataId| !(has(link.odata_id@, "USB"@));
    let f = |link: ODataId| link.odata_id@;
    reveal(Seq::filter);
    if links.len() > 0 {
        let init = links.drop_last();
        off_usb_is_what_is_kept(init);
        if p(links.last()) {
            assert(links.filter(p) == init.filter(p).push(links.last()));
            assert(links.filter(p).map_values(f) =~= init.filter(p).map_values(f).push(
                links.last().odata_id@,
            ));
        } else {
            assert(links.filter(p) == init.filter(p));
        }
    } else {
        assert(links.filter(p).map_values(f) =~= Seq::empty());
    }
}

proof fn drives_join(storages: Seq<Storage>)
    ensures
        storages.len() > 0 ==> drive_links(storages) == drives_off_usb(drives_of(storages[0]))
            + drive_links(storages.drop_first()),
    decreases storages.len(),
{
    assert(drives_off_usb(Seq::empty()).len() == 0);
    assert(drive_links(Seq::empty()).len() == 0);
    if storages.len() > 1 {
        let init = storages.drop_last();
        drives_join(init);
        assert(init[0] == storages[0]);
        let rest = storages.drop_first();
        assert(rest.drop_last() =~= init.drop_first());
        assert(rest.last() == storages.last());
        let a = drives_off_usb(drives_of(storages[0]));
        let b = drive_links(init.drop_first());
        let c = drives_off_usb(drives_of(storages.last()));
        assert(drives_off_usb(Seq::empty()) =~= Seq::empty());
        assert(drive_links(storages) == drive_links(init) + c);
        assert(drive_links(rest) == b + c);
        assert(a + b + c =~= a + (b + c));
    } else if storages.len() == 1 {
        let a = drives_off_usb(drives_of(storages[0]));
        assert(drives_off_usb(Seq::empty()) =~= Seq::empty());
        assert(storages.drop_last() =~= Seq::empty());
        assert(storages.drop_first() =~= Seq::empty());
        assert(drive_links(Seq::empty()) =~= Seq::empty());
        assert(storages.last() == storages[0]);
        assert(drive_links(storages) == Seq::<Seq<char>>::empty() + a);
        assert(Seq::<Seq<char>>::empty() + a =~= a + Seq::<Seq<char>>::empty());
    }
}

proof fn links_are_all_drives(storages: Seq<Storage>)
    ensures
        drive_links(storages) == all_drives(storages),
    decreases storages.len(),
{
    if storages.len() > 0 {
        drives_join(storages);
        off_usb_is_what_is_kept(drives_of(storages[0]));
        links_are_all_drives(storages.drop_first());
    }
}

/// The replies that hold `drives`.
pub open spec fn drive_replies(drives: Seq<Drives>) -> Seq<Reply> {
    Seq::new(drives.len(), |i: int| Ok(Response::Drive(drives[i])))
}

proof fn drives_are_read(
    links: Seq<Seq<char>>,
    drives: Seq<Drives>,
    found: Seq<Drives>,
    t: Tape,
)
    requires
        drives.len() <= links.len(),
        t.replies.len() == t.pos + drives.len(),
        forall|i: int|
            0 <= i < drives.len() ==> t.replies[t.pos + i] == Reply::Ok(
                Response::Drive(#[trigger] drives[i]),
            ),
    ensures
        drives.len() < links.len() ==> drives_at(links, found, t) == Flow::<Seq<Drives>>::Wait(
            reading(below_entry_point(links[drives.len() as int])),
            Kind::Drive,
        ),
        drives.len() == links.len() ==> (drives_at(links, found, t) matches Flow::Ready(all, _)
            && all == found + drives),
    decreases drives.len(),
{
    if drives.len() > 0 {
        let rest = drives.drop_first();
        assert(t.replies[t.pos + 0int] == Reply::Ok(Response::Drive(drives[0])));
        assert forall|i: int| 0 <= i < rest.len() implies t.next().replies[t.next().pos + i]
            == Reply::Ok(Response::Drive(#[trigger] rest[i])) by {
            assert(rest[i] == drives[i + 1]);
        }
        drives_are_read(links.drop_first(), rest, found.push(drives[0]), t.next());
        assert(found.push(drives[0]) + rest =~= found + drives);
    } else {
        assert(found + drives =~= found);
    }
}

/// The drives of a machine are those of all its controllers, but for those on USB. Each is
/// read at the place that its link leads to. Where the controllers cannot be had, there are
/// no drives.
pub proof fn drives_run<'a>(
    bmc: &RedfishStandard,
    storages: Members<Storage>,
    drives: Seq<Drives>,
    place: Seq<char>,
    e: RedfishError,
    io: &mut Exchange<'a>,
    r: Result<Vec<&'a Drives>, Stop>,
)
    requires
        call_ensures(RedfishStandard::get_drives_metrics, (bmc, io), r),
        drives.len() <= all_drives(storages.members@).len(),
    ensures
        old(io)@ == after(seq![]) && !(has(
            "Systems/"@ + bmc.system() + "/Storage/"@,
            "/redfish/v1/"@,
        )) ==> asks(
            r,
            reading("Systems/"@ + bmc.system() + "/Storage/"@ + "?$expand=.($levels=1)"@),
            Kind::StorageList,
        ),
        old(io)@ == after(seq![Err(e)]) ==> (r matches Ok(found) && found.deep_view().len() == 0),
        old(io)@ == after(seq![Ok(Response::StorageList(storages))] + drive_replies(drives))
            && drives.len() < all_drives(storages.members@).len() && all_drives(
            storages.members@,
        )[drives.len() as int] == "/redfish/v1/"@ + place && !(has(place, "/redfish/v1/"@))
            ==> asks(r, reading(place), Kind::Drive),
        old(io)@ == after(seq![Ok(Response::StorageList(storages))] + drive_replies(drives))
            && drives.len() == all_drives(storages.members@).len() ==> (r matches Ok(found)
            && found.deep_view() == drives),
{
    reveal_strlit("/redfish/v1/");
    reveal_strlit("/redfish/v1/Systems/");
    reveal_strlit("Systems/");
    let url = "Systems/"@ + bmc.system() + "/Storage/"@;
    assert("/redfish/v1/Systems/"@ =~= "/redfish/v1/"@ + "Systems/"@);
    assert("/redfish/v1/Systems/"@ + bmc.system() + "/Storage/"@ =~= "/redfish/v1/"@ + url);
    if !(has(url, "/redfish/v1/"@)) {
        prefix_is_taken_away("/redfish/v1/"@, url);
    }
    if !(has(place, "/redfish/v1/"@)) {
        prefix_is_taken_away("/redfish/v1/"@, place);
    }
    links_are_all_drives(storages.members@);
    let replies = seq![Ok(Response::StorageList(storages))] + drive_replies(drives);
    let u = Tape { replies, pos: 1 };
    assert forall|i: int| 0 <= i < drives.len() implies u.replies[u.pos + i] == Reply::Ok(
        Response::Drive(#[trigger] drives[i]),
    ) by {}
    drives_are_read(drive_links(storages.members@), drives, Seq::empty(), u);
    assert(Seq::<Drives>::empty() + drives =~= drives);
}

/// Whether a device is in service: it has an id and a manufacturer, and its state speaks of
/// being enabled, in any case.
pub open spec fn serves(d: PCIeDevice) -> bool {
    d.id is Some && d.manufacturer is Some && (d.status matches Some(status) && (
    status.state matches Some(state) && has(lower(state@), "enabled"@)))
}

/// The devices in service that replies hold, reply by reply. A reply that is a failure holds
/// none.
pub open spec fn serving(replies: Seq<Reply>) -> Seq<PCIeDevice>
    decreases replies.len(),
{
    if replies.len() == 0 {
        Seq::empty()
    } else {
        serving(replies.drop_last()) + (match replies.last() {
            Ok(Response::PcieDevices(m)) => m.members@.filter(|d: PCIeDevice| serves(d)),
            _ => Seq::empty(),
        })
    }
}

/// Whether a reply is one to a request for devices: some, or a failure.
pub open spec fn answers(reply: Reply) -> bool {
    match reply {
        Ok(Response::PcieDevices(_)) => true,
        Ok(_) => false,
        Err(_) => true,
    }
}

proof fn devices_are_collected(
    list: Seq<Seq<char>>,
    replies: Seq<Reply>,
    found: Seq<PCIeDevice>,
    t: Tape,
)
    requires
        replies.len() <= list.len(),
        t.replies.len() == t.pos + replies.len(),
        t.replies.skip(t.pos as int) == replies,
        forall|i: int| 0 <= i < replies.len() ==> answers(#[trigger] replies[i]),
    ensures
        replies.len() < list.len() ==> devices_of(list, found, t) == Flow::<Seq<PCIeDevice>>::Wait(
            pcie_request(list[replies.len() as int]),
            Kind::PcieDevices,
        ),
        replies.len() == list.len() ==> (devices_of(list, found, t) matches Flow::Ready(all, _)
            && all == found + serving(replies)),
    decreases replies.len(),
{
    if replies.len() > 0 {
        let rest = replies.drop_first();
        let u = t.next();
        assert(t.replies[t.pos as int] == replies[0]);
        assert(answers(replies[0]));
        assert(u.replies.skip(u.pos as int) =~= rest);
        assert forall|i: int| 0 <= i < rest.len() implies answers(#[trigger] rest[i]) by {
            assert(rest[i] == replies[i + 1]);
        }
        let some = match replies[0] {
            Ok(Response::PcieDevices(m)) => m.members@.filter(|d: PCIeDevice| serves(d)),
            _ => Seq::empty(),
        };
        if let Ok(Response::PcieDevices(m)) = replies[0] {
            let p = |d: PCIeDevice| serves(d);
            let q = |d: PCIeDevice| in_service(d);
            assert(p =~= q);
        }
        devices_are_collected(list.drop_first(), rest, found + some, u);
        serving_joins(replies);
        assert(found + some + serving(rest) =~= found + (some + serving(rest)));
        assert(found + Seq::<PCIeDevice>::empty() =~= found);
    } else {
        assert(found + serving(replies) =~= found);
    }
}

proof fn serving_joins(replies: Seq<Reply>)
    requires
        replies.len() > 0,
    ensures
        serving(replies) == (match replies[0] {
            Ok(Response::PcieDevices(m)) => m.members@.filter(|d: PCIeDevice| serves(d)),
            _ => Seq::empty(),
        }) + serving(replies.drop_first()),
    decreases replies.len(),
{
    let some = match replies[0] {
        Ok(Response::PcieDevices(m)) => m.members@.filter(|d: PCIeDevice| serves(d)),
        _ => Seq::empty(),
    };
    if replies.len() > 1 {
        let init = replies.drop_last();
        serving_joins(init);
        let rest = replies.drop_first();
        assert(rest.drop_last() =~= init.drop_first());
        let last = match replies.last() {
            Ok(Response::PcieDevices(m)) => m.members@.filter(|d: PCIeDevice| serves(d)),
            _ => Seq::empty(),
        };
        assert(some + serving(init.drop_first()) + last =~= some + (serving(init.drop_first())
            + last));
    } else {
        assert(serving(replies.drop_last()) =~= Seq::empty());
        assert(Seq::<PCIeDevice>::empty() + some =~= some + Seq::<PCIeDevice>::empty());
    }
}

/// The PCIe devices of a list of chassis are those in service, each as often as it is
/// listed, sorted by manufacturer. A chassis whose devices cannot be had counts for none.
pub proof fn pcie_devices_run<'a>(
    bmc: &RedfishStandard,
    chassis: &Vec<String>,
    replies: Seq<Reply>,
    io: &mut Exchange<'a>,
    r: Result<Vec<&'a PCIeDevice>, Stop>,
)
    requires
        call_ensures(RedfishStandard::pcie_devices_for_chassis, (bmc, chassis, io), r),
        replies.len() <= chassis@.len(),
        forall|i: int| 0 <= i < replies.len() ==> answers(#[trigger] replies[i]),
        old(io)@ == after(replies),
    ensures
        replies.len() < chassis@.len() && !(has(
            "Chassis/"@ + chassis@[replies.len() as int]@ + "/PCIeDevices/"@,
            "/redfish/v1/"@,
        )) ==> asks(
            r,
            reading(
                "Chassis/"@ + chassis@[replies.len() as int]@ + "/PCIeDevices/"@
                    + "?$expand=.($levels=1)"@,
            ),
            Kind::PcieDevices,
        ),
        replies.len() == chassis@.len() ==> (r matches Ok(found)
            && found.deep_view().to_multiset() == serving(replies).to_multiset() && forall|
            i: int,
            j: int,
        |
            0 <= i < j < found.deep_view().len() ==> !precedes(
                made_by(#[trigger] found.deep_view()[j]),
                made_by(#[trigger] found.deep_view()[i]),
            )),
{
    let list = chassis.deep_view();
    let t = old(io)@;
    assert(t.replies.skip(0) =~= replies);
    devices_are_collected(list, replies, Seq::empty(), t);
    assert(Seq::<PCIeDevice>::empty() + serving(replies) =~= serving(replies));
    in_order_is_ordered(serving(replies));
    if replies.len() < chassis@.len() {
        let id = chassis@[replies.len() as int]@;
        assert(list[replies.len() as int] == id);
        let url = "Chassis/"@ + id + "/PCIeDevices/"@;
        reveal_strlit("/redfish/v1/");
        reveal_strlit("/redfish/v1/Chassis/");
        reveal_strlit("Chassis/");
        assert("/redfish/v1/Chassis/"@ =~= "/redfish/v1/"@ + "Chassis/"@);
        assert("/redfish/v1/Chassis/"@ + id + "/PCIeDevices/"@ =~= "/redfish/v1/"@ + url);
        if !(has(url, "/redfish/v1/"@)) {
            prefix_is_taken_away("/redfish/v1/"@, url);
        }
    }
}

/// The manufacturer of a device; one without it has an empty one.
pub open spec fn made_by(d: PCIeDevice) -> Seq<char> {
    match d.manufacturer {
        Some(m) => m@,
        None => ""@,
    }
}

/// The chassis whose devices are taken stock of first: the first that the system is linked
/// to, or else the one with the system's own id.
pub proof fn devices_are_those_of_the_system<'a>(
    bmc: &RedfishStandard,
    system: ComputerSystem,
    id: Seq<char>,
    io: &mut Exchange<'a>,
    r: Result<Vec<&'a PCIeDevice>, Stop>,
)
    requires
        call_ensures(RedfishStandard::pcie_devices, (bmc, io), r),
        !(has("Chassis/"@ + id + "/PCIeDevices/"@, "/redfish/v1/"@)),
    ensures
        old(io)@ == after(seq![]) ==> asks(
            r,
            reading("Systems/"@ + bmc.system() + "/"@),
            Kind::System,
        ),
        old(io)@ == after(seq![Ok(Response::System(system))]) && first_chassis(*bmc, system, id)
            ==> asks(
            r,
            reading("Chassis/"@ + id + "/PCIeDevices/"@ + "?$expand=.($levels=1)"@),
            Kind::PcieDevices,
        ),
{
    let url = "Chassis/"@ + id + "/PCIeDevices/"@;
    reveal_strlit("/redfish/v1/");
    reveal_strlit("/redfish/v1/Chassis/");
    reveal_strlit("Chassis/");
    assert("/redfish/v1/Chassis/"@ =~= "/redfish/v1/"@ + "Chassis/"@);
    assert("/redfish/v1/Chassis/"@ + id + "/PCIeDevices/"@ =~= "/redfish/v1/"@ + url);
    prefix_is_taken_away("/redfish/v1/"@, url);
    if first_chassis(*bmc, system, id) {
        if let Some(links) = system.links {
            if let Some(chassis) = links.chassis {
                name_is_pointed_to(chassis@[0], id);
            }
        }
    }
}

/// Whether `id` is the chassis to begin with.
pub open spec fn first_chassis(bmc: RedfishStandard, system: ComputerSystem, id: Seq<char>) -> bool {
    match system.links {
        Some(links) => match links.chassis {
            Some(chassis) => chassis@.len() > 0 && points_to(chassis@[0], id),
            None => id == bmc.system(),
        },
        None => id == bmc.system(),
    }
}

} // verus!
