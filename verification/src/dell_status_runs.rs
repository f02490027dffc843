//! What the operations that look at Dell machines say of them, for every answer that can
//! come in.
use crate::dell::{
    dell_models, extra_values, for_dell, for_model, for_profile, Bmc, VendorProfiles,
};
use crate::dell_bios::{
    all_checked, bios_expectations, checked, expect, oem_all_checked, remote_access_attributes,
    remote_access_found, setup_attrs, Domain, Expectation,
};
use crate::dell_runs::{
    at_reset, attribute, bios_changes, bmc_attributes, boot_option_is_expected, card_is_found,
    function_replies, leads_to_card, numbering, numbers_ports_anew, of_card, setup_bios,
    setup_bios_body, to_boot_options, unlocked,
};
use crate::error::{ErrorView, RedfishError};
use crate::exchange::{Exchange, Flow, Kind, Reply, Response, Stop, Tape};
use crate::json::{
    extended, extended_is_found, last_value, lookup, member, JsonView, Object, ObjectView,
};
use crate::model::{
    BiosProfileType, BiosSerial, BootOption, Chassis, ComputerSystem, MachineSetupStatus, Members,
    NetworkAdapter, NetworkDeviceFunction, RedfishVendor, References, Status, StatusInternal,
    Written,
};
use crate::run::{after, asks, changing, fails, reading, word};
use crate::search::first_where_found;
use crate::standard_runs::lead_to;
use crate::text::underscored;
use vstd::prelude::*;
use vstd::string::*;

verus! {

/// The values of the attributes that remote access depends on.
pub struct RemoteAccess {
    pub redirection: Seq<char>,
    pub rate: Seq<char>,
    pub over_lan: Seq<char>,
    pub privilege: Seq<char>,
    pub ssh: Seq<char>,
    pub ipmi: Seq<char>,
}

/// Whether a document has those values.
pub open spec fn has_access(document: Object, a: RemoteAccess) -> bool {
    &&& attribute(document, "SerialRedirection.1.Enable"@) == Some(word(a.redirection))
    &&& attribute(document, "IPMISOL.1.BaudRate"@) == Some(word(a.rate))
    &&& attribute(document, "IPMISOL.1.Enable"@) == Some(word(a.over_lan))
    &&& attribute(document, "IPMISOL.1.MinPrivilege"@) == Some(word(a.privilege))
    &&& attribute(document, "SSH.1.Enable"@) == Some(word(a.ssh))
    &&& attribute(document, "IPMILan.1.Enable"@) == Some(word(a.ipmi))
}

/// Whether remote access is on.
pub open spec fn access_on(a: RemoteAccess) -> bool {
    a.redirection == "Enabled"@ && a.rate == "115200"@ && a.over_lan == "Enabled"@ && a.privilege
        == "Administrator"@ && a.ssh == "Enabled"@ && a.ipmi == "Enabled"@
}

/// Whether remote access is off.
pub open spec fn access_off(a: RemoteAccess) -> bool {
    a.redirection == "Disabled"@ && a.over_lan == "Disabled"@ && a.ssh == "Disabled"@ && a.ipmi
        == "Disabled"@
}

/// An attribute with its value, in a message.
pub open spec fn item(key: Seq<char>, value: Seq<char>) -> Seq<char> {
    key + "="@ + value + " "@
}

/// The values of remote access, in a message.
pub open spec fn access_message(a: RemoteAccess) -> Seq<char> {
    item("SerialRedirection.1.Enable"@, a.redirection) + item("IPMISOL.1.BaudRate"@, a.rate) + item(
        "IPMISOL.1.Enable"@,
        a.over_lan,
    ) + item("IPMISOL.1.MinPrivilege"@, a.privilege) + item("SSH.1.Enable"@, a.ssh) + item(
        "IPMILan.1.Enable"@,
        a.ipmi,
    )
}

proof fn access_is_found(attrs: ObjectView, a: RemoteAccess, url: Seq<char>)
    requires
        lookup(attrs, "SerialRedirection.1.Enable"@) == Some(word(a.redirection)),
        lookup(attrs, "IPMISOL.1.BaudRate"@) == Some(word(a.rate)),
        lookup(attrs, "IPMISOL.1.Enable"@) == Some(word(a.over_lan)),
        lookup(attrs, "IPMISOL.1.MinPrivilege"@) == Some(word(a.privilege)),
        lookup(attrs, "SSH.1.Enable"@) == Some(word(a.ssh)),
        lookup(attrs, "IPMILan.1.Enable"@) == Some(word(a.ipmi)),
    ensures
        remote_access_found(attrs, url, remote_access_attributes()) == Ok::<_, ErrorView>(
            (access_message(a), access_on(a), access_off(a)),
        ),
{
    reveal_strlit("");
    reveal_strlit("any");
    reveal_strlit("Disabled");
    assert("any"@.len() == 3 && "Disabled"@.len() == 8);
    let list = remote_access_attributes();
    assert(list.take(0).len() == 0);
    access_step(attrs, url, 1, a.redirection, ""@, true, true);
    let first = item("SerialRedirection.1.Enable"@, a.redirection);
    assert(""@ + first =~= first);
    let m2 = first + item("IPMISOL.1.BaudRate"@, a.rate);
    let m3 = m2 + item("IPMISOL.1.Enable"@, a.over_lan);
    let m4 = m3 + item("IPMISOL.1.MinPrivilege"@, a.privilege);
    let m5 = m4 + item("SSH.1.Enable"@, a.ssh);
    let on1 = a.redirection == "Enabled"@;
    let off1 = a.redirection == "Disabled"@;
    access_step(attrs, url, 2, a.rate, first, on1, off1);
    let on2 = on1 && a.rate == "115200"@;
    access_step(attrs, url, 3, a.over_lan, m2, on2, off1);
    let on3 = on2 && a.over_lan == "Enabled"@;
    let off3 = off1 && a.over_lan == "Disabled"@;
    access_step(attrs, url, 4, a.privilege, m3, on3, off3);
    let on4 = on3 && a.privilege == "Administrator"@;
    access_step(attrs, url, 5, a.ssh, m4, on4, off3);
    let on5 = on4 && a.ssh == "Enabled"@;
    let off5 = off3 && a.ssh == "Disabled"@;
    access_step(attrs, url, 6, a.ipmi, m5, on5, off5);
    assert(list.take(6) =~= list);
}

proof fn access_step(
    attrs: ObjectView,
    url: Seq<char>,
    k: int,
    value: Seq<char>,
    message: Seq<char>,
    on: bool,
    off: bool,
)
    requires
        0 < k <= remote_access_attributes().len(),
        lookup(attrs, remote_access_attributes()[k - 1].0) == Some(word(value)),
        remote_access_found(attrs, url, remote_access_attributes().take(k - 1)) == Ok::<
            _,
            ErrorView,
        >((message, on, off)),
    ensures
        ({
            let e = remote_access_attributes()[k - 1];
            remote_access_found(attrs, url, remote_access_attributes().take(k)) == Ok::<
                _,
                ErrorView,
            >(
                (
                    message + item(e.0, value),
                    on && value == e.1,
                    off && (value == e.2 || e.2 == "any"@),
                ),
            )
        }),
{
    let list = remote_access_attributes();
    assert(list.take(k).drop_last() =~= list.take(k - 1));
    assert(list.take(k).last() == list[k - 1]);
}

/// Remote access is on where all six attributes are as a setup leaves them, off where the
/// four that can be off are, and partial otherwise.
pub proof fn remote_access_status_run<'a>(
    bmc: &Bmc,
    document: Object,
    a: RemoteAccess,
    e: RedfishError,
    io: &mut Exchange<'a>,
    r: Result<Status, Stop>,
)
    requires
        call_ensures(Bmc::bmc_remote_access_status, (bmc, io), r),
        has_access(document, a),
    ensures
        old(io)@ == after(seq![]) ==> asks(r, reading(bmc_attributes(*bmc)), Kind::Object),
        old(io)@ == after(seq![Err(e)]) ==> fails(r, e@),
        old(io)@ == after(seq![Ok(Response::Object(document))]) ==> {
            &&& r is Ok
            &&& r->Ok_0.message@ == access_message(a)
            &&& r->Ok_0.status == StatusInternal::Enabled <==> access_on(a)
            &&& r->Ok_0.status == StatusInternal::Disabled <==> access_off(a)
        },
{
    let attrs = lookup(document@, "Attributes"@)->0->Object_0;
    access_is_found(attrs, a, bmc_attributes(*bmc));
    reveal_strlit("Enabled");
    reveal_strlit("Disabled");
    assert("Enabled"@.len() == 7 && "Disabled"@.len() == 8);
}

/// Whether a setting is `wanted`, or is not there.
pub open spec fn is_or_absent(value: Option<String>, wanted: Seq<char>) -> bool {
    value matches Some(v) ==> v@ == wanted
}

/// Whether the serial console of a BIOS is on.
pub open spec fn console_on(b: BiosSerial) -> bool {
    &&& b.serial_comm matches Some(v) ==> v@ == "OnConRedir"@ || v@ == "OnConRedirAuto"@ || v@
        == "OnConRedirCom1"@ || v@ == "OnConRedirCom2"@
    &&& is_or_absent(b.redir_after_boot, "Enabled"@)
    &&& is_or_absent(b.serial_port_address, "Com1"@) || is_or_absent(
        b.serial_port_address,
        "Serial1Com2Serial2Com1"@,
    )
    &&& is_or_absent(b.ext_serial_connector, "Serial1"@)
    &&& is_or_absent(b.fail_safe_baud, "115200"@)
    &&& is_or_absent(b.con_term_type, "Vt100Vt220"@)
}

/// Whether the serial console of a BIOS is off.
pub open spec fn console_off(b: BiosSerial) -> bool {
    is_or_absent(b.serial_comm, "Off"@) && is_or_absent(b.redir_after_boot, "Disabled"@)
}

/// Whether the two settings with a fixed choice have one of their values.
pub open spec fn console_valid(b: BiosSerial) -> bool {
    &&& b.serial_comm matches Some(v) ==> v@ == "OnConRedir"@ || v@ == "OnConRedirAuto"@ || v@
        == "OnConRedirCom1"@ || v@ == "OnConRedirCom2"@ || v@ == "OnNoConRedir"@ || v@ == "Off"@
    &&& b.redir_after_boot matches Some(v) ==> v@ == "Enabled"@ || v@ == "Disabled"@
}

/// A setting of the BIOS, in a message.
pub open spec fn setting(name: Seq<char>, value: Option<String>) -> Seq<char> {
    item(
        name,
        match value {
            Some(v) => v@,
            None => "unknown"@,
        },
    )
}

/// The settings of the serial console, in a message.
pub open spec fn console_message(b: BiosSerial) -> Seq<char> {
    setting("serial_comm"@, b.serial_comm) + setting("redir_after_boot"@, b.redir_after_boot)
        + setting("serial_port_address"@, b.serial_port_address) + setting(
        "ext_serial_connector"@,
        b.ext_serial_connector,
    ) + setting("fail_safe_baud"@, b.fail_safe_baud) + setting("con_term_type"@, b.con_term_type)
}

proof fn serial_words_differ()
    ensures
        "OnConRedir"@.len() == 10,
        "OnConRedirAuto"@.len() == 14,
        "OnConRedirCom1"@.len() == 14,
        "OnConRedirCom2"@.len() == 14,
        "OnNoConRedir"@.len() == 12,
        "Off"@.len() == 3,
        "OnConRedirAuto"@[10] == 'A',
        "OnConRedirCom1"@[13] == '1',
        "OnConRedirCom2"@[13] == '2',
        "OnConRedirCom1"@[10] == 'C',
        "OnConRedirCom2"@[10] == 'C',
        "Enabled"@.len() == 7,
        "Disabled"@.len() == 8,
{
    reveal_strlit("OnConRedir");
    reveal_strlit("OnConRedirAuto");
    reveal_strlit("OnConRedirCom1");
    reveal_strlit("OnConRedirCom2");
    reveal_strlit("OnNoConRedir");
    reveal_strlit("Off");
    reveal_strlit("Enabled");
    reveal_strlit("Disabled");
}

/// The serial console of the BIOS is on where each of its settings is as a setup leaves it,
/// or is not there; off where the two that turn it off do; and partial otherwise.
pub proof fn bios_serial_console_status_run<'a>(
    bmc: &Bmc,
    b: BiosSerial,
    e: RedfishError,
    io: &mut Exchange<'a>,
    r: Result<Status, Stop>,
)
    requires
        call_ensures(Bmc::bios_serial_console_status, (bmc, io), r),
        console_valid(b),
    ensures
        old(io)@ == after(seq![]) ==> asks(
            r,
            reading("Systems/"@ + bmc.s.system() + "/Bios"@),
            Kind::BiosSerial,
        ),
        old(io)@ == after(seq![Err(e)]) ==> fails(r, e@),
        old(io)@ == after(seq![Ok(Response::BiosSerial(b))]) ==> {
            &&& r is Ok
            &&& r->Ok_0.message@ == console_message(b)
            &&& r->Ok_0.status == StatusInternal::Enabled <==> console_on(b)
            &&& r->Ok_0.status == StatusInternal::Disabled <==> console_off(b) && !console_on(b)
        },
{
    serial_words_differ();
}

/// The serial console is on where both sides say so, off where both say that, and partial
/// otherwise.
pub proof fn serial_console_status_run<'a>(
    bmc: &Bmc,
    document: Object,
    a: RemoteAccess,
    b: BiosSerial,
    e: RedfishError,
    io: &mut Exchange<'a>,
    r: Result<Status, Stop>,
)
    requires
        call_ensures(Bmc::serial_console_status, (bmc, io), r),
        has_access(document, a),
        console_valid(b),
    ensures
        old(io)@ == after(seq![]) ==> asks(r, reading(bmc_attributes(*bmc)), Kind::Object),
        old(io)@ == after(seq![Err(e)]) ==> fails(r, e@),
        old(io)@ == after(seq![Ok(Response::Object(document))]) ==> asks(
            r,
            reading("Systems/"@ + bmc.s.system() + "/Bios"@),
            Kind::BiosSerial,
        ),
        old(io)@ == after(seq![Ok(Response::Object(document)), Ok(Response::BiosSerial(b))]) ==> {
            &&& r is Ok
            &&& r->Ok_0.message@ == "BMC: "@ + access_message(a) + ". BIOS: "@ + console_message(b)
                + "."@
            &&& r->Ok_0.status == StatusInternal::Enabled <==> access_on(a) && console_on(b)
            &&& r->Ok_0.status == StatusInternal::Disabled <==> access_off(a) && console_off(b)
                && !console_on(b)
        },
{
    let attrs = lookup(document@, "Attributes"@)->0->Object_0;
    access_is_found(attrs, a, bmc_attributes(*bmc));
    serial_words_differ();
}

/// Whether an attribute says `name`: as a string, or as an object with that key alone and
/// nothing under it.
pub open spec fn says(value: Option<JsonView>, name: Seq<char>) -> bool {
    ||| value == Some(word(name))
    ||| value matches Some(JsonView::Object(o)) && o.len() == 1 && o[0] == (name, JsonView::Null)
}

/// Whether the BIOS in `first` is set up, on a machine whose BIOS is that in `second` and
/// whose card is in `slot`. The TPM hierarchy is on again after it was cleared.
pub open spec fn bios_is_set_up(first: Object, second: Object, slot: Seq<char>) -> bool {
    &&& says(attribute(first, "InBandManageabilityInterface"@), "Disabled"@)
    &&& says(attribute(first, "UefiVariableAccess"@), "Standard"@)
    &&& says(
        attribute(first, "SerialComm"@),
        if numbers_ports_anew(second) {
            "OnConRedirAuto"@
        } else {
            "OnConRedir"@
        },
    )
    &&& says(
        attribute(first, "SerialPortAddress"@),
        if numbers_ports_anew(second) {
            "Serial1Com2Serial2Com1"@
        } else {
            "Com1"@
        },
    )
    &&& attribute(first, "FailSafeBaud"@) == Some(word("115200"@))
    &&& says(attribute(first, "ConTermType"@), "Vt100Vt220"@)
    &&& attribute(first, "RedirAfterBoot"@) is Some && attribute(second, "RedirAfterBoot"@) is Some
        ==> says(attribute(first, "RedirAfterBoot"@), "Enabled"@)
    &&& says(attribute(first, "SriovGlobalEnable"@), "Enabled"@)
    &&& says(attribute(first, "TpmSecurity"@), "On"@)
    &&& says(attribute(first, "Tpm2Hierarchy"@), "Enabled"@)
    &&& says(attribute(first, "Tpm2Algorithm"@), "SHA256"@)
    &&& says(attribute(first, "HttpDev1EnDis"@), "Enabled"@)
    &&& says(attribute(first, "PxeDev1EnDis"@), "Disabled"@)
    &&& attribute(first, "HttpDev1Interface"@) == Some(word(slot))
}

/// Whether the BMC is set up.
pub open spec fn bmc_is_set_up(document: Object) -> bool {
    &&& attribute(document, "WebServer.1.HostHeaderCheck"@) == Some(word("Disabled"@))
    &&& attribute(document, "IPMILan.1.Enable"@) == Some(word("Enabled"@))
    &&& attribute(document, "OS-BMC.1.AdminState"@) is None || attribute(
        document,
        "OS-BMC.1.AdminState"@,
    ) == Some(word("Disabled"@))
}

/// Whether nothing deviates from an expectation.
pub open spec fn fine(bios: JsonView, e: Expectation<Seq<char>>) -> bool {
    checked(bios, e) matches Ok(diffs) && diffs.len() == 0
}

proof fn all_are_fine(bios: JsonView, list: Seq<Expectation<Seq<char>>>)
    ensures
        (all_checked(bios, list) matches Ok(diffs) && diffs.len() == 0) <==> forall|i: int|
            0 <= i < list.len() ==> fine(bios, #[trigger] list[i]),
    decreases list.len(),
{
    if list.len() > 0 {
        let init = list.drop_last();
        all_are_fine(bios, init);
        assert(list[list.len() - 1] == list.last());
        if all_checked(bios, list) matches Ok(diffs) && diffs.len() == 0 {
            assert forall|i: int| 0 <= i < list.len() implies fine(bios, #[trigger] list[i]) by {
                if i < init.len() {
                    assert(init[i] == list[i]);
                }
            }
        }
        if forall|i: int| 0 <= i < list.len() ==> fine(bios, #[trigger] list[i]) {
            assert forall|i: int| 0 <= i < init.len() implies fine(bios, #[trigger] init[i]) by {
                assert(init[i] == list[i]);
            }
            assert(fine(bios, list[list.len() - 1]));
        }
    }
}

proof fn fine_where_it_says(bios: JsonView, e: Expectation<Seq<char>>)
    requires
        e.domain == Domain::Text || e.domain.has_name(e.expected),
    ensures
        e.domain != Domain::Text ==> (fine(bios, e) <==> says(member(bios, e.key), e.expected)),
        e.domain == Domain::Text ==> (fine(bios, e) <==> member(bios, e.key) == Some(
            word(e.expected),
        )),
{
    if let Some(JsonView::Object(o)) = member(bios, e.key) {
        if o.len() == 1 {
            assert(o[0] == (o[0].0, o[0].1));
        }
    }
}

proof fn expectations_are_met(first: Object, second: Object, slot: Seq<char>)
    requires
        lookup(first@, "Attributes"@) matches Some(JsonView::Object(_)),
        lookup(second@, "Attributes"@) matches Some(JsonView::Object(_)),
    ensures
        ({
            let bios = lookup(first@, "Attributes"@)->0;
            let before = lookup(second@, "Attributes"@)->0;
            let list = bios_expectations(setup_attrs(before, slot), bios);
            (all_checked(bios, list) matches Ok(diffs) && diffs.len() == 0) <==> bios_is_set_up(
                first,
                second,
                slot,
            )
        }),
{
    let bios = lookup(first@, "Attributes"@)->0;
    let before = lookup(second@, "Attributes"@)->0;
    let list = bios_expectations(setup_attrs(before, slot), bios);
    all_are_fine(bios, list);
    let newer = numbers_ports_anew(second);
    numbering(second);
    let n = if member(before, "RedirAfterBoot"@) is Some && member(bios, "RedirAfterBoot"@) is Some {
        1int
    } else {
        0int
    };
    assert(list.len() == 13 + n);
    assert(list[0] == expect(
        "InBandManageabilityInterface"@,
        "Disabled"@,
        Domain::EnabledDisabled,
    ));
    assert(list[1] == expect("UefiVariableAccess"@, "Standard"@, Domain::UefiVariableAccess));
    assert(list[2] == expect(
        "SerialComm"@,
        if newer {
            "OnConRedirAuto"@
        } else {
            "OnConRedir"@
        },
        Domain::SerialComm,
    ));
    assert(list[3] == expect(
        "SerialPortAddress"@,
        if newer {
            "Serial1Com2Serial2Com1"@
        } else {
            "Com1"@
        },
        Domain::SerialPort,
    ));
    assert(list[4] == expect("FailSafeBaud"@, "115200"@, Domain::Text));
    assert(list[5] == expect("ConTermType"@, "Vt100Vt220"@, Domain::SerialTerm));
    assert(n == 1 ==> list[6] == expect(
        "RedirAfterBoot"@,
        "Enabled"@,
        Domain::EnabledDisabled,
    ));
    assert(list[6 + n] == expect("SriovGlobalEnable"@, "Enabled"@, Domain::EnabledDisabled));
    assert(list[7 + n] == expect("TpmSecurity"@, "On"@, Domain::OnOff));
    assert(list[8 + n] == expect("Tpm2Hierarchy"@, "Enabled"@, Domain::Tpm2Hierarchy));
    assert(list[9 + n] == expect("Tpm2Algorithm"@, "SHA256"@, Domain::Tpm2Algorithm));
    assert(list[10 + n] == expect("HttpDev1EnDis"@, "Enabled"@, Domain::EnabledDisabled));
    assert(list[11 + n] == expect("PxeDev1EnDis"@, "Disabled"@, Domain::EnabledDisabled));
    assert(list[12 + n] == expect("HttpDev1Interface"@, slot, Domain::Text));
    assert forall|i: int| 0 <= i < list.len() implies (#[trigger] list[i]).domain == Domain::Text
        || list[i].domain.has_name(list[i].expected) by {
        assert(i == 0 || i == 1 || i == 2 || i == 3 || i == 4 || i == 5 || (n == 1 && i == 6) || i
            == 6 + n || i == 7 + n || i == 8 + n || i == 9 + n || i == 10 + n || i == 11 + n || i
            == 12 + n);
    }
    assert forall|i: int| 0 <= i < list.len() implies {
        &&& (#[trigger] list[i]).domain != Domain::Text ==> (fine(bios, list[i]) <==> says(
            member(bios, list[i].key),
            list[i].expected,
        ))
        &&& list[i].domain == Domain::Text ==> (fine(bios, list[i]) <==> member(bios, list[i].key)
            == Some(word(list[i].expected)))
    } by {
        fine_where_it_says(bios, list[i]);
    }
    if bios_is_set_up(first, second, slot) {
        assert forall|i: int| 0 <= i < list.len() implies fine(bios, #[trigger] list[i]) by {
            assert(i == 0 || i == 1 || i == 2 || i == 3 || i == 4 || i == 5 || (n == 1 && i == 6)
                || i == 6 + n || i == 7 + n || i == 8 + n || i == 9 + n || i == 10 + n || i == 11
                + n || i == 12 + n);
        }
    }
}

/// Whether the BIOS and the BMC of a machine are set up, without regard to a card: the two
/// documents of the BIOS and the two of the BMC are read, and all of it has to be right.
pub proof fn is_bios_setup_run<'a>(
    bmc: &Bmc,
    first: Object,
    second: Object,
    third: Object,
    fourth: Object,
    a: RemoteAccess,
    io: &mut Exchange<'a>,
    r: Result<bool, Stop>,
)
    requires
        call_ensures(Bmc::is_bios_setup, (bmc, None::<&str>, io), r),
        lookup(first@, "Attributes"@) matches Some(JsonView::Object(_)),
        lookup(second@, "Attributes"@) matches Some(JsonView::Object(_)),
        lookup(third@, "Attributes"@) matches Some(JsonView::Object(_)),
        has_access(fourth, a),
    ensures
        old(io)@ == after(seq![]) ==> asks(
            r,
            reading("Systems/"@ + bmc.s.system() + "/Bios"@),
            Kind::Object,
        ),
        old(io)@ == after(
            seq![
                Ok(Response::Object(first)),
                Ok(Response::Object(second)),
                Ok(Response::Object(third)),
                Ok(Response::Object(fourth)),
            ],
        ) ==> (r == Ok::<bool, Stop>(true) <==> bios_is_set_up(first, second, ""@) && bmc_is_set_up(
            third,
        ) && access_on(a)),
{
    let t = old(io)@;
    expectations_are_met(first, second, ""@);
    let attrs = lookup(fourth@, "Attributes"@)->0->Object_0;
    access_is_found(attrs, a, bmc_attributes(*bmc));
    os_bmc_is_optional();
    if t == after(
        seq![
            Ok(Response::Object(first)),
            Ok(Response::Object(second)),
            Ok(Response::Object(third)),
            Ok(Response::Object(fourth)),
        ],
    ) {
        let bios = lookup(first@, "Attributes"@)->0;
        let before = lookup(second@, "Attributes"@)->0;
        let list = bios_expectations(setup_attrs(before, ""@), bios);
        let oem = oem_all_checked(lookup(third@, "Attributes"@)->0);
        assert((oem matches Ok(diffs) && diffs.len() == 0) <==> bmc_is_set_up(third));
        let f = bmc.diff_bios_bmc_attr_flow(None, t);
        match all_checked(bios, list) {
            Ok(diffs) => {
                let u = Tape { replies: t.replies, pos: 2 };
                assert(f == bmc.diff_bmc_flow(diffs, u));
            },
            Err(_) => {
                assert(f is Fail);
            },
        }
    }
}

proof fn os_bmc_is_optional()
    ensures
        "WebServer.1.HostHeaderCheck"@ != "OS-BMC.1.AdminState"@,
        "IPMILan.1.Enable"@ != "OS-BMC.1.AdminState"@,
{
    reveal_strlit("WebServer.1.HostHeaderCheck");
    reveal_strlit("IPMILan.1.Enable");
    reveal_strlit("OS-BMC.1.AdminState");
    assert("WebServer.1.HostHeaderCheck"@.len() == 27);
    assert("IPMILan.1.Enable"@.len() == 16 && "OS-BMC.1.AdminState"@.len() == 19);
}

/// Whether a machine without a card is set up: the BIOS and the BMC have to be, and the
/// machine has to be locked down. What deviates is listed, and nothing is listed if and
/// only if the machine is set up.
pub proof fn machine_setup_status_run<'a>(
    bmc: &Bmc,
    first: Object,
    second: Object,
    third: Object,
    fourth: Object,
    a: RemoteAccess,
    fifth: Object,
    lockdown: Seq<char>,
    shell: Seq<char>,
    io: &mut Exchange<'a>,
    r: Result<MachineSetupStatus, Stop>,
)
    requires
        call_ensures(Bmc::machine_setup_status, (bmc, None::<&str>, io), r),
        lookup(first@, "Attributes"@) matches Some(JsonView::Object(_)),
        lookup(second@, "Attributes"@) matches Some(JsonView::Object(_)),
        lookup(third@, "Attributes"@) matches Some(JsonView::Object(_)),
        has_access(fourth, a),
        attribute(fifth, "Lockdown.1.SystemLockdown"@) == Some(word(lockdown)),
        attribute(fifth, "Racadm.1.Enable"@) == Some(word(shell)),
        old(io)@ == after(
            seq![
                Ok(Response::Object(first)),
                Ok(Response::Object(second)),
                Ok(Response::Object(third)),
                Ok(Response::Object(fourth)),
                Ok(Response::Object(fifth)),
            ],
        ),
    ensures
        r matches Ok(status) ==> (status.is_done <==> status.diffs@.len() == 0),
        (r matches Ok(status) && status.is_done) <==> bios_is_set_up(first, second, ""@)
            && bmc_is_set_up(third) && access_on(a) && lockdown == "Enabled"@ && shell
            == "Disabled"@,
{
    let t = old(io)@;
    expectations_are_met(first, second, ""@);
    let attrs = lookup(fourth@, "Attributes"@)->0->Object_0;
    access_is_found(attrs, a, bmc_attributes(*bmc));
    os_bmc_is_optional();
    let bios = lookup(first@, "Attributes"@)->0;
    let before = lookup(second@, "Attributes"@)->0;
    let list = bios_expectations(setup_attrs(before, ""@), bios);
    let oem = oem_all_checked(lookup(third@, "Attributes"@)->0);
    assert((oem matches Ok(diffs) && diffs.len() == 0) <==> bmc_is_set_up(third));
    let f = bmc.diff_bios_bmc_attr_flow(None, t);
    match all_checked(bios, list) {
        Ok(diffs) => {
            let u = Tape { replies: t.replies, pos: 2 };
            assert(f == bmc.diff_bmc_flow(diffs, u));
            assert(f matches Flow::Ready(_, v) ==> v == (Tape { replies: t.replies, pos: 4 }));
        },
        Err(_) => {
            assert(f is Fail);
        },
    }
    if let Ok(status) = r {
        assert(status.deep_view().diffs == status.diffs.deep_view());
    }
}

/// Whether `values` are the extra values of the profile `selected` for the model `model`, in
/// the first profiles for Dell, the first of them for the model, and the first of those
/// with the type.
pub open spec fn profile_has(
    profiles: Seq<VendorProfiles>,
    at: (int, int, int),
    model: Seq<char>,
    selected: BiosProfileType,
    values: ObjectView,
) -> bool {
    &&& 0 <= at.0 < profiles.len() && profiles[at.0].vendor == RedfishVendor::Dell
    &&& forall|k: int| 0 <= k < at.0 ==> (#[trigger] profiles[k]).vendor != RedfishVendor::Dell
    &&& 0 <= at.1 < profiles[at.0].models@.len() && profiles[at.0].models@[at.1].model@ == model
    &&& forall|k: int|
        0 <= k < at.1 ==> (#[trigger] profiles[at.0].models@[k]).model@ != model
    &&& 0 <= at.2 < profiles[at.0].models@[at.1].profiles@.len()
    &&& profiles[at.0].models@[at.1].profiles@[at.2].profile == selected
    &&& profiles[at.0].models@[at.1].profiles@[at.2].values@ == values
    &&& forall|k: int|
        0 <= k < at.2 ==> (#[trigger] profiles[at.0].models@[at.1].profiles@[k]).profile
            != selected
}

proof fn profile_is_found(
    profiles: Seq<VendorProfiles>,
    at: (int, int, int),
    model: Seq<char>,
    selected: BiosProfileType,
    values: ObjectView,
)
    requires
        profile_has(profiles, at, model, selected, values),
    ensures
        dell_models(profiles) == Some(profiles[at.0].models@),
        extra_values(profiles[at.0].models@, model, selected) == Some(values),
{
    let models = profiles[at.0].models@;
    let list = models[at.1].profiles@;
    let p = for_dell();
    let q = for_model(model);
    let s = for_profile(selected);
    assert forall|k: int| 0 <= k < at.0 implies !p(#[trigger] profiles[k]) by {}
    first_where_found(profiles, p, at.0);
    assert forall|k: int| 0 <= k < at.1 implies !q(#[trigger] models[k]) by {
        assert(profiles[at.0].models@[k].model@ != model);
    }
    first_where_found(models, q, at.1);
    assert forall|k: int| 0 <= k < at.2 implies !s(#[trigger] list[k]) by {
        assert(profiles[at.0].models@[at.1].profiles@[k].profile != selected);
    }
    first_where_found(list, s, at.2);
}

/// Setting up a machine with a profile: the model of the system, with underscores for
/// spaces, and the type that was selected give the extra values, which are written beside
/// the settings of the setup and win over them.
pub proof fn machine_setup_with_profile_run<'a>(
    bmc: &Bmc,
    profiles: &Vec<VendorProfiles>,
    selected: BiosProfileType,
    at: (int, int, int),
    values: ObjectView,
    document: Object,
    w: Written,
    bios: Object,
    system: ComputerSystem,
    model: String,
    key: Seq<char>,
    io: &mut Exchange<'a>,
    r: Result<(), Stop>,
)
    requires
        call_ensures(Bmc::machine_setup, (bmc, None::<&str>, profiles, selected, io), r),
        unlocked(document),
        lookup(bios@, "Attributes"@) matches Some(JsonView::Object(_)),
        system.model == Some(model),
        profile_has(profiles@, at, underscored(model@), selected, values),
    ensures
        old(io)@ == after(
            seq![
                Ok(Response::Object(document)),
                Ok(Response::Written(w)),
                Ok(Response::Object(bios)),
            ],
        ) ==> asks(r, reading("Systems/"@ + bmc.s.system() + "/"@), Kind::System),
        old(io)@ == after(
            seq![
                Ok(Response::Object(document)),
                Ok(Response::Written(w)),
                Ok(Response::Object(bios)),
                Ok(Response::System(system)),
            ],
        ) ==> exists|body: ObjectView|
            #![trigger changing(bios_changes(*bmc), body)]
            asks(r, changing(bios_changes(*bmc), body), Kind::Written) && lookup(body, key) == (
            match last_value(values, key) {
                Some(value) => Some(value),
                None => lookup(at_reset(setup_bios(bios, ""@)), key),
            }),
{
    profile_is_found(profiles@, at, underscored(model@), selected, values);
    setup_bios_body(bios, ""@);
    let body = extended(at_reset(setup_bios(bios, ""@)), values);
    extended_is_found(at_reset(setup_bios(bios, ""@)), values, key);
    if old(io)@ == after(
        seq![
            Ok(Response::Object(document)),
            Ok(Response::Written(w)),
            Ok(Response::Object(bios)),
            Ok(Response::System(system)),
        ],
    ) {
        assert(asks(r, changing(bios_changes(*bmc), body), Kind::Written));
    }
}

/// A machine with a card is set up if and only if its BIOS, with the slot of the card, and
/// its BMC are, it is locked down, and the first boot option boots over HTTP from the card.
#[verifier::rlimit(40)]
pub proof fn machine_setup_status_with_card_run<'a>(
    bmc: &Bmc,
    mac: &str,
    first: Object,
    chassis: Chassis,
    adapters: Members<NetworkAdapter>,
    functions: Seq<Members<NetworkDeviceFunction>>,
    i: int,
    slot: Seq<char>,
    description: Seq<char>,
    second: Object,
    third: Object,
    fourth: Object,
    a: RemoteAccess,
    fifth: Object,
    lockdown: Seq<char>,
    shell: Seq<char>,
    links: References,
    ids: Seq<Seq<char>>,
    options: Seq<BootOption>,
    io: &mut Exchange<'a>,
    r: Result<MachineSetupStatus, Stop>,
)
    requires
        call_ensures(Bmc::machine_setup_status, (bmc, Some(mac), io), r),
        lookup(first@, "Attributes"@) matches Some(JsonView::Object(_)),
        leads_to_card(chassis, adapters, functions, i, mac@),
        of_card(functions.last().members@[i], "Id"@) == Some(word(slot)),
        of_card(functions.last().members@[i], "DeviceDescription"@) == Some(word(description)),
        lookup(second@, "Attributes"@) matches Some(JsonView::Object(_)),
        lookup(third@, "Attributes"@) matches Some(JsonView::Object(_)),
        has_access(fourth, a),
        attribute(fifth, "Lockdown.1.SystemLockdown"@) == Some(word(lockdown)),
        attribute(fifth, "Racadm.1.Enable"@) == Some(word(shell)),
        lead_to(links.members@, ids),
        options.len() == ids.len(),
        old(io)@ == after(
            seq![
                Ok(Response::Object(first)),
                Ok(Response::Chassis(chassis)),
                Ok(Response::NetworkAdapters(adapters)),
            ] + function_replies(functions) + seq![
                Ok(Response::Object(second)),
                Ok(Response::Object(third)),
                Ok(Response::Object(fourth)),
                Ok(Response::Object(fifth)),
            ] + to_boot_options(chassis, adapters, functions, links, options),
        ),
    ensures
        (r matches Ok(status) && status.is_done) <==> bios_is_set_up(first, second, slot)
            && bmc_is_set_up(third) && access_on(a) && lockdown == "Enabled"@ && shell
            == "Disabled"@ && options.len() > 0 && options[0].display_name@ == "HTTP Device 1: "@
            + description,
{
    let t = old(io)@;
    let all = t.replies;
    let n = functions.len() as int;
    let before = seq![Ok(Response::Object(first))];
    let rest = seq![
        Ok(Response::Object(second)),
        Ok(Response::Object(third)),
        Ok(Response::Object(fourth)),
        Ok(Response::Object(fifth)),
    ];
    let boot = to_boot_options(chassis, adapters, functions, links, options);
    let u = Tape { replies: all, pos: 1 };
    let v = Tape { replies: all, pos: (3 + n) as nat };
    assert(bmc.dpu_nic_slot_flow(mac@, u) == Flow::Ready(slot, v)) by {
        card_is_found(*bmc, mac@, chassis, adapters, functions, i, before, rest + boot, slot);
        assert(before + seq![
            Ok(Response::Chassis(chassis)),
            Ok(Response::NetworkAdapters(adapters)),
        ] + function_replies(functions) + (rest + boot) =~= all);
    }
    let head = seq![
        Ok(Response::Object(first)),
        Ok(Response::Chassis(chassis)),
        Ok(Response::NetworkAdapters(adapters)),
    ] + function_replies(functions) + rest;
    let x = Tape { replies: all, pos: (7 + n) as nat };
    boot_option_is_expected(
        *bmc,
        mac@,
        chassis,
        adapters,
        functions,
        i,
        description,
        links,
        ids,
        options,
        head,
        Seq::empty(),
    );
    assert(head + boot + Seq::<Reply>::empty() =~= all);
    assert(head.len() == 7 + n);
    assert(all[3 + n] == Reply::Ok(Response::Object(second)));
    assert(all[4 + n] == Reply::Ok(Response::Object(third)));
    assert(all[5 + n] == Reply::Ok(Response::Object(fourth)));
    assert(all[6 + n] == Reply::Ok(Response::Object(fifth)));
    card_setup_is_told(*bmc, mac@, first, slot, second, third, fourth, a, t, v);
    let f = bmc.diff_bios_bmc_attr_flow(Some(mac@), t);
    let names = bmc.first_boot_option_flow(mac@, x);
    assert(names matches Flow::Ready(found, _) && (Bmc::boots_first(found) <==> options.len() > 0
        && options[0].display_name@ == "HTTP Device 1: "@ + description));
    if let Flow::Ready(diffs, w) = f {
        assert(w == (Tape { replies: all, pos: (6 + n) as nat }));
        assert(bmc.lockdown_status_flow(w) matches Flow::Ready(report, y) && y == x && (
        report.status == StatusInternal::Enabled <==> lockdown == "Enabled"@ && shell
            == "Disabled"@));
    }
}

proof fn card_setup_is_told(
    bmc: Bmc,
    mac: Seq<char>,
    first: Object,
    slot: Seq<char>,
    second: Object,
    third: Object,
    fourth: Object,
    a: RemoteAccess,
    t: Tape,
    v: Tape,
)
    requires
        lookup(first@, "Attributes"@) matches Some(JsonView::Object(_)),
        lookup(second@, "Attributes"@) matches Some(JsonView::Object(_)),
        lookup(third@, "Attributes"@) matches Some(JsonView::Object(_)),
        has_access(fourth, a),
        t.pos < t.replies.len(),
        t.replies[t.pos as int] == Reply::Ok(Response::Object(first)),
        bmc.dpu_nic_slot_flow(mac, t.next()) == Flow::Ready(slot, v),
        v.pos + 3 <= v.replies.len(),
        v.replies[v.pos as int] == Reply::Ok(Response::Object(second)),
        v.replies[v.pos + 1int] == Reply::Ok(Response::Object(third)),
        v.replies[v.pos + 2int] == Reply::Ok(Response::Object(fourth)),
    ensures
        bmc.diff_bios_bmc_attr_flow(Some(mac), t) matches Flow::Ready(_, w) ==> w == (Tape {
            replies: v.replies,
            pos: v.pos + 3,
        }),
        (bmc.diff_bios_bmc_attr_flow(Some(mac), t) matches Flow::Ready(diffs, _) && diffs.len()
            == 0) <==> bios_is_set_up(first, second, slot) && bmc_is_set_up(third) && access_on(a),
        !(bmc.diff_bios_bmc_attr_flow(Some(mac), t) is Wait),
{
    expectations_are_met(first, second, slot);
    let attrs = lookup(fourth@, "Attributes"@)->0->Object_0;
    access_is_found(attrs, a, bmc_attributes(bmc));
    os_bmc_is_optional();
    let bios = lookup(first@, "Attributes"@)->0;
    let before = lookup(second@, "Attributes"@)->0;
    let list = bios_expectations(setup_attrs(before, slot), bios);
    let oem = oem_all_checked(lookup(third@, "Attributes"@)->0);
    assert((oem matches Ok(diffs) && diffs.len() == 0) <==> bmc_is_set_up(third));
    let f = bmc.diff_bios_bmc_attr_flow(Some(mac), t);
    match all_checked(bios, list) {
        Ok(diffs) => {
            assert(f == bmc.diff_bmc_flow(diffs, v.next()));
        },
        Err(_) => {
            assert(f is Fail);
        },
    }
}

} // verus!
