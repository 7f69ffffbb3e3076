//! The provisioning operator: the device state that the gateway reports, the
//! commands sent to the gateway, and the decisions the operator takes for a
//! registered device and for each event it receives.
use vstd::prelude::*;
use vstd::string::*;
use crate::external::{
    attribute_map, cloud_event, condition_entries, conditions_default, conditions_update,
    names_unique, opt_text, read_cloud_event, status_text, updated_conditions,
};
use crate::text::{ascii_lower, hex2, push_hex2, to_ascii_lowercase};

verus! {

/// An event that the gateway publishes about a device.
#[derive(Debug)]
pub struct BtMeshEvent {
    pub status: BtMeshDeviceState,
}

/// A command that the operator sends to the gateway.
#[derive(Debug)]
pub struct BtMeshCommand {
    pub command: BtMeshOperation,
}

/// What a command asks of the gateway.
#[derive(Debug)]
pub enum BtMeshOperation {
    Provision { device: String },
    Reset { address: u16 },
}

/// The provisioning state of a device.
#[derive(Debug, Eq, PartialEq, Clone)]
pub enum BtMeshDeviceState {
    Provisioning { error: Option<String> },
    Provisioned { address: u16 },
    Reset { error: Option<String> },
}

/// The Bluetooth mesh section of a device's spec: the device's UUID.
#[derive(Debug)]
pub struct BtMeshSpec {
    pub device: String,
}

/// The Bluetooth mesh section of a device's status.
#[derive(Debug)]
pub struct BtMeshStatus {
    pub conditions: drogue_client::core::v1::Conditions,
    pub state: BtMeshDeviceState,
    pub address: Option<u16>,
}

/// What the operator does for one registered device with a Bluetooth mesh
/// spec: the topic for commands to it, the alias it must carry, the status
/// written back, whether it keeps the finalizer, and the command to send.
#[derive(Debug)]
pub struct ProvisionPlan {
    pub topic: String,
    pub alias: String,
    pub status: BtMeshStatus,
    pub set_finalizer: bool,
    pub command: Option<BtMeshCommand>,
}

/// What an event from the gateway does to a device: its new status, whether
/// the finalizer stays, and an alias that the device must carry.
#[derive(Debug)]
pub struct EventOutcome {
    pub status: BtMeshStatus,
    pub keep_finalizer: bool,
    pub alias: Option<String>,
}

/// Where an event received by the operator leads.
#[derive(Debug)]
pub enum EventRoute {
    /// The set of devices changed: list the devices and provision them.
    ListDevices,
    /// The gateway reported on the named device.
    DeviceEvent { device: String },
    /// Any other event.
    Ignore,
}

/// What the operator does with a message from its subscription.
#[derive(Debug)]
pub enum EventDecision {
    /// The payload is no cloud event: stop taking in events.
    Stop,
    /// The set of devices changed: list the devices and provision them.
    ListDevices,
    /// The gateway reported on the named device; `data` is the JSON text of
    /// the event's data, when it has JSON data.
    DeviceEvent { device: String, data: Option<String> },
    /// Any other event.
    Ignore,
}

/// The text of a named attribute, or the empty text when the attribute is
/// missing or holds no text.
pub open spec fn attribute_text(m: Map<Seq<char>, Option<Seq<char>>>, name: Seq<char>) -> Seq<
    char,
> {
    if m.contains_key(name) && m[name] is Some {
        m[name].unwrap()
    } else {
        Seq::empty()
    }
}

/// The views of a sequence of strings.
pub open spec fn texts(v: Seq<String>) -> Seq<Seq<char>> {
    v.map_values(|s: String| s@)
}

/// The alias list after the alias is ensured: unchanged when it is already
/// there, otherwise with the alias appended.
pub open spec fn with_alias(aliases: Seq<Seq<char>>, alias: Seq<char>) -> Seq<Seq<char>> {
    if aliases.contains(alias) {
        aliases
    } else {
        aliases.push(alias)
    }
}

/// The alias of a unicast address: the address as four lower-case
/// hexadecimal digits, high byte first (address 0x0100 is `0100`).
pub open spec fn address_alias_text(address: u16) -> Seq<char> {
    hex2((address / 256) as u8) + hex2((address % 256) as u8)
}

/// The topic on which commands for a device are published.
pub open spec fn command_topic_text(application: Seq<char>, device: Seq<char>) -> Seq<char> {
    "command/"@ + application + "/"@ + device + "/btmesh"@
}

/// The conditions after the operator has taken in an event with the given
/// device state.
pub open spec fn event_conditions(
    es: Seq<(Seq<char>, Seq<char>, Option<Seq<char>>, Option<Seq<char>>)>,
    state: BtMeshDeviceState,
) -> Seq<(Seq<char>, Seq<char>, Option<Seq<char>>, Option<Seq<char>>)> {
    match state {
        BtMeshDeviceState::Reset { error: Some(e) } => updated_conditions(
            updated_conditions(
                es,
                "Provisioned"@,
                status_text(Some(true)),
                Some("Error resetting device"@),
                Some(e@),
            ),
            "Provisioning"@,
            status_text(Some(false)),
            None,
            None,
        ),
        BtMeshDeviceState::Reset { error: None } => updated_conditions(
            updated_conditions(es, "Provisioned"@, status_text(Some(false)), None, None),
            "Provisioning"@,
            status_text(Some(false)),
            None,
            None,
        ),
        BtMeshDeviceState::Provisioned { .. } => updated_conditions(
            updated_conditions(es, "Provisioned"@, status_text(Some(true)), None, None),
            "Provisioning"@,
            status_text(Some(false)),
            None,
            None,
        ),
        BtMeshDeviceState::Provisioning { error } => {
            let es1 = updated_conditions(es, "Provisioning"@, status_text(Some(true)), None, None);
            match error {
                Some(e) => updated_conditions(
                    es1,
                    "Provisioned"@,
                    status_text(Some(false)),
                    Some("Error provisioning device"@),
                    Some(e@),
                ),
                None => updated_conditions(es1, "Provisioned"@, status_text(None), None, None),
            }
        },
    }
}

/// The last string value among the attributes with the given name, or the
/// empty text when there is none.
pub open spec fn last_attribute(attrs: Seq<(String, Option<String>)>, name: Seq<char>) -> Seq<
    char,
>
    decreases attrs.len(),
{
    if attrs.len() == 0 {
        Seq::empty()
    } else if attrs.last().0@ == name && attrs.last().1 is Some {
        attrs.last().1.unwrap()@
    } else {
        last_attribute(attrs.drop_last(), name)
    }
}

/// The topic on which commands for a device are published:
/// `command/<application>/<device>/btmesh`.
pub fn command_topic(application: &str, device: &str) -> (t: String)
    ensures
        t@ == command_topic_text(application@, device@),
        t@ == "command/"@ + application@ + "/"@ + device@ + "/btmesh"@,
{
    let mut t = String::from_str("command/");
    t.append(application);
    t.append("/");
    t.append(device);
    t.append("/btmesh");
    t
}

/// The topic the operator subscribes to: the shared subscription of its group
/// when it has one, otherwise the application's own topic.
pub fn subscription_topic(group_id: Option<&str>, application: &str) -> (t: String)
    ensures
        group_id matches Some(g) ==> t@ == "$shared/"@ + g@ + "/app/"@ + application@,
        group_id is None ==> t@ == "app/"@ + application@,
{
    match group_id {
        Some(g) => {
            let mut t = String::from_str("$shared/");
            t.append(g);
            t.append("/app/");
            t.append(application);
            t
        },
        None => {
            let mut t = String::from_str("app/");
            t.append(application);
            t
        },
    }
}

/// The alias under which a provisioned device is known: its unicast address
/// as four lower-case hexadecimal digits, high byte first.
pub fn address_alias(address: u16) -> (a: String)
    ensures
        a@ == address_alias_text(address),
{
    let mut a = String::new();
    push_hex2(&mut a, (address / 256) as u8);
    push_hex2(&mut a, (address % 256) as u8);
    a
}

/// The alias list of a device with `alias` in it: unchanged when it already
/// holds it, otherwise with it appended at the end.
pub fn ensure_alias(aliases: Vec<String>, alias: &str) -> (r: Vec<String>)
    ensures
        texts(r@) == with_alias(texts(aliases@), alias@),
{
    let wanted = String::from_str(alias);
    let mut found = false;
    let mut i: usize = 0;
    while i < aliases.len()
        invariant
            i <= aliases@.len(),
            wanted@ == alias@,
            found <==> texts(aliases@.subrange(0, i as int)).contains(alias@),
        decreases aliases@.len() - i,
    {
        let same = aliases[i] == wanted;
        proof {
            let before = texts(aliases@.subrange(0, i as int));
            let after = texts(aliases@.subrange(0, i + 1));
            assert(after =~= before.push(aliases@[i as int]@));
            if before.contains(alias@) {
                let k = choose|k: int| 0 <= k < before.len() && before[k] == alias@;
                assert(after[k] == alias@);
            }
            if after.contains(alias@) {
                let k = choose|k: int| 0 <= k < after.len() && after[k] == alias@;
                if k < before.len() {
                    assert(before[k] == alias@);
                }
            }
            if same {
                assert(after[i as int] == alias@);
            }
        }
        found = found || same;
        i = i + 1;
    }
    assert(aliases@.subrange(0, aliases@.len() as int) =~= aliases@);
    let mut r = aliases;
    if !found {
        r.push(wanted);
        assert(texts(r@) =~= texts(aliases@).push(alias@));
    }
    r
}

/// What the operator does for a registered device with a Bluetooth mesh spec,
/// given the status it already has and whether it is being deleted.
///
/// A device without a status starts out provisioning. A live device keeps the
/// finalizer, and is sent a provisioning command while it is provisioning. A
/// device being deleted is sent a reset command when it has an address.
pub fn plan_provisioning(
    application: &str,
    name: &str,
    spec: &BtMeshSpec,
    current: Option<BtMeshStatus>,
    deleting: bool,
) -> (plan: ProvisionPlan)
    ensures
        plan.topic@ == command_topic_text(application@, name@),
        plan.topic@ == "command/"@ + application@ + "/"@ + name@ + "/btmesh"@,
        plan.alias@ == ascii_lower(spec.device@),
        current matches Some(s) ==> plan.status == s,
        current is None ==> plan.status.address is None && plan.status.state
            == (BtMeshDeviceState::Provisioning { error: None }) && condition_entries(
            plan.status.conditions,
        ).len() == 0,
        plan.set_finalizer == !deleting,
        !deleting && plan.status.state is Provisioning ==> plan.command == Some(
            BtMeshCommand { command: BtMeshOperation::Provision { device: plan.alias } },
        ),
        !deleting && !(plan.status.state is Provisioning) ==> plan.command is None,
        deleting ==> match plan.status.address {
            Some(a) => plan.command == Some(
                BtMeshCommand { command: BtMeshOperation::Reset { address: a } },
            ),
            None => plan.command is None,
        },
{
    let status = match current {
        Some(s) => s,
        None => BtMeshStatus {
            address: None,
            conditions: conditions_default(),
            state: BtMeshDeviceState::Provisioning { error: None },
        },
    };
    let topic = command_topic(application, name);
    let alias = to_ascii_lowercase(spec.device.as_str());
    let command = if !deleting {
        match &status.state {
            BtMeshDeviceState::Provisioning { .. } => Some(
                BtMeshCommand { command: BtMeshOperation::Provision { device: alias.clone() } },
            ),
            _ => None,
        }
    } else {
        match status.address {
            Some(a) => Some(BtMeshCommand { command: BtMeshOperation::Reset { address: a } }),
            None => None,
        }
    };
    ProvisionPlan { topic, alias, status, set_finalizer: !deleting, command }
}

/// Where an event leads, from its attributes (name and, for a text value, the
/// text): the `subject` attribute selects the channel, and on the `btmesh`
/// channel the `device` attribute names the device. When an attribute occurs
/// more than once the last text value counts.
pub fn route_event(attributes: &Vec<(String, Option<String>)>) -> (route: EventRoute)
    ensures
        last_attribute(attributes@, "subject"@) == "devices"@ ==> route is ListDevices,
        last_attribute(attributes@, "subject"@) == "btmesh"@ ==> (route matches EventRoute::DeviceEvent {
            device,
        } && device@ == last_attribute(attributes@, "device"@)),
        last_attribute(attributes@, "subject"@) != "devices"@ && last_attribute(
            attributes@,
            "subject"@,
        ) != "btmesh"@ ==> route is Ignore,
{
    proof {
        reveal_strlit("subject");
        reveal_strlit("device");
        reveal_strlit("devices");
        reveal_strlit("btmesh");
        assert("subject"@[0] != "device"@[0]);
        assert("devices"@[0] != "btmesh"@[0]);
    }
    let subject_name = String::from_str("subject");
    let device_name = String::from_str("device");
    let mut subject = String::new();
    let mut device = String::new();
    let mut i: usize = 0;
    while i < attributes.len()
        invariant
            i <= attributes@.len(),
            subject_name@ == "subject"@,
            device_name@ == "device"@,
            "subject"@ != "device"@,
            subject@ == last_attribute(attributes@.subrange(0, i as int), "subject"@),
            device@ == last_attribute(attributes@.subrange(0, i as int), "device"@),
        decreases attributes@.len() - i,
    {
        let ghost prefix = attributes@.subrange(0, i + 1);
        assert(prefix.drop_last() =~= attributes@.subrange(0, i as int));
        assert(prefix.last() == attributes@[i as int]);
        let (name, value) = &attributes[i];
        if *name == subject_name {
            if let Some(v) = value {
                subject = v.clone();
            }
        } else if *name == device_name {
            if let Some(v) = value {
                device = v.clone();
            }
        }
        i = i + 1;
    }
    assert(attributes@.subrange(0, attributes@.len() as int) =~= attributes@);
    let devices_text = String::from_str("devices");
    let btmesh_text = String::from_str("btmesh");
    if subject == devices_text {
        EventRoute::ListDevices
    } else if subject == btmesh_text {
        EventRoute::DeviceEvent { device }
    } else {
        EventRoute::Ignore
    }
}

/// What the operator does with a message payload: it stops on a payload
/// that is no cloud event; otherwise the `subject` attribute selects the
/// channel, and on the `btmesh` channel the `device` attribute names the
/// device, whose event data goes along.
pub fn read_event(payload: &[u8]) -> (d: EventDecision)
    ensures
        cloud_event(payload@) is None ==> d is Stop,
        cloud_event(payload@) is Some ==> ({
            let (m, data) = cloud_event(payload@).unwrap();
            &&& attribute_text(m, "subject"@) == "devices"@ ==> d is ListDevices
            &&& attribute_text(m, "subject"@) == "btmesh"@ ==> (d matches EventDecision::DeviceEvent {
                device,
                data: dd,
            } && device@ == attribute_text(m, "device"@) && opt_text(dd) == data)
            &&& attribute_text(m, "subject"@) != "devices"@ && attribute_text(m, "subject"@)
                != "btmesh"@ ==> d is Ignore
        }),
{
    match read_cloud_event(payload) {
        None => EventDecision::Stop,
        Some((attrs, data)) => {
            proof {
                lemma_last_attribute_unique(attrs@, "subject"@);
                lemma_last_attribute_unique(attrs@, "device"@);
            }
            match route_event(&attrs) {
                EventRoute::ListDevices => EventDecision::ListDevices,
                EventRoute::DeviceEvent { device } => EventDecision::DeviceEvent { device, data },
                EventRoute::Ignore => EventDecision::Ignore,
            }
        },
    }
}

/// A name that no pair carries has no last text value.
proof fn lemma_last_attribute_absent(attrs: Seq<(String, Option<String>)>, name: Seq<char>)
    requires
        forall|i: int| 0 <= i < attrs.len() ==> #[trigger] attrs[i].0@ != name,
    ensures
        last_attribute(attrs, name) == Seq::<char>::empty(),
        !attribute_map(attrs).contains_key(name),
    decreases attrs.len(),
{
    if attrs.len() > 0 {
        let u = attrs.drop_last();
        assert forall|i: int| 0 <= i < u.len() implies #[trigger] u[i].0@ != name by {
            assert(u[i] == attrs[i]);
        }
        assert(attrs[attrs.len() - 1].0@ != name);
        lemma_last_attribute_absent(u, name);
    }
}

/// When no two attributes share a name, the last text value of a name is
/// the text that the attributes hold under it.
pub proof fn lemma_last_attribute_unique(attrs: Seq<(String, Option<String>)>, name: Seq<char>)
    requires
        names_unique(attrs),
    ensures
        last_attribute(attrs, name) == attribute_text(attribute_map(attrs), name),
    decreases attrs.len(),
{
    if attrs.len() > 0 {
        let u = attrs.drop_last();
        let x = attrs.last();
        assert forall|i: int, j: int| 0 <= i < j < u.len() implies #[trigger] u[i].0@
            != #[trigger] u[j].0@ by {
            assert(u[i] == attrs[i] && u[j] == attrs[j]);
        }
        if x.0@ == name && x.1 is None {
            assert forall|i: int| 0 <= i < u.len() implies #[trigger] u[i].0@ != name by {
                assert(u[i] == attrs[i]);
                assert(attrs[i].0@ != attrs[attrs.len() - 1].0@);
            }
            lemma_last_attribute_absent(u, name);
        } else if x.0@ != name {
            lemma_last_attribute_unique(u, name);
        }
    }
}

/// Applies the updates of an event's device state to the conditions.
fn update_event_conditions(c: &mut drogue_client::core::v1::Conditions, state: &BtMeshDeviceState)
    ensures
        condition_entries(*final(c)) == event_conditions(condition_entries(*old(c)), *state),
{
    match state {
        BtMeshDeviceState::Reset { error } => {
            match error {
                Some(e) => {
                    conditions_update(
                        c,
                        "Provisioned",
                        Some(true),
                        Some(String::from_str("Error resetting device")),
                        Some(e.clone()),
                    );
                },
                None => {
                    conditions_update(c, "Provisioned", Some(false), None, None);
                },
            }
            conditions_update(c, "Provisioning", Some(false), None, None);
        },
        BtMeshDeviceState::Provisioned { .. } => {
            conditions_update(c, "Provisioned", Some(true), None, None);
            conditions_update(c, "Provisioning", Some(false), None, None);
        },
        BtMeshDeviceState::Provisioning { error } => {
            conditions_update(c, "Provisioning", Some(true), None, None);
            match error {
                Some(e) => {
                    conditions_update(
                        c,
                        "Provisioned",
                        Some(false),
                        Some(String::from_str("Error provisioning device")),
                        Some(e.clone()),
                    );
                },
                None => {
                    conditions_update(c, "Provisioned", None, None, None);
                },
            }
        },
    }
}

/// What an event from the gateway does to a device that has the given
/// status (or none yet). A device without a status takes the event's state;
/// one with a status keeps its state and address, and only its conditions
/// follow the event. A reset without error releases the finalizer; a
/// provisioned device must carry the alias of its address.
pub fn apply_event(current: Option<BtMeshStatus>, event: BtMeshEvent) -> (out: EventOutcome)
    ensures
        current matches Some(s) ==> out.status.state == s.state && out.status.address
            == s.address && condition_entries(out.status.conditions) == event_conditions(
            condition_entries(s.conditions),
            event.status,
        ),
        current is None ==> out.status.state == event.status && out.status.address is None
            && condition_entries(out.status.conditions) == event_conditions(
            Seq::empty(),
            event.status,
        ),
        out.keep_finalizer == !(event.status == BtMeshDeviceState::Reset { error: None }),
        event.status matches BtMeshDeviceState::Provisioned { address } ==> (out.alias matches Some(
            a,
        ) && a@ == address_alias_text(address)),
        !(event.status is Provisioned) ==> out.alias is None,
{
    let keep_finalizer = match &event.status {
        BtMeshDeviceState::Reset { error: None } => false,
        _ => true,
    };
    let alias = match &event.status {
        BtMeshDeviceState::Provisioned { address } => Some(address_alias(*address)),
        _ => None,
    };
    let status = match current {
        Some(s) => {
            let mut s = s;
            update_event_conditions(&mut s.conditions, &event.status);
            s
        },
        None => {
            let mut conditions = conditions_default();
            update_event_conditions(&mut conditions, &event.status);
            BtMeshStatus { address: None, conditions, state: event.status }
        },
    };
    EventOutcome { status, keep_finalizer, alias }
}

// ---------------------------------------------------------------------------
// Laws
// ---------------------------------------------------------------------------

/// The status text, reason and message of the first condition of type `t`.
pub open spec fn condition_of(
    es: Seq<(Seq<char>, Seq<char>, Option<Seq<char>>, Option<Seq<char>>)>,
    t: Seq<char>,
) -> Option<(Seq<char>, Option<Seq<char>>, Option<Seq<char>>)>
    decreases es.len(),
{
    if es.len() == 0 {
        None
    } else if es[0].0 == t {
        Some((es[0].1, es[0].2, es[0].3))
    } else {
        condition_of(es.drop_first(), t)
    }
}

/// After a condition is updated, reading that condition gives what was
/// written.
pub proof fn lemma_condition_update_reads_back(
    es: Seq<(Seq<char>, Seq<char>, Option<Seq<char>>, Option<Seq<char>>)>,
    t: Seq<char>,
    status: Seq<char>,
    reason: Option<Seq<char>>,
    message: Option<Seq<char>>,
)
    ensures
        condition_of(updated_conditions(es, t, status, reason, message), t) == Some(
            (status, reason, message),
        ),
    decreases es.len(),
{
    if es.len() > 0 && es[0].0 != t {
        lemma_condition_update_reads_back(es.drop_first(), t, status, reason, message);
        let u = updated_conditions(es, t, status, reason, message);
        assert(u.drop_first() =~= updated_conditions(es.drop_first(), t, status, reason, message));
    }
}

/// Updating one condition leaves every condition of another type as it was.
pub proof fn lemma_condition_update_keeps_others(
    es: Seq<(Seq<char>, Seq<char>, Option<Seq<char>>, Option<Seq<char>>)>,
    t: Seq<char>,
    other: Seq<char>,
    status: Seq<char>,
    reason: Option<Seq<char>>,
    message: Option<Seq<char>>,
)
    requires
        t != other,
    ensures
        condition_of(updated_conditions(es, t, status, reason, message), other) == condition_of(
            es,
            other,
        ),
    decreases es.len(),
{
    let u = updated_conditions(es, t, status, reason, message);
    if es.len() == 0 {
        assert(u.drop_first().len() == 0);
        assert(condition_of(u.drop_first(), other) == None::<
            (Seq<char>, Option<Seq<char>>, Option<Seq<char>>),
        >);
        assert(u[0].0 == t);
    } else if es[0].0 == t {
        assert(u.drop_first() =~= es.drop_first());
        assert(u[0].0 == t);
    } else {
        lemma_condition_update_keeps_others(es.drop_first(), t, other, status, reason, message);
        assert(u.drop_first() =~= updated_conditions(es.drop_first(), t, status, reason, message));
    }
}

/// Updating a condition twice with the same values is the same as once.
pub proof fn lemma_condition_update_idempotent(
    es: Seq<(Seq<char>, Seq<char>, Option<Seq<char>>, Option<Seq<char>>)>,
    t: Seq<char>,
    status: Seq<char>,
    reason: Option<Seq<char>>,
    message: Option<Seq<char>>,
)
    ensures
        updated_conditions(updated_conditions(es, t, status, reason, message), t, status, reason, message)
            == updated_conditions(es, t, status, reason, message),
    decreases es.len(),
{
    let u = updated_conditions(es, t, status, reason, message);
    if es.len() == 0 {
        assert(updated_conditions(u, t, status, reason, message) =~= u);
    } else if es[0].0 == t {
        assert(updated_conditions(u, t, status, reason, message) =~= u);
    } else {
        lemma_condition_update_idempotent(es.drop_first(), t, status, reason, message);
        assert(u.drop_first() =~= updated_conditions(es.drop_first(), t, status, reason, message));
        assert(updated_conditions(u, t, status, reason, message) =~= u);
    }
}

/// Whatever conditions a device had, after an event the "Provisioned" and
/// "Provisioning" conditions read as the event's state dictates: provisioned
/// devices are provisioned and no longer provisioning, reset devices are
/// neither (a failed reset still counts as provisioned, with the error), and
/// provisioning devices are provisioning, not provisioned when an error came
/// with the event and of unknown state otherwise.
pub proof fn lemma_event_conditions(
    es: Seq<(Seq<char>, Seq<char>, Option<Seq<char>>, Option<Seq<char>>)>,
    state: BtMeshDeviceState,
)
    ensures
        condition_of(event_conditions(es, state), "Provisioned"@) == match state {
            BtMeshDeviceState::Provisioned { .. } => Some(("True"@, None, None)),
            BtMeshDeviceState::Reset { error: None } => Some(("False"@, None, None)),
            BtMeshDeviceState::Reset { error: Some(e) } => Some(
                ("True"@, Some("Error resetting device"@), Some(e@)),
            ),
            BtMeshDeviceState::Provisioning { error: None } => Some(("Unknown"@, None, None)),
            BtMeshDeviceState::Provisioning { error: Some(e) } => Some(
                ("False"@, Some("Error provisioning device"@), Some(e@)),
            ),
        },
        condition_of(event_conditions(es, state), "Provisioning"@) == match state {
            BtMeshDeviceState::Provisioning { .. } => Some(
                ("True"@, None::<Seq<char>>, None::<Seq<char>>),
            ),
            _ => Some(("False"@, None::<Seq<char>>, None::<Seq<char>>)),
        },
{
    reveal_strlit("Provisioned");
    reveal_strlit("Provisioning");
    assert("Provisioned"@.len() != "Provisioning"@.len());
    let a = "Provisioned"@;
    let b = "Provisioning"@;
    match state {
        BtMeshDeviceState::Provisioning { error } => {
            let es1 = updated_conditions(es, b, status_text(Some(true)), None, None);
            lemma_condition_update_reads_back(es, b, status_text(Some(true)), None, None);
            match error {
                Some(e) => {
                    let r = Some("Error provisioning device"@);
                    lemma_condition_update_reads_back(es1, a, status_text(Some(false)), r, Some(e@));
                    lemma_condition_update_keeps_others(
                        es1,
                        a,
                        b,
                        status_text(Some(false)),
                        r,
                        Some(e@),
                    );
                },
                None => {
                    lemma_condition_update_reads_back(es1, a, status_text(None), None, None);
                    lemma_condition_update_keeps_others(es1, a, b, status_text(None), None, None);
                },
            }
        },
        _ => {
            let (s1, r1, m1) = match state {
                BtMeshDeviceState::Reset { error: Some(e) } => (
                    status_text(Some(true)),
                    Some("Error resetting device"@),
                    Some(e@),
                ),
                BtMeshDeviceState::Reset { error: None } => (status_text(Some(false)), None, None),
                _ => (status_text(Some(true)), None, None),
            };
            let es1 = updated_conditions(es, a, s1, r1, m1);
            lemma_condition_update_reads_back(es, a, s1, r1, m1);
            lemma_condition_update_reads_back(es1, b, status_text(Some(false)), None, None);
            lemma_condition_update_keeps_others(es1, b, a, status_text(Some(false)), None, None);
        },
    }
}

/// The command topic of a device holds the application and the device name
/// verbatim: after `command/` comes the application, then `/`, then the
/// device name exactly as given, then `/btmesh`, and nothing else.
pub proof fn lemma_command_topic_holds_names(application: Seq<char>, device: Seq<char>)
    ensures
        ({
            let t = command_topic_text(application, device);
            let a: int = 8 + application.len() as int;
            &&& t.len() == a + 1 + device.len() as int + 7
            &&& t.subrange(0, 8) == "command/"@
            &&& t.subrange(8, a) == application
            &&& t[a] == '/'
            &&& t.subrange(a + 1, a + 1 + device.len() as int) == device
            &&& t.subrange(a + 1 + device.len() as int, t.len() as int) == "/btmesh"@
        }),
{
    reveal_strlit("command/");
    reveal_strlit("/");
    reveal_strlit("/btmesh");
    let t = command_topic_text(application, device);
    let a: int = 8 + application.len() as int;
    assert(t.subrange(0, 8) =~= "command/"@);
    assert(t.subrange(8, a) =~= application);
    assert(t.subrange(a + 1, a + 1 + device.len() as int) =~= device);
    assert(t.subrange(a + 1 + device.len() as int, t.len() as int) =~= "/btmesh"@);
}

/// Distinct devices of one application get distinct command topics: no two
/// device names (for example two that differ only in case) share a topic.
pub proof fn lemma_command_topic_injective(application: Seq<char>, d1: Seq<char>, d2: Seq<char>)
    requires
        command_topic_text(application, d1) == command_topic_text(application, d2),
    ensures
        d1 == d2,
{
    lemma_command_topic_holds_names(application, d1);
    lemma_command_topic_holds_names(application, d2);
}

/// Ensuring an alias leaves it in the list.
pub proof fn lemma_alias_present(aliases: Seq<Seq<char>>, alias: Seq<char>)
    ensures
        with_alias(aliases, alias).contains(alias),
{
    if !aliases.contains(alias) {
        assert(aliases.push(alias)[aliases.len() as int] == alias);
    }
}

/// Ensuring an alias twice is the same as ensuring it once.
pub proof fn lemma_alias_idempotent(aliases: Seq<Seq<char>>, alias: Seq<char>)
    ensures
        with_alias(with_alias(aliases, alias), alias) == with_alias(aliases, alias),
{
    lemma_alias_present(aliases, alias);
}

/// Ensuring an alias keeps all aliases the device had, in their order, and
/// adds at most the one alias.
pub proof fn lemma_alias_keeps_existing(aliases: Seq<Seq<char>>, alias: Seq<char>)
    ensures
        with_alias(aliases, alias).subrange(0, aliases.len() as int) == aliases,
        with_alias(aliases, alias).len() <= aliases.len() + 1,
{
    assert(with_alias(aliases, alias).subrange(0, aliases.len() as int) =~= aliases);
}

/// Distinct unicast addresses have distinct aliases.
pub proof fn lemma_address_alias_injective(a: u16, b: u16)
    requires
        a != b,
    ensures
        address_alias_text(a) != address_alias_text(b),
{
    let (ta, tb) = (address_alias_text(a), address_alias_text(b));
    if ta == tb {
        assert(ta[0] == tb[0] && ta[1] == tb[1] && ta[2] == tb[2] && ta[3] == tb[3]);
        assert((a / 256) / 16 == (b / 256) / 16);
        assert((a / 256) % 16 == (b / 256) % 16);
        assert((a % 256) / 16 == (b % 256) / 16);
        assert((a % 256) % 16 == (b % 256) % 16);
        assert(a == b);
    }
}

} // verus!
