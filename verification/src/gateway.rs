//! The gateway between the mesh and the cloud: how it forwards messages from
//! the mesh and routes commands into it.
use vstd::prelude::*;
use vstd::string::*;
use crate::sensor::RawMessage;
use crate::text::{hex2, push_hex2};

verus! {

/// The settings of the gateway: the token of its node in the mesh network.
#[derive(Debug, Clone, PartialEq, Eq)]
pub struct Config {
    token: String,
}

impl Config {
    /// The node token, as text.
    pub closed spec fn token_text(&self) -> Seq<char> {
        self.token@
    }
    /// The settings with the given node token.
    pub fn new(token: String) -> (c: Config)
        ensures
            c.token_text() == token@,
    {
        Config { token }
    }

    /// The node token.
    pub fn token(&self) -> (t: &str)
        ensures
            t@ == self.token_text(),
    {
        self.token.as_str()
    }
}

/// Location of the front element of a node.
pub const FRONT_LOCATION: u16 = 0x0100;

/// Location of the left element (button A) of a node.
pub const LEFT_LOCATION: u16 = 0x010D;

/// Location of the right element (button B) of a node.
pub const RIGHT_LOCATION: u16 = 0x010E;

/// The elements of the gateway's own node.
#[derive(Debug, Clone, Copy, PartialEq, Eq, Structural)]
pub enum GatewayElement {
    Front,
    Left,
    Right,
}

/// What attaching to the mesh network does next.
#[derive(Debug, Clone, Copy, PartialEq, Eq, Structural)]
pub enum AttachStep {
    /// Attached.
    Done,
    /// No retries left: give up with the error.
    GiveUp,
    /// Wait, then try again with this many retries left.
    Retry { retries: usize },
}

/// The topic on which the gateway forwards a message from the node with the
/// given source address bytes: `sensor/` and the two bytes in hexadecimal.
pub open spec fn sensor_topic_text(src: Seq<u8>) -> Seq<char> {
    "sensor/"@ + hex2(src[0]) + hex2(src[1])
}

/// The index of the last `/` before position `end`, or -1.
pub open spec fn last_slash(s: Seq<char>, end: int) -> int
    decreases end,
{
    if end <= 0 {
        -1
    } else if s[end - 1] == '/' {
        end - 1
    } else {
        last_slash(s, end - 1)
    }
}

/// The device a command topic addresses: a topic whose last `/`-separated
/// segment is `sensor` addresses the device named by the segment before it.
pub open spec fn command_device_text(topic: Seq<char>) -> Option<Seq<char>> {
    let j = last_slash(topic, topic.len() as int);
    if j >= 0 && topic.subrange(j + 1, topic.len() as int) == "sensor"@ {
        let k = last_slash(topic, j);
        Some(topic.subrange(k + 1, j))
    } else {
        None
    }
}

/// The element that a command for the given location goes through; unknown
/// locations go to the front element.
pub open spec fn element_of(location: u16) -> GatewayElement {
    if location == LEFT_LOCATION {
        GatewayElement::Left
    } else if location == RIGHT_LOCATION {
        GatewayElement::Right
    } else {
        GatewayElement::Front
    }
}

/// The topic on which a message from the node with the given source address
/// bytes is forwarded to the cloud.
pub fn sensor_topic(src: [u8; 2]) -> (t: String)
    ensures
        t@ == sensor_topic_text(src@),
{
    let mut t = String::from_str("sensor/");
    push_hex2(&mut t, src[0]);
    push_hex2(&mut t, src[1]);
    t
}

/// The message forwarded to the cloud for a message received from the mesh:
/// the source address read from its bytes in little-endian order, with the
/// element location, opcode and parameters.
pub fn forwarded_message(src: [u8; 2], location: u16, opcode: Vec<u8>, parameters: Vec<u8>) -> (m:
    RawMessage)
    ensures
        m.address == Some((src@[0] + 256 * src@[1]) as u16),
        m.location == location,
        m.opcode@ == opcode@,
        m.parameters@ == parameters@,
{
    RawMessage {
        address: Some(src[0] as u16 + 256 * src[1] as u16),
        location,
        opcode,
        parameters,
    }
}

/// The device a command topic addresses, if its last segment is `sensor`.
pub fn command_device(topic: &str) -> (d: Option<String>)
    ensures
        command_device_text(topic@) matches Some(t) ==> (d matches Some(s) && s@ == t),
        command_device_text(topic@) is None ==> d is None,
{
    let n = topic.unicode_len();
    let ghost s = topic@;
    // Find the last '/'.
    let mut j: usize = n;
    while j > 0 && topic.get_char(j - 1) != '/'
        invariant
            s == topic@,
            n == s.len(),
            j <= n,
            last_slash(s, n as int) == last_slash(s, j as int),
        decreases j,
    {
        j = j - 1;
    }
    if j == 0 {
        return None;
    }
    let slash = j - 1;
    assert(last_slash(s, n as int) == slash as int);
    let last = topic.substring_char(j, n);
    let sensor = "sensor";
    proof {
        reveal_strlit("sensor");
    }
    let mut same = last.unicode_len() == 6;
    let mut i: usize = 0;
    while same && i < 6
        invariant
            0 < j <= n,
            n == s.len(),
            last@ == s.subrange(j as int, n as int),
            sensor@ == "sensor"@,
            sensor@.len() == 6,
            i <= 6,
            same ==> last@.len() == 6 && last@.subrange(0, i as int) == sensor@.subrange(
                0,
                i as int,
            ),
            !same ==> last@ != sensor@,
        decreases 6 - i,
    {
        if last.get_char(i) != sensor.get_char(i) {
            same = false;
        } else {
            assert(last@.subrange(0, i + 1) =~= last@.subrange(0, i as int).push(last@[i as int]));
            assert(sensor@.subrange(0, i + 1) =~= sensor@.subrange(0, i as int).push(
                sensor@[i as int],
            ));
        }
        i = i + 1;
    }
    if same {
        assert(last@ =~= last@.subrange(0, 6));
        assert(sensor@ =~= sensor@.subrange(0, 6));
    }
    if !same {
        return None;
    }
    // Find the '/' before it.
    let mut k: usize = slash;
    while k > 0 && topic.get_char(k - 1) != '/'
        invariant
            s == topic@,
            n == s.len(),
            k <= slash,
            slash < n,
            last_slash(s, slash as int) == last_slash(s, k as int),
        decreases k,
    {
        k = k - 1;
    }
    let device = topic.substring_char(k, slash);
    Some(String::from_str(device))
}

/// The element through which a command for the given location is sent.
pub fn element_for_location(location: u16) -> (e: GatewayElement)
    ensures
        e == element_of(location),
{
    if location == FRONT_LOCATION {
        GatewayElement::Front
    } else if location == LEFT_LOCATION {
        GatewayElement::Left
    } else if location == RIGHT_LOCATION {
        GatewayElement::Right
    } else {
        GatewayElement::Front
    }
}

/// Where a command for the mesh goes: to the address it names, through the
/// element of its location; a command without an address is not sent.
pub fn command_destination(message: &RawMessage) -> (d: Option<(u16, GatewayElement)>)
    ensures
        message.address matches Some(a) ==> d == Some((a, element_of(message.location))),
        message.address is None ==> d is None,
{
    match message.address {
        Some(a) => Some((a, element_for_location(message.location))),
        None => None,
    }
}

/// The next step of attaching to the network, with `retries` retries left:
/// done when attached, otherwise retry with one fewer, or give up when none
/// are left.
pub fn attach_step(retries: usize, attached: bool) -> (s: AttachStep)
    ensures
        attached ==> s == AttachStep::Done,
        !attached && retries == 0 ==> s == AttachStep::GiveUp,
        !attached && retries > 0 ==> s == (AttachStep::Retry { retries: (retries - 1) as usize }),
{
    if attached {
        AttachStep::Done
    } else if retries == 0 {
        AttachStep::GiveUp
    } else {
        AttachStep::Retry { retries: retries - 1 }
    }
}

// ---------------------------------------------------------------------------
// Laws
// ---------------------------------------------------------------------------

/// No `/` between `a` and `end` leaves the last `/` before `end` the one
/// before `a`.
proof fn lemma_last_slash_skip(s: Seq<char>, a: int, end: int)
    requires
        0 <= a <= end <= s.len(),
        forall|i: int| a <= i < end ==> s[i] != '/',
    ensures
        last_slash(s, end) == last_slash(s, a),
    decreases end - a,
{
    if end > a {
        lemma_last_slash_skip(s, a, end - 1);
    }
}

/// A command topic built as `<prefix>/<device>/sensor`, for a device name
/// without `/`, addresses exactly that device.
pub proof fn lemma_command_topic_device(prefix: Seq<char>, device: Seq<char>)
    requires
        forall|i: int| 0 <= i < device.len() ==> device[i] != '/',
    ensures
        command_device_text(prefix + "/"@ + device + "/sensor"@) == Some(device),
{
    reveal_strlit("/");
    reveal_strlit("/sensor");
    reveal_strlit("sensor");
    let t = prefix + "/"@ + device + "/sensor"@;
    let n = t.len() as int;
    let j = n - 7;
    let p = prefix.len() as int;
    assert(t[j] == '/');
    assert forall|i: int| j + 1 <= i < n implies t[i] != '/' by {
        assert(t[i] == "/sensor"@[i - j]);
    }
    lemma_last_slash_skip(t, j + 1, n);
    assert(last_slash(t, j + 1) == j);
    assert(t.subrange(j + 1, n) =~= "sensor"@);
    assert(t[p] == '/');
    assert forall|i: int| p + 1 <= i < j implies t[i] != '/' by {
        assert(t[i] == device[i - p - 1]);
    }
    lemma_last_slash_skip(t, p + 1, j);
    assert(last_slash(t, p + 1) == p);
    assert(t.subrange(p + 1, j) =~= device);
}

} // verus!
