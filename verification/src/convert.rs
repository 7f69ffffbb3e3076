//! The converters between the cloud's JSON documents and mesh messages, and
//! the decisions of the device simulator.
use vstd::prelude::*;
use vstd::string::*;
use crate::external::{
    opt_text, pair_texts, parse_url, parsed_url, query_pairs, url_query_pairs,
};
use crate::firmware::{
    BatteryCharging, BatteryFlags, BatteryIndicator, BatteryPresence, BatteryStatus, OnOffSet,
};
use crate::gateway::FRONT_LOCATION;
use crate::sensor::{InsufficientBuffer, PARAMETERS_CAPACITY, Acceleration, RawMessage, SensorPayload};

verus! {

/// The error of a publisher that could not hand over a payload.
#[derive(Debug, Clone, PartialEq, Eq)]
pub struct PublishError {
    pub reason: String,
}

/// A channel to the cloud that takes JSON payloads.
pub trait Publisher {
    /// Hands the payload over for sending.
    fn send(&self, payload: String) -> Result<(), PublishError>;
}

/// The parameters with which the simulator starts, as given in the query of
/// its page address.
#[derive(Debug, Clone, PartialEq, Eq)]
pub struct InitParams {
    pub application: Option<String>,
    pub device: Option<String>,
    pub password: Option<String>,
    pub url: Option<String>,
}

/// The state of the simulated LED matrix.
#[derive(Debug, Clone, Copy, PartialEq, Eq, Structural)]
pub struct MatrixState {
    pub on: bool,
    pub brightness: u8,
}

/// How the simulator publishes.
#[derive(Debug, Clone, Copy, PartialEq, Eq, Structural)]
pub enum PublisherKind {
    /// MQTT over a WebSocket.
    Mqtt,
    /// HTTP requests.
    Http,
}

/// What the simulator starts with: where it publishes and how, as whom, and
/// how often (in seconds).
#[derive(Debug, Clone, PartialEq, Eq)]
pub struct StartSettings {
    pub endpoint: String,
    pub publisher: PublisherKind,
    pub username: String,
    pub password: String,
    pub interval_secs: u32,
}

/// The index of the first `:` at or after `i`, or the length of the text.
pub open spec fn colon_from(s: Seq<char>, i: int) -> int
    decreases s.len() - i,
{
    if i >= s.len() {
        s.len() as int
    } else if s[i] == ':' {
        i
    } else {
        colon_from(s, i + 1)
    }
}

/// The scheme of a URL's serialization: the text before its first `:`.
pub open spec fn scheme_of(s: Seq<char>) -> Seq<char> {
    s.subrange(0, colon_from(s, 0))
}

/// How the simulator publishes to an endpoint: MQTT for the `ws` and `wss`
/// schemes, HTTP otherwise.
pub open spec fn publisher_of(endpoint: Seq<char>) -> PublisherKind {
    if scheme_of(endpoint) == "ws"@ || scheme_of(endpoint) == "wss"@ {
        PublisherKind::Mqtt
    } else {
        PublisherKind::Http
    }
}

/// An on/off command for the element at a location.
#[derive(Debug, Clone, Copy, PartialEq, Eq, Structural)]
pub struct OnOffCommand {
    pub location: u16,
    pub set: OnOffSet,
}

/// What a display command asks of the simulated display.
#[derive(Debug, Clone, Copy, PartialEq, Eq, Structural)]
pub enum DisplaySetting {
    /// Switch it on (value 1) or off (any other value).
    OnOff(OnOffSet),
    /// Show it at this brightness.
    Level(u8),
}

/// A display command for the element at a location.
#[derive(Debug, Clone, Copy, PartialEq, Eq, Structural)]
pub struct DisplayCommand {
    pub location: u16,
    pub setting: DisplaySetting,
}

/// The value of a query parameter: the value of its last occurrence.
pub open spec fn last_value(pairs: Seq<(String, String)>, key: Seq<char>) -> Option<Seq<char>>
    decreases pairs.len(),
{
    if pairs.len() == 0 {
        None
    } else if pairs.last().0@ == key {
        Some(pairs.last().1@)
    } else {
        last_value(pairs.drop_last(), key)
    }
}

/// The value of a key among decoded text pairs: the value of its last
/// occurrence.
pub open spec fn last_text(pairs: Seq<(Seq<char>, Seq<char>)>, key: Seq<char>) -> Option<
    Seq<char>,
>
    decreases pairs.len(),
{
    if pairs.len() == 0 {
        None
    } else if pairs.last().0 == key {
        Some(pairs.last().1)
    } else {
        last_text(pairs.drop_last(), key)
    }
}

/// Whether all characters are ASCII decimal digits.
pub open spec fn all_digits(d: Seq<char>) -> bool {
    forall|i: int| 0 <= i < d.len() ==> '0' <= #[trigger] d[i] && d[i] <= '9'
}

/// The number written by decimal digits.
pub open spec fn digits_value(d: Seq<char>) -> int
    decreases d.len(),
{
    if d.len() == 0 {
        0
    } else {
        digits_value(d.drop_last()) * 10 + (d.last() as int - 48)
    }
}

/// The digits of a number as Rust reads it: the text without a leading `+`.
pub open spec fn unsigned_digits(s: Seq<char>) -> Seq<char> {
    if s.len() > 0 && s[0] == '+' {
        s.drop_first()
    } else {
        s
    }
}

/// The unsigned number that a text stands for, as Rust reads it: an optional
/// `+` and at least one decimal digit, with a value of at most `max`.
pub open spec fn parsed_decimal(s: Seq<char>, max: int) -> Option<int> {
    let d = unsigned_digits(s);
    if d.len() > 0 && all_digits(d) && digits_value(d) <= max {
        Some(digits_value(d))
    } else {
        None
    }
}

/// The `u16` that a text stands for, as Rust reads it.
pub open spec fn parsed_u16(s: Seq<char>) -> Option<u16> {
    match parsed_decimal(s, u16::MAX as int) {
        Some(v) => Some(v as u16),
        None => None,
    }
}

/// The `u32` that a text stands for, as Rust reads it.
pub open spec fn parsed_u32(s: Seq<char>) -> Option<u32> {
    match parsed_decimal(s, u32::MAX as int) {
        Some(v) => Some(v as u32),
        None => None,
    }
}

/// The decimal digits of a number, most significant first, without
/// leading zeros (`0` for zero).
pub open spec fn decimal_text(n: nat) -> Seq<char>
    decreases n,
{
    if n < 10 {
        seq![(48 + n) as char]
    } else {
        decimal_text(n / 10).push((48 + n % 10) as char)
    }
}

proof fn lemma_decimal_text_digits(n: nat)
    ensures
        decimal_text(n).len() > 0,
        all_digits(decimal_text(n)),
        digits_value(decimal_text(n)) == n,
        decimal_text(n)[0] != '+',
    decreases n,
{
    let t = decimal_text(n);
    if n < 10 {
        assert(((48 + n) as char) as int == 48 + n);
        assert(t.drop_last() =~= Seq::<char>::empty());
        assert(t.last() == (48 + n) as char);
        assert(digits_value(t) == digits_value(t.drop_last()) * 10 + (t.last() as int - 48));
    } else {
        lemma_decimal_text_digits(n / 10);
        let u = decimal_text(n / 10);
        let c = (48 + n % 10) as char;
        assert(c as int == 48 + n % 10);
        assert(t.drop_last() =~= u);
        assert(t.last() == c);
        assert(digits_value(t) == digits_value(u) * 10 + (c as int - 48));
        assert((n / 10) * 10 + n % 10 == n);
        assert forall|i: int| 0 <= i < t.len() implies '0' <= #[trigger] t[i] && t[i] <= '9' by {
            if i < u.len() {
                assert(t[i] == u[i]);
            }
        }
        assert(t[0] == u[0]);
    }
}

/// Reading numbers the way Rust does: the decimal digits of a number up to
/// the limit read as that number, also after a `+`; a number above the
/// limit, a text with a `-` in front, and the empty text are refused.
pub proof fn lemma_parse_decimal_text(n: nat, max: int)
    ensures
        n <= max ==> parsed_decimal(decimal_text(n), max) == Some(n as int),
        n <= max ==> parsed_decimal("+"@ + decimal_text(n), max) == Some(n as int),
        n > max ==> parsed_decimal(decimal_text(n), max) is None,
        parsed_decimal("-"@ + decimal_text(n), max) is None,
        parsed_decimal(Seq::empty(), max) is None,
{
    reveal_strlit("+");
    reveal_strlit("-");
    lemma_decimal_text_digits(n);
    let t = decimal_text(n);
    assert(("+"@ + t).drop_first() =~= t);
    let m = "-"@ + t;
    assert(m[0] == '-');
    assert(unsigned_digits(m) == m);
    assert(!('0' <= m[0] && m[0] <= '9'));
}

/// The init parameters read from the query pairs of the page address; a
/// parameter given more than once takes its last value.
pub fn init_params_from_query(pairs: &Vec<(String, String)>) -> (p: InitParams)
    ensures
        opt_text(p.application) == last_value(pairs@, "application"@),
        opt_text(p.device) == last_value(pairs@, "device"@),
        opt_text(p.password) == last_value(pairs@, "password"@),
        opt_text(p.url) == last_value(pairs@, "url"@),
{
    let application_key = String::from_str("application");
    let device_key = String::from_str("device");
    let password_key = String::from_str("password");
    let url_key = String::from_str("url");
    let mut p = InitParams { application: None, device: None, password: None, url: None };
    let mut i: usize = 0;
    while i < pairs.len()
        invariant
            i <= pairs@.len(),
            application_key@ == "application"@,
            device_key@ == "device"@,
            password_key@ == "password"@,
            url_key@ == "url"@,
            opt_text(p.application) == last_value(pairs@.subrange(0, i as int), "application"@),
            opt_text(p.device) == last_value(pairs@.subrange(0, i as int), "device"@),
            opt_text(p.password) == last_value(pairs@.subrange(0, i as int), "password"@),
            opt_text(p.url) == last_value(pairs@.subrange(0, i as int), "url"@),
        decreases pairs@.len() - i,
    {
        let ghost prefix = pairs@.subrange(0, i + 1);
        assert(prefix.drop_last() =~= pairs@.subrange(0, i as int));
        assert(prefix.last() == pairs@[i as int]);
        let (key, value) = &pairs[i];
        if *key == application_key {
            p.application = Some(value.clone());
        }
        if *key == device_key {
            p.device = Some(value.clone());
        }
        if *key == password_key {
            p.password = Some(value.clone());
        }
        if *key == url_key {
            p.url = Some(value.clone());
        }
        i = i + 1;
    }
    assert(pairs@.subrange(0, pairs@.len() as int) =~= pairs@);
    p
}

/// The last value of a key among text pairs is the last value of its key
/// among their views.
pub proof fn lemma_last_value_texts(pairs: Seq<(String, String)>, key: Seq<char>)
    ensures
        last_value(pairs, key) == last_text(pair_texts(pairs), key),
    decreases pairs.len(),
{
    if pairs.len() > 0 {
        assert(pair_texts(pairs.drop_last()) =~= pair_texts(pairs).drop_last());
        lemma_last_value_texts(pairs.drop_last(), key);
    }
}

impl InitParams {
    /// The init parameters of the simulator read from the address of its
    /// page: the last value of each parameter in the address's decoded
    /// query; none at all when there is no address or it is no URL.
    pub fn from_location(location: Option<&str>) -> (p: InitParams)
        ensures
            (match location {
                Some(l) => url_query_pairs(l@),
                None => None,
            }) matches Some(q) ==> opt_text(p.application) == last_text(q, "application"@)
                && opt_text(p.device) == last_text(q, "device"@) && opt_text(p.password)
                == last_text(q, "password"@) && opt_text(p.url) == last_text(q, "url"@),
            (match location {
                Some(l) => url_query_pairs(l@),
                None => None,
            }) is None ==> p.application is None && p.device is None && p.password is None
                && p.url is None,
    {
        let pairs = match location {
            Some(l) => query_pairs(l),
            None => None,
        };
        match pairs {
            Some(v) => {
                let p = init_params_from_query(&v);
                proof {
                    lemma_last_value_texts(v@, "application"@);
                    lemma_last_value_texts(v@, "device"@);
                    lemma_last_value_texts(v@, "password"@);
                    lemma_last_value_texts(v@, "url"@);
                }
                p
            },
            None => InitParams { application: None, device: None, password: None, url: None },
        }
    }
}

/// The state the simulator page starts in: stopped, with the LED matrix off
/// at full brightness, 22 degrees, and the connection fields as given in the
/// page address or their defaults.
#[derive(Debug, Clone, PartialEq, Eq)]
pub struct SimulatorSetup {
    pub running: bool,
    pub matrix: MatrixState,
    pub temperature: i8,
    pub url: String,
    pub application: String,
    pub device: String,
    pub password: String,
}

/// The endpoint the simulator connects to unless the page address names
/// another.
pub open spec fn default_url() -> Seq<char> {
    "wss://mqtt-endpoint-ws-browser-drogue-iot.apps.wonderful.iot-playground.org/mqtt"@
}

/// The application the simulator reports for unless the page address names
/// another.
pub open spec fn default_application() -> Seq<char> {
    "eclipsecon-hackathon"@
}

/// The state the simulator page starts in for the given init parameters:
/// stopped, matrix off at brightness 255, temperature 22; the URL and
/// application default as above, the device and password to empty text.
pub fn initial_setup(params: InitParams) -> (s: SimulatorSetup)
    ensures
        !s.running,
        s.matrix == (MatrixState { on: false, brightness: 255 }),
        s.temperature == 22,
        s.url@ == (match params.url {
            Some(u) => u@,
            None => default_url(),
        }),
        s.application@ == (match params.application {
            Some(a) => a@,
            None => default_application(),
        }),
        s.device@ == (match params.device {
            Some(d) => d@,
            None => Seq::<char>::empty(),
        }),
        s.password@ == (match params.password {
            Some(p) => p@,
            None => Seq::<char>::empty(),
        }),
{
    let url = match params.url {
        Some(u) => u,
        None => String::from_str(
            "wss://mqtt-endpoint-ws-browser-drogue-iot.apps.wonderful.iot-playground.org/mqtt",
        ),
    };
    let application = match params.application {
        Some(a) => a,
        None => String::from_str("eclipsecon-hackathon"),
    };
    let device = match params.device {
        Some(d) => d,
        None => String::new(),
    };
    let password = match params.password {
        Some(p) => p,
        None => String::new(),
    };
    SimulatorSetup {
        running: false,
        matrix: MatrixState { on: false, brightness: 255 },
        temperature: 22,
        url,
        application,
        device,
        password,
    }
}

/// The LED matrix after a command from the cloud: an on/off set message
/// switches it on exactly for the value 1, keeping the brightness; a level
/// shows it at that brightness; other messages leave it as it was.
pub fn matrix_after_command(state: MatrixState, setting: Option<DisplaySetting>) -> (m:
    MatrixState)
    ensures
        setting matches Some(DisplaySetting::OnOff(s)) ==> m == (MatrixState {
            on: s.on_off == 1,
            brightness: state.brightness,
        }),
        setting matches Some(DisplaySetting::Level(l)) ==> m == (MatrixState {
            on: true,
            brightness: l,
        }),
        setting is None ==> m == state,
{
    match setting {
        Some(DisplaySetting::OnOff(s)) => MatrixState { on: s.on_off == 1, brightness: state.brightness },
        Some(DisplaySetting::Level(l)) => MatrixState { on: true, brightness: l },
        None => state,
    }
}

/// The interval (in milliseconds) at which the simulator publishes, for an
/// interval given in seconds: spread by up to two seconds with a random value.
pub fn send_interval(interval_secs: u32, random: u32) -> (ms: u32)
    requires
        interval_secs * 1000 + random % 2000 <= u32::MAX,
    ensures
        ms == random % 2000 + interval_secs * 1000,
{
    let start: u32 = random % 2000;
    start + interval_secs * 1000
}

/// The sensor payload that the simulator publishes for a temperature.
pub fn simulated_payload(temperature: i8) -> (p: SensorPayload)
    ensures
        p == (SensorPayload {
            temperature,
            acceleration: Acceleration { x: 0, y: 0, z: 0 },
            noise: 0,
        }),
{
    SensorPayload { temperature, acceleration: Acceleration::default(), noise: 0 }
}

/// The battery status that the simulator publishes: no battery present and
/// none to charge.
pub fn simulated_battery() -> (s: BatteryStatus)
    ensures
        s == (BatteryStatus {
            battery_level: 0,
            time_to_discharge: 0,
            time_to_charge: 0,
            flags: BatteryFlags {
                presence: BatteryPresence::NotPresent,
                indicator: BatteryIndicator::Unknown,
                charging: BatteryCharging::NotChargeable,
            },
        }),
{
    BatteryStatus {
        battery_level: 0,
        time_to_discharge: 0,
        time_to_charge: 0,
        flags: BatteryFlags {
            presence: BatteryPresence::NotPresent,
            indicator: BatteryIndicator::Unknown,
            charging: BatteryCharging::NotChargeable,
        },
    }
}

/// Capacity of the buffer an opcode is written into.
pub const OPCODE_CAPACITY: usize = 16;

/// The message that a publisher sends for an encoded mesh message: no
/// address, location 0, and the opcode and parameter bytes. A message whose
/// opcode does not fit in 16 bytes or whose parameters do not fit in 386 is
/// refused.
pub fn publisher_message(opcode: Vec<u8>, parameters: Vec<u8>) -> (m: Result<
    RawMessage,
    InsufficientBuffer,
>)
    ensures
        opcode@.len() <= OPCODE_CAPACITY && parameters@.len() <= PARAMETERS_CAPACITY ==> (m matches Ok(
            r,
        ) && r.address is None && r.location == 0 && r.opcode@ == opcode@ && r.parameters@
            == parameters@),
        !(opcode@.len() <= OPCODE_CAPACITY && parameters@.len() <= PARAMETERS_CAPACITY) ==> m
            == Err::<RawMessage, InsufficientBuffer>(InsufficientBuffer),
{
    if opcode.len() > OPCODE_CAPACITY || parameters.len() > PARAMETERS_CAPACITY {
        return Err(InsufficientBuffer);
    }
    Ok(RawMessage { address: None, location: 0, opcode, parameters })
}

/// A message from an element, as read from the mesh.
#[derive(Debug, Clone, Copy, PartialEq, Eq, Structural)]
pub enum ElementReading {
    /// A generic on/off set from a button.
    OnOff { on_off: u8 },
    /// A sensor status.
    Sensor(SensorPayload),
    /// A generic battery status.
    Battery { level: u8, presence: BatteryPresence },
}

/// The state of an element as the cloud's document shows it.
#[derive(Debug, Clone, PartialEq, Eq)]
pub enum TelemetryState {
    /// `button`: whether it is pressed.
    Button { on: bool, location: u16 },
    /// `sensor`: the readings, under `payload`.
    Sensor { location: u16, payload: SensorPayload },
    /// `battery`: its level and the name of its presence flag.
    Battery { level: u8, presence: String, location: u16 },
}

/// A telemetry document for the cloud: a partial update of one element's
/// state.
#[derive(Debug, Clone, PartialEq, Eq)]
pub struct TelemetryDocument {
    pub partial: bool,
    pub state: TelemetryState,
}

/// The name of a battery presence flag.
pub open spec fn presence_text(p: BatteryPresence) -> Seq<char> {
    match p {
        BatteryPresence::NotPresent => "NotPresent"@,
        BatteryPresence::PresentRemovable => "PresentRemovable"@,
        BatteryPresence::PresentNotRemovable => "PresentNotRemovable"@,
        BatteryPresence::Unknown => "Unknown"@,
    }
}

/// The telemetry document for a message from the element at `location`: a
/// partial update whose state sits under the kind of the message (button,
/// sensor or battery) with the element's location beside its values; a
/// button is pressed exactly for the value 1.
pub fn telemetry_document(location: u16, reading: ElementReading) -> (d: TelemetryDocument)
    ensures
        d.partial,
        reading matches ElementReading::OnOff { on_off } ==> d.state == (TelemetryState::Button {
            on: on_off == 1,
            location,
        }),
        reading matches ElementReading::Sensor(p) ==> d.state == (TelemetryState::Sensor {
            location,
            payload: p,
        }),
        reading matches ElementReading::Battery { level, presence } ==> (d.state matches TelemetryState::Battery {
            level: l,
            presence: name,
            location: loc,
        } && l == level && name@ == presence_text(presence) && loc == location),
{
    let state = match reading {
        ElementReading::OnOff { on_off } => TelemetryState::Button { on: button_on(on_off), location },
        ElementReading::Sensor(p) => TelemetryState::Sensor { location, payload: p },
        ElementReading::Battery { level, presence } => TelemetryState::Battery {
            level,
            presence: String::from_str(presence_name(presence)),
            location,
        },
    };
    TelemetryDocument { partial: true, state }
}

/// The name under which the converter reports a battery presence.
pub fn presence_name(p: BatteryPresence) -> (name: &'static str)
    ensures
        p == BatteryPresence::NotPresent ==> name@ == "NotPresent"@,
        p == BatteryPresence::PresentRemovable ==> name@ == "PresentRemovable"@,
        p == BatteryPresence::PresentNotRemovable ==> name@ == "PresentNotRemovable"@,
        p == BatteryPresence::Unknown ==> name@ == "Unknown"@,
        name@ == presence_text(p),
{
    match p {
        BatteryPresence::NotPresent => "NotPresent",
        BatteryPresence::PresentRemovable => "PresentRemovable",
        BatteryPresence::PresentNotRemovable => "PresentNotRemovable",
        BatteryPresence::Unknown => "Unknown",
    }
}

/// Reads an unsigned number of at most `max` the way Rust does: an optional
/// `+` and at least one decimal digit.
pub fn parse_decimal(s: &str, max: u64) -> (v: Option<u64>)
    requires
        max <= u32::MAX,
    ensures
        v matches Some(x) ==> parsed_decimal(s@, max as int) == Some(x as int),
        v is None ==> parsed_decimal(s@, max as int) is None,
{
    let n = s.unicode_len();
    let start: usize = if n > 0 && s.get_char(0) == '+' {
        1
    } else {
        0
    };
    let ghost d = s@.subrange(start as int, n as int);
    assert(d =~= unsigned_digits(s@));
    if start >= n {
        return None;
    }
    let cap: u64 = max + 1;
    let mut value: u64 = 0;
    let mut i: usize = start;
    while i < n
        invariant
            n == s@.len(),
            start <= i <= n,
            cap == max + 1,
            max <= u32::MAX,
            d == s@.subrange(start as int, n as int),
            d == unsigned_digits(s@),
            all_digits(s@.subrange(start as int, i as int)),
            value as int == if digits_value(s@.subrange(start as int, i as int)) < cap {
                digits_value(s@.subrange(start as int, i as int))
            } else {
                cap as int
            },
        decreases n - i,
    {
        let c = s.get_char(i);
        let ghost prefix = s@.subrange(start as int, i + 1);
        assert(prefix.drop_last() =~= s@.subrange(start as int, i as int));
        if c < '0' || c > '9' {
            assert(!all_digits(d)) by {
                assert(d[i - start] == c);
            }
            return None;
        }
        let digit: u64 = (c as u32 - 48) as u64;
        let next: u64 = value * 10 + digit;
        value = if next < cap {
            next
        } else {
            cap
        };
        assert(all_digits(prefix)) by {
            assert forall|k: int| 0 <= k < prefix.len() implies '0' <= #[trigger] prefix[k]
                && prefix[k] <= '9' by {
                if k < prefix.len() - 1 {
                    assert(prefix[k] == s@.subrange(start as int, i as int)[k]);
                }
            }
        }
        i = i + 1;
    }
    if value < cap {
        Some(value)
    } else {
        None
    }
}

/// Reads a `u16` the way Rust does.
pub fn parse_u16(s: &str) -> (v: Option<u16>)
    ensures
        v == parsed_u16(s@),
{
    match parse_decimal(s, 65535) {
        Some(x) => Some(x as u16),
        None => None,
    }
}

/// Reads a `u32` the way Rust does.
pub fn parse_u32(s: &str) -> (v: Option<u32>)
    ensures
        v == parsed_u32(s@),
{
    match parse_decimal(s, 4294967295) {
        Some(x) => Some(x as u32),
        None => None,
    }
}

/// The on/off command that the converter makes of a button state reported
/// for a location: on when the state says so, off otherwise.
pub fn button_command(location: &str, on: Option<bool>) -> (c: OnOffCommand)
    requires
        parsed_u16(location@) is Some,
    ensures
        c.location == parsed_u16(location@).unwrap(),
        c.set == (OnOffSet {
            on_off: if on == Some(true) {
                1u8
            } else {
                0u8
            },
            tid: 0,
        }),
{
    let l = match parse_u16(location) {
        Some(l) => l,
        None => 0,
    };
    let on_off: u8 = match on {
        Some(true) => 1,
        _ => 0,
    };
    OnOffCommand { location: l, set: OnOffSet { on_off, tid: 0 } }
}

/// The on/off command that a speaker command from the cloud becomes: for
/// the front element, whose on/off server drives the speaker, switching it
/// on exactly when the command says so.
pub fn speaker_command(on: Option<bool>) -> (c: OnOffCommand)
    ensures
        c.location == FRONT_LOCATION,
        c.set == (OnOffSet {
            on_off: if on == Some(true) {
                1u8
            } else {
                0u8
            },
            tid: 0,
        }),
{
    let on_off: u8 = match on {
        Some(true) => 1,
        _ => 0,
    };
    OnOffCommand { location: FRONT_LOCATION, set: OnOffSet { on_off, tid: 0 } }
}

/// The command that the simulator makes of a display state: for the
/// location kept to 16 bits (0 when absent), an on/off set when the state
/// says whether the display is on, otherwise the brightness level it gives
/// (held to a byte), and an off set when it gives neither.
pub fn display_command(location: Option<u64>, on: Option<bool>, level: Option<u64>) -> (c:
    DisplayCommand)
    ensures
        c.location == (match location {
            Some(l) => l % 65536,
            None => 0,
        }),
        on matches Some(b) ==> c.setting == DisplaySetting::OnOff(
            OnOffSet {
                on_off: if b {
                    1u8
                } else {
                    0u8
                },
                tid: 0,
            },
        ),
        on is None ==> c.setting == match level {
            Some(l) => DisplaySetting::Level(
                if l > 255 {
                    255u8
                } else {
                    l as u8
                },
            ),
            None => DisplaySetting::OnOff(OnOffSet { on_off: 0, tid: 0 }),
        },
{
    let l: u16 = match location {
        Some(l) => (l % 65536) as u16,
        None => 0,
    };
    let setting = match on {
        Some(b) => DisplaySetting::OnOff(
            OnOffSet {
                on_off: if b {
                    1
                } else {
                    0
                },
                tid: 0,
            },
        ),
        None => match level {
            Some(v) => DisplaySetting::Level(
                if v > 255 {
                    255
                } else {
                    v as u8
                },
            ),
            None => DisplaySetting::OnOff(OnOffSet { on_off: 0, tid: 0 }),
        },
    };
    DisplayCommand { location: l, setting }
}

/// How many of the connection fields of the simulator are empty.
pub fn missing_fields(url: &str, application: &str, device: &str, password: &str) -> (n: u8)
    ensures
        n == (if url@.len() == 0 {
            1int
        } else {
            0int
        }) + (if application@.len() == 0 {
            1int
        } else {
            0int
        }) + (if device@.len() == 0 {
            1int
        } else {
            0int
        }) + (if password@.len() == 0 {
            1int
        } else {
            0int
        }),
{
    let mut n: u8 = 0;
    if url.is_empty() {
        n = n + 1;
    }
    if application.is_empty() {
        n = n + 1;
    }
    if device.is_empty() {
        n = n + 1;
    }
    if password.is_empty() {
        n = n + 1;
    }
    n
}

/// Whether a connection field of the simulator is marked as wanting input:
/// exactly when it is empty.
pub fn field_flagged(value: &str) -> (flagged: bool)
    ensures
        flagged == (value@.len() == 0),
{
    value.is_empty()
}

/// Whether the simulator may be stopped: exactly while it runs.
pub fn stop_enabled(running: bool) -> (b: bool)
    ensures
        b == running,
{
    running
}

/// Whether the simulator may be started: not while it runs, and only with
/// all connection fields filled in.
pub fn start_enabled(running: bool, missing: u8) -> (b: bool)
    ensures
        b == (!running && missing == 0),
{
    !running && missing == 0
}

/// Whether all connection fields and the interval are filled in.
pub open spec fn all_filled(
    url: &str,
    application: &str,
    device: &str,
    password: &str,
    interval: Option<&str>,
) -> bool {
    &&& url@.len() > 0
    &&& application@.len() > 0
    &&& device@.len() > 0
    &&& password@.len() > 0
    &&& interval is Some
    &&& interval.unwrap()@.len() > 0
}

/// How the simulator publishes to the endpoint with the given serialization:
/// MQTT over a WebSocket for the `ws` and `wss` schemes, HTTP otherwise.
pub fn publisher_kind(endpoint: &str) -> (k: PublisherKind)
    ensures
        k == publisher_of(endpoint@),
{
    let n = endpoint.unicode_len();
    let ghost s = endpoint@;
    let mut i: usize = 0;
    while i < n && endpoint.get_char(i) != ':'
        invariant
            s == endpoint@,
            n == s.len(),
            i <= n,
            colon_from(s, 0) == colon_from(s, i as int),
        decreases n - i,
    {
        i = i + 1;
    }
    assert(colon_from(s, i as int) == i as int);
    proof {
        reveal_strlit("ws");
        reveal_strlit("wss");
    }
    let ws = i >= 2 && i <= 3 && endpoint.get_char(0) == 'w' && endpoint.get_char(1) == 's' && (i
        == 2 || endpoint.get_char(2) == 's');
    proof {
        let sc = scheme_of(s);
        assert(sc.len() == i);
        if ws {
            if i == 2 {
                assert(sc =~= "ws"@);
            } else {
                assert(sc =~= "wss"@);
            }
        } else {
            if sc == "ws"@ {
                assert(sc[0] == 'w' && sc[1] == 's');
            }
            if sc == "wss"@ {
                assert(sc[0] == 'w' && sc[1] == 's' && sc[2] == 's');
            }
        }
    }
    if ws {
        PublisherKind::Mqtt
    } else {
        PublisherKind::Http
    }
}

/// The simulator starts only with every connection field filled in: an
/// empty URL, application, device or password, or a missing or empty
/// interval, is not a complete set of fields; with all of them non-empty it
/// is.
pub proof fn lemma_every_field_required(
    url: &str,
    application: &str,
    device: &str,
    password: &str,
    interval: Option<&str>,
)
    ensures
        url@.len() == 0 ==> !all_filled(url, application, device, password, interval),
        application@.len() == 0 ==> !all_filled(url, application, device, password, interval),
        device@.len() == 0 ==> !all_filled(url, application, device, password, interval),
        password@.len() == 0 ==> !all_filled(url, application, device, password, interval),
        interval is None ==> !all_filled(url, application, device, password, interval),
        interval is Some && interval.unwrap()@.len() == 0 ==> !all_filled(
            url,
            application,
            device,
            password,
            interval,
        ),
        url@.len() > 0 && application@.len() > 0 && device@.len() > 0 && password@.len() > 0
            && interval is Some && interval.unwrap()@.len() > 0 ==> all_filled(
            url,
            application,
            device,
            password,
            interval,
        ),
{
}

/// The address the simulator publishes to for a base URL: the URL that
/// `<url>/v1/sensor` parses to, if it parses.
pub open spec fn endpoint_of(url: Seq<char>) -> Option<Seq<char>> {
    parsed_url(url + "/v1/sensor"@)
}

/// The settings the simulator starts with, when all fields are filled in:
/// it publishes to the URL that `<url>/v1/sensor` parses to, as
/// `<device>@<application>`, every `interval` seconds.
pub fn start_settings(
    url: &str,
    application: &str,
    device: &str,
    password: &str,
    interval: Option<&str>,
) -> (r: Option<StartSettings>)
    requires
        all_filled(url, application, device, password, interval) ==> endpoint_of(url@) is Some
            && parsed_u32(interval.unwrap()@) is Some,
    ensures
        all_filled(url, application, device, password, interval) ==> (r matches Some(st)
            && st.endpoint@ == endpoint_of(url@).unwrap() && st.publisher == publisher_of(
            endpoint_of(url@).unwrap(),
        ) && st.username@ == device@ + "@"@
            + application@ && st.password@ == password@ && st.interval_secs == parsed_u32(
            interval.unwrap()@,
        ).unwrap()),
        !all_filled(url, application, device, password, interval) ==> r is None,
        url@.len() == 0 || application@.len() == 0 || device@.len() == 0 || password@.len() == 0
            || interval is None || interval.unwrap()@.len() == 0 ==> r is None,
{
    let i = match interval {
        Some(i) => i,
        None => {
            return None;
        },
    };
    if url.is_empty() || application.is_empty() || device.is_empty() || password.is_empty()
        || i.is_empty() {
        return None;
    }
    let mut address = String::from_str(url);
    address.append("/v1/sensor");
    let endpoint = match parse_url(address.as_str()) {
        Some(e) => e,
        None => String::new(),
    };
    let secs = match parse_u32(i) {
        Some(v) => v,
        None => 0,
    };
    let mut username = String::from_str(device);
    username.append("@");
    username.append(application);
    Some(
        StartSettings {
            publisher: publisher_kind(endpoint.as_str()),
            endpoint,
            username,
            password: String::from_str(password),
            interval_secs: secs,
        },
    )
}

/// The settings the simulator starts with, checked first: `None` when a
/// field is empty, when `<url>/v1/sensor` is no URL, or when the interval is
/// no `u32`; otherwise what `start_settings` gives.
pub fn checked_start_settings(
    url: &str,
    application: &str,
    device: &str,
    password: &str,
    interval: Option<&str>,
) -> (r: Option<StartSettings>)
    ensures
        all_filled(url, application, device, password, interval) && endpoint_of(url@) is Some
            && parsed_u32(interval.unwrap()@) is Some ==> (r matches Some(st) && st.endpoint@
            == endpoint_of(url@).unwrap() && st.publisher == publisher_of(
            endpoint_of(url@).unwrap(),
        ) && st.username@ == device@ + "@"@ + application@ && st.password@ == password@
            && st.interval_secs == parsed_u32(interval.unwrap()@).unwrap()),
        !(all_filled(url, application, device, password, interval) && endpoint_of(url@) is Some
            && parsed_u32(interval.unwrap()@) is Some) ==> r is None,
        url@.len() == 0 || application@.len() == 0 || device@.len() == 0 || password@.len() == 0
            || interval is None || interval.unwrap()@.len() == 0 ==> r is None,
{
    let i = match interval {
        Some(i) => i,
        None => {
            return None;
        },
    };
    if url.is_empty() || application.is_empty() || device.is_empty() || password.is_empty()
        || i.is_empty() {
        return None;
    }
    let mut address = String::from_str(url);
    address.append("/v1/sensor");
    if parse_url(address.as_str()).is_none() || parse_u32(i).is_none() {
        return None;
    }
    start_settings(url, application, device, password, interval)
}

/// Whether a button reports itself pressed in an on/off set message: only
/// for the value 1.
pub fn button_on(on_off: u8) -> (on: bool)
    ensures
        on == (on_off == 1),
{
    on_off == 1
}

} // verus!
