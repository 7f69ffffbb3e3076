//! The decisions of the micro:bit firmware's mesh models: the display, the
//! speaker, the blinker, the buttons, the battery and sensor servers, and the
//! readings they publish.
use vstd::prelude::*;
use crate::sensor::{Acceleration, SensorPayload};

verus! {

/// A command to the blinker task.
#[derive(Debug, Clone, Copy, PartialEq, Eq, Structural)]
pub enum BlinkCommand {
    Start,
    Stop,
}

/// The parameters of a generic on/off set message (without transition time
/// and delay).
#[derive(Debug, Clone, Copy, PartialEq, Eq, Structural)]
pub struct OnOffSet {
    pub on_off: u8,
    pub tid: u8,
}

/// How often a model publishes, as configured by the network.
#[derive(Debug, Clone, Copy, PartialEq, Eq, Structural)]
pub enum PublicationCadence {
    /// Publish every `millis` milliseconds.
    Periodic { millis: u64 },
    /// Publish when the value changes.
    OnChange,
    /// Do not publish.
    Disabled,
}

/// Presence of a battery.
#[derive(Debug, Clone, Copy, PartialEq, Eq, Structural)]
pub enum BatteryPresence {
    NotPresent,
    PresentRemovable,
    PresentNotRemovable,
    Unknown,
}

/// Charge level indication of a battery.
#[derive(Debug, Clone, Copy, PartialEq, Eq, Structural)]
pub enum BatteryIndicator {
    LowCritical,
    Low,
    Good,
    Unknown,
}

/// Charging state of a battery.
#[derive(Debug, Clone, Copy, PartialEq, Eq, Structural)]
pub enum BatteryCharging {
    NotChargeable,
    ChargeableNotCharging,
    ChargeableCharging,
    Unknown,
}

/// The flags of a battery status.
#[derive(Debug, Clone, Copy, PartialEq, Eq, Structural)]
pub struct BatteryFlags {
    pub presence: BatteryPresence,
    pub indicator: BatteryIndicator,
    pub charging: BatteryCharging,
}

/// A generic battery status.
#[derive(Debug, Clone, Copy, PartialEq, Eq, Structural)]
pub struct BatteryStatus {
    pub battery_level: u8,
    pub time_to_discharge: u32,
    pub time_to_charge: u32,
    pub flags: BatteryFlags,
}

/// What reaches a battery or sensor server from the mesh.
#[derive(Debug, Clone, Copy, PartialEq, Eq, Structural)]
pub enum ModelInput {
    /// A request for the current status.
    Get,
    /// A status message.
    Status,
    /// A new publication cadence.
    Cadence(PublicationCadence),
    /// Any other control message.
    OtherControl,
}

/// What a battery or sensor server does in answer.
#[derive(Debug, Clone, Copy, PartialEq, Eq, Structural)]
pub enum ModelAction {
    /// Reply to the sender with the battery status.
    ReplyBattery(BatteryStatus),
    /// Publish periodically with this period, or stop (when `None`).
    SetTicker(Option<u64>),
    /// Nothing to do.
    Ignore,
}

/// The period at which a model publishes under a cadence, if any.
pub open spec fn cadence_period(c: PublicationCadence) -> Option<u64> {
    match c {
        PublicationCadence::Periodic { millis } => Some(millis),
        _ => None,
    }
}

/// The battery status that the firmware reports: all values zero and every
/// flag unknown, since the board cannot measure its supply.
pub open spec fn unknown_battery() -> BatteryStatus {
    BatteryStatus {
        battery_level: 0,
        time_to_discharge: 0,
        time_to_charge: 0,
        flags: BatteryFlags {
            presence: BatteryPresence::Unknown,
            indicator: BatteryIndicator::Unknown,
            charging: BatteryCharging::Unknown,
        },
    }
}

/// Rust's division by 10 of an integer, rounding towards zero.
pub open spec fn div10(v: int) -> int {
    if v >= 0 {
        v / 10
    } else {
        -((-v) / 10)
    }
}

/// The largest value of a non-empty sequence.
pub open spec fn max_of(s: Seq<i16>) -> int
    decreases s.len(),
{
    if s.len() <= 1 {
        s[0] as int
    } else {
        let m = max_of(s.drop_last());
        if s.last() > m {
            s.last() as int
        } else {
            m
        }
    }
}

/// The smallest value of a non-empty sequence.
pub open spec fn min_of(s: Seq<i16>) -> int
    decreases s.len(),
{
    if s.len() <= 1 {
        s[0] as int
    } else {
        let m = min_of(s.drop_last());
        if s.last() < m {
            s.last() as int
        } else {
            m
        }
    }
}

/// The brightness that a generic level sets on the display: none (display
/// off) for a level of 0 or below, the level up to 255, and 255 above.
pub open spec fn level_brightness(level: i16) -> Option<u8> {
    if level <= 0 {
        None
    } else if level > 255 {
        Some(255u8)
    } else {
        Some(level as u8)
    }
}

/// Whether the blinker runs after a command.
pub fn blink_enabled(command: BlinkCommand) -> (on: bool)
    ensures
        on == (command == BlinkCommand::Start),
{
    match command {
        BlinkCommand::Start => true,
        BlinkCommand::Stop => false,
    }
}

/// The brightness that a generic level sets on the display: the level held
/// to the range of a byte, where zero switches the display off.
pub fn display_brightness(level: i16) -> (b: Option<u8>)
    ensures
        level <= 0 ==> b is None,
        0 < level <= 255 ==> b == Some(level as u8),
        level > 255 ==> b == Some(255u8),
        b == level_brightness(level),
{
    let clamped: u8 = if level < 0 {
        0
    } else if level > 255 {
        255
    } else {
        level as u8
    };
    if clamped == 0 {
        None
    } else {
        Some(clamped)
    }
}

/// Whether an on/off value switches the speaker on.
pub fn speaker_enabled(on_off: u8) -> (on: bool)
    ensures
        on == (on_off != 0),
{
    on_off != 0
}

/// The on/off message that a button publishes: on while the button is held
/// down (its pin reads low), with the given transaction id.
pub fn button_message(pressed: bool, tid: u8) -> (m: OnOffSet)
    ensures
        m.on_off == (if pressed {
            1u8
        } else {
            0u8
        }),
        m.tid == tid,
{
    OnOffSet {
        on_off: if pressed {
            1
        } else {
            0
        },
        tid,
    }
}

/// The transaction id of the next button message: one more, wrapping
/// around from 255 to 0.
pub fn next_tid(tid: u8) -> (n: u8)
    ensures
        n == (tid + 1) % 256,
{
    if tid == 255 {
        0
    } else {
        tid + 1
    }
}

/// The battery status that the firmware reports.
pub fn battery_reading() -> (s: BatteryStatus)
    ensures
        s == unknown_battery(),
{
    BatteryStatus {
        battery_level: 0,
        time_to_discharge: 0,
        time_to_charge: 0,
        flags: BatteryFlags {
            presence: BatteryPresence::Unknown,
            indicator: BatteryIndicator::Unknown,
            charging: BatteryCharging::Unknown,
        },
    }
}

/// What the battery server does with an input: it answers a request with the
/// battery status and follows a new cadence; anything else is ignored.
pub fn battery_step(input: ModelInput) -> (a: ModelAction)
    ensures
        input == ModelInput::Get ==> a == ModelAction::ReplyBattery(unknown_battery()),
        input matches ModelInput::Cadence(c) ==> a == ModelAction::SetTicker(cadence_period(c)),
        input == ModelInput::Status || input == ModelInput::OtherControl ==> a
            == ModelAction::Ignore,
{
    match input {
        ModelInput::Get => ModelAction::ReplyBattery(battery_reading()),
        ModelInput::Cadence(c) => ModelAction::SetTicker(publish_period(c)),
        _ => ModelAction::Ignore,
    }
}

/// What the sensor server does with an input: it follows a new cadence and
/// ignores anything else.
pub fn sensor_step(input: ModelInput) -> (a: ModelAction)
    ensures
        input matches ModelInput::Cadence(c) ==> a == ModelAction::SetTicker(cadence_period(c)),
        !(input is Cadence) ==> a == ModelAction::Ignore,
{
    match input {
        ModelInput::Cadence(c) => ModelAction::SetTicker(publish_period(c)),
        _ => ModelAction::Ignore,
    }
}

/// The period at which a model publishes under a cadence, if any.
pub fn publish_period(c: PublicationCadence) -> (p: Option<u64>)
    ensures
        p == cadence_period(c),
{
    match c {
        PublicationCadence::Periodic { millis } => Some(millis),
        _ => None,
    }
}

fn tenth(v: i32) -> (t: i16)
    ensures
        t == div10(v as int) as i16,
{
    let w: i64 = v as i64;
    let q: i64 = if w >= 0 {
        w / 10
    } else {
        -((-w) / 10)
    };
    q as i16
}

/// The payload that the sensor server publishes for a temperature (degrees
/// Celsius) and accelerometer reading: the temperature doubled, each axis
/// divided by ten (rounding towards zero) and kept to 16 bits, and no noise.
pub fn payload_from_readings(temperature: i8, x: i32, y: i32, z: i32) -> (p: SensorPayload)
    requires
        -64 <= temperature <= 63,
    ensures
        p.temperature == temperature * 2,
        p.acceleration.x == div10(x as int) as i16,
        p.acceleration.y == div10(y as int) as i16,
        p.acceleration.z == div10(z as int) as i16,
        p.noise == 0,
{
    let mut acceleration = Acceleration::default();
    acceleration.x = tenth(x);
    acceleration.y = tenth(y);
    acceleration.z = tenth(z);
    SensorPayload { temperature: temperature * 2, acceleration, noise: 0 }
}

/// The sound level of a recording: the spread between its loudest and
/// quietest sample, divided by 16 and kept to a byte.
pub fn sound_level(samples: &[i16]) -> (level: u8)
    requires
        samples@.len() > 0,
        max_of(samples@) - min_of(samples@) <= i16::MAX,
    ensures
        level == ((max_of(samples@) - min_of(samples@)) / 16) % 256,
{
    let mut max: i16 = i16::MIN;
    let mut min: i16 = i16::MAX;
    let mut i: usize = 0;
    while i < samples.len()
        invariant
            i <= samples@.len(),
            i == 0 ==> max == i16::MIN && min == i16::MAX,
            i > 0 ==> max == max_of(samples@.subrange(0, i as int)) && min == min_of(
                samples@.subrange(0, i as int),
            ),
        decreases samples@.len() - i,
    {
        let b = samples[i];
        proof {
            let next = samples@.subrange(0, i + 1);
            assert(next.drop_last() =~= samples@.subrange(0, i as int));
            assert(next.last() == b);
        }
        if i == 0 || b > max {
            max = b;
        }
        if i == 0 || b < min {
            min = b;
        }
        i = i + 1;
    }
    assert(samples@.subrange(0, samples@.len() as int) =~= samples@);
    let amplitude: i16 = max - min;
    ((amplitude / 16) as u16 % 256) as u8
}

/// Whether the blinker runs after the commands it received, in order: not
/// before the first command, and afterwards exactly when the last one was
/// `Start`.
pub fn blinking_after(commands: &Vec<BlinkCommand>) -> (on: bool)
    ensures
        on == (commands@.len() > 0 && commands@.last() == BlinkCommand::Start),
{
    let mut on = false;
    let mut i: usize = 0;
    while i < commands.len()
        invariant
            i <= commands@.len(),
            on == (i > 0 && commands@[i - 1] == BlinkCommand::Start),
        decreases commands@.len() - i,
    {
        on = blink_enabled(commands[i]);
        i = i + 1;
    }
    on
}

/// The display's brightness after the level messages it received, in
/// order: none (display cleared) before the first, and afterwards what the
/// last one sets.
pub fn display_after(levels: &Vec<i16>) -> (b: Option<u8>)
    ensures
        b == (if levels@.len() == 0 {
            None
        } else {
            level_brightness(levels@.last())
        }),
{
    let mut b: Option<u8> = None;
    let mut i: usize = 0;
    while i < levels.len()
        invariant
            i <= levels@.len(),
            b == (if i == 0 {
                None
            } else {
                level_brightness(levels@[i - 1])
            }),
        decreases levels@.len() - i,
    {
        b = display_brightness(levels[i]);
        i = i + 1;
    }
    b
}

/// The messages that a button publishes for its edges, in order: each says
/// whether the button is held down after the edge, and the i-th carries
/// transaction id i modulo 256.
pub fn button_messages(pressed: &Vec<bool>) -> (m: Vec<OnOffSet>)
    ensures
        m@.len() == pressed@.len(),
        forall|i: int|
            0 <= i < pressed@.len() ==> #[trigger] m@[i] == (OnOffSet {
                on_off: if pressed@[i] {
                    1u8
                } else {
                    0u8
                },
                tid: (i % 256) as u8,
            }),
{
    let mut m: Vec<OnOffSet> = Vec::new();
    let mut tid: u8 = 0;
    let mut i: usize = 0;
    while i < pressed.len()
        invariant
            i <= pressed@.len(),
            m@.len() == i,
            tid == i % 256,
            forall|k: int|
                0 <= k < i ==> #[trigger] m@[k] == (OnOffSet {
                    on_off: if pressed@[k] {
                        1u8
                    } else {
                        0u8
                    },
                    tid: (k % 256) as u8,
                }),
        decreases pressed@.len() - i,
    {
        m.push(button_message(pressed[i], tid));
        assert((tid + 1) % 256 == (i + 1) % 256) by (nonlinear_arith)
            requires
                tid == i % 256,
        ;
        tid = next_tid(tid);
        i = i + 1;
    }
    m
}

} // verus!
