//! Configuration of freshly provisioned nodes: the steps, the exchange for
//! each configuration message, and the events that report the outcome.
use vstd::prelude::*;
use crate::external::uuid_simple_text;
use crate::operator::BtMeshDeviceState;
use crate::pre_provision::GROUP_LABEL;
use crate::text::hex_digits;

verus! {

/// How many times a configuration message is sent again before the node is
/// given up.
pub const CONFIGURATION_RETRIES: u8 = 3;

/// SIG model id of the sensor setup server.
pub const SENSOR_SETUP_SERVER: u16 = 0x1101;

/// SIG model id of the generic on/off server.
pub const GENERIC_ONOFF_SERVER: u16 = 0x1000;

/// SIG model id of the generic battery server.
pub const GENERIC_BATTERY_SERVER: u16 = 0x100C;

/// One step of configuring a freshly provisioned node.
#[derive(Debug, Clone, Copy, PartialEq, Eq)]
pub enum ConfigStep {
    /// Add the application key with this index to the node.
    AddAppKey { app_key_index: u16 },
    /// Bind the application key with this index to a model of the node.
    Bind { model: u16, app_key_index: u16 },
    /// Make a model publish to the group with this label UUID, with the
    /// application key of this index, every `period_secs` seconds, without
    /// retransmission.
    PublishSet { model: u16, label: [u8; 16], app_key_index: u16, period_secs: u8 },
}

/// What came back while waiting for the answer to a configuration message.
#[derive(Debug, Clone, Copy, PartialEq, Eq, Structural)]
pub enum ConfigResponse {
    /// A device-key message; `parsed` is false when the configuration
    /// client's parser refused its bytes (an opcode that it does not know is
    /// not refused).
    DevKey { parsed: bool },
    /// An ordinary element message.
    Element,
    /// The element channel gave nothing.
    Nothing,
    /// No answer within the waiting time.
    Timeout,
}

/// What the configuration exchange does next.
#[derive(Debug, Clone, Copy, PartialEq, Eq, Structural)]
pub enum ConfigAction {
    /// The node answered: the message went through.
    Done,
    /// The exchange failed.
    Fail,
    /// Keep waiting for the answer.
    Wait,
    /// Send the message again and wait.
    Resend,
}

/// The next step of the configuration exchange after `retries` resends.
pub open spec fn config_step(retries: u8, response: ConfigResponse) -> (ConfigAction, u8) {
    match response {
        ConfigResponse::DevKey { parsed } => (
            if parsed {
                ConfigAction::Done
            } else {
                ConfigAction::Fail
            },
            retries,
        ),
        ConfigResponse::Element => (ConfigAction::Wait, retries),
        ConfigResponse::Nothing => (ConfigAction::Wait, retries),
        ConfigResponse::Timeout => (ConfigAction::Resend, (retries + 1) as u8),
    }
}

/// The outcome of a configuration exchange that sees the responses in turn,
/// starting after `retries` resends: the exchange fails as soon as three
/// resends were made, ends at the first answer, and otherwise keeps going.
pub open spec fn config_run(retries: u8, responses: Seq<ConfigResponse>) -> Option<bool>
    decreases responses.len(),
{
    if retries >= CONFIGURATION_RETRIES {
        Some(false)
    } else if responses.len() == 0 {
        None
    } else {
        let (action, next) = config_step(retries, responses[0]);
        match action {
            ConfigAction::Done => Some(true),
            ConfigAction::Fail => Some(false),
            _ => config_run(next, responses.drop_first()),
        }
    }
}

/// The steps that configure a freshly provisioned node: add application key
/// 0, bind it to the sensor, on/off and battery servers, and make the sensor
/// publish to the group label every 4 seconds and the battery every 60, with
/// that key.
pub open spec fn configuration_steps() -> Seq<ConfigStep> {
    seq![
        ConfigStep::AddAppKey { app_key_index: 0 },
        ConfigStep::Bind { model: SENSOR_SETUP_SERVER, app_key_index: 0 },
        ConfigStep::Bind { model: GENERIC_ONOFF_SERVER, app_key_index: 0 },
        ConfigStep::Bind { model: GENERIC_BATTERY_SERVER, app_key_index: 0 },
        ConfigStep::PublishSet {
            model: SENSOR_SETUP_SERVER,
            label: GROUP_LABEL,
            app_key_index: 0,
            period_secs: 4,
        },
        ConfigStep::PublishSet {
            model: GENERIC_BATTERY_SERVER,
            label: GROUP_LABEL,
            app_key_index: 0,
            period_secs: 60,
        },
    ]
}

/// The next step of the exchange for a configuration message, after
/// `retries` resends. The exchange fails once three resends were made; an
/// answer with a device key ends it (failing when the answer cannot be
/// read); other messages and an empty channel keep it waiting; a timeout
/// sends the message again.
pub fn configuration_step(retries: u8, response: ConfigResponse) -> (r: (ConfigAction, u8))
    ensures
        retries >= CONFIGURATION_RETRIES ==> r == (ConfigAction::Fail, retries),
        retries < CONFIGURATION_RETRIES ==> r == config_step(retries, response),
        retries < CONFIGURATION_RETRIES && (response == ConfigResponse::Element || response
            == ConfigResponse::Nothing) ==> r == (ConfigAction::Wait, retries),
        retries < CONFIGURATION_RETRIES && response == ConfigResponse::Timeout ==> r == (
        ConfigAction::Resend, (retries + 1) as u8),
        retries < CONFIGURATION_RETRIES && response == (ConfigResponse::DevKey { parsed: true })
            ==> r == (ConfigAction::Done, retries),
        retries < CONFIGURATION_RETRIES && response == (ConfigResponse::DevKey { parsed: false })
            ==> r == (ConfigAction::Fail, retries),
{
    if retries >= CONFIGURATION_RETRIES {
        return (ConfigAction::Fail, retries);
    }
    match response {
        ConfigResponse::DevKey { parsed } => {
            if parsed {
                (ConfigAction::Done, retries)
            } else {
                (ConfigAction::Fail, retries)
            }
        },
        ConfigResponse::Element => (ConfigAction::Wait, retries),
        ConfigResponse::Nothing => (ConfigAction::Wait, retries),
        ConfigResponse::Timeout => (ConfigAction::Resend, retries + 1),
    }
}

/// The steps that configure a freshly provisioned node, in order.
pub fn configuration_plan() -> (steps: Vec<ConfigStep>)
    ensures
        steps@ == configuration_steps(),
{
    let steps = vec![
        ConfigStep::AddAppKey { app_key_index: 0 },
        ConfigStep::Bind { model: SENSOR_SETUP_SERVER, app_key_index: 0 },
        ConfigStep::Bind { model: GENERIC_ONOFF_SERVER, app_key_index: 0 },
        ConfigStep::Bind { model: GENERIC_BATTERY_SERVER, app_key_index: 0 },
        ConfigStep::PublishSet {
            model: SENSOR_SETUP_SERVER,
            label: GROUP_LABEL,
            app_key_index: 0,
            period_secs: 4,
        },
        ConfigStep::PublishSet {
            model: GENERIC_BATTERY_SERVER,
            label: GROUP_LABEL,
            app_key_index: 0,
            period_secs: 60,
        },
    ];
    assert(steps@ =~= configuration_steps());
    steps
}

/// The outcome of configuring a node when its steps went as `results` says,
/// in order: it fails at the first step that failed, succeeds once all six
/// steps succeeded, and is still under way otherwise. Results after a
/// failure or after the last step do not count.
pub open spec fn configuration_outcome_of(results: Seq<bool>) -> Option<bool> {
    if exists|i: int| 0 <= i < results.len() && i < configuration_steps().len() && !results[i] {
        Some(false)
    } else if results.len() >= configuration_steps().len() {
        Some(true)
    } else {
        None
    }
}

/// Runs the configuration steps over their results, stopping at the first
/// failure: how many steps were sent, and the outcome (none while steps
/// remain).
pub fn configuration_outcome(results: &Vec<bool>) -> (r: (usize, Option<bool>))
    ensures
        r.1 == configuration_outcome_of(results@),
        r.0 <= configuration_steps().len(),
        r.1 == Some(false) ==> r.0 >= 1 && !results@[r.0 - 1] && forall|k: int|
            0 <= k < r.0 - 1 ==> #[trigger] results@[k],
        r.1 != Some(false) ==> forall|k: int| 0 <= k < r.0 ==> #[trigger] results@[k],
        r.1 == Some(true) ==> r.0 == configuration_steps().len(),
        r.1 is None ==> r.0 == results@.len(),
{
    let steps = configuration_plan();
    let mut i: usize = 0;
    while i < results.len() && i < steps.len()
        invariant
            steps@ == configuration_steps(),
            i <= results@.len(),
            i <= steps@.len(),
            forall|k: int| 0 <= k < i ==> #[trigger] results@[k],
        decreases steps@.len() - i,
    {
        if !results[i] {
            return (i + 1, Some(false));
        }
        i = i + 1;
    }
    if i == steps.len() {
        (i, Some(true))
    } else {
        (i, None)
    }
}

/// A report that the gateway publishes about a node: the node's device id
/// and its state.
#[derive(Debug)]
pub struct NodeEvent {
    pub device: String,
    pub status: BtMeshDeviceState,
}

/// The device id under which the gateway reports a node with the given UUID:
/// the UUID as 32 lower-case hexadecimal digits.
pub open spec fn uuid_device_text(uuid: u128) -> Seq<char> {
    hex_digits(uuid as nat, 32)
}

/// The event reported for the node with the given UUID once its
/// configuration ended: provisioned at its address on success, still
/// provisioning with the error otherwise.
pub fn configured_event(uuid: u128, address: u16, error: Option<String>) -> (e: NodeEvent)
    ensures
        e.device@ == uuid_device_text(uuid),
        error is None ==> e.status == (BtMeshDeviceState::Provisioned { address }),
        error is Some ==> e.status == (BtMeshDeviceState::Provisioning { error }),
{
    let device = uuid_simple_text(uuid);
    match error {
        None => NodeEvent { device, status: BtMeshDeviceState::Provisioned { address } },
        Some(e) => NodeEvent { device, status: BtMeshDeviceState::Provisioning { error: Some(e) } },
    }
}

/// The event reported for the named device once its node was reset.
pub fn reset_event(device: String, error: Option<String>) -> (e: NodeEvent)
    ensures
        e.device == device,
        e.status == (BtMeshDeviceState::Reset { error }),
{
    NodeEvent { device, status: BtMeshDeviceState::Reset { error } }
}

/// What the gateway reports after asking the node of a device to reset: the
/// reset event when the node answered (`exchanged`), nothing otherwise.
pub fn reset_outcome(device: String, error: Option<String>, exchanged: bool) -> (e: Option<
    NodeEvent,
>)
    ensures
        exchanged ==> (e matches Some(ev) && ev.device == device && ev.status == (
        BtMeshDeviceState::Reset { error })),
        !exchanged ==> e is None,
{
    if exchanged {
        Some(reset_event(device, error))
    } else {
        None
    }
}

// ---------------------------------------------------------------------------
// Laws
// ---------------------------------------------------------------------------

/// The number of timeouts among the responses.
pub open spec fn timeouts(responses: Seq<ConfigResponse>) -> nat
    decreases responses.len(),
{
    if responses.len() == 0 {
        0
    } else {
        (if responses[0] == ConfigResponse::Timeout {
            1nat
        } else {
            0nat
        }) + timeouts(responses.drop_first())
    }
}

/// Whether an answer with a device key is among the responses.
pub open spec fn answered(responses: Seq<ConfigResponse>) -> bool {
    exists|i: int| 0 <= i < responses.len() && responses[i] is DevKey
}

/// A configuration message that the node does not answer is given up once it
/// has been sent again three times: the exchange then fails.
pub proof fn lemma_configuration_gives_up(retries: u8, responses: Seq<ConfigResponse>)
    requires
        retries <= CONFIGURATION_RETRIES,
        !answered(responses),
        retries + timeouts(responses) >= CONFIGURATION_RETRIES,
    ensures
        config_run(retries, responses) == Some(false),
    decreases responses.len(),
{
    if retries < CONFIGURATION_RETRIES {
        assert(responses.len() > 0);
        let rest = responses.drop_first();
        assert(!answered(rest)) by {
            if answered(rest) {
                let i = choose|i: int| 0 <= i < rest.len() && rest[i] is DevKey;
                assert(responses[i + 1] is DevKey);
            }
        }
        assert(!(responses[0] is DevKey));
        let next = config_step(retries, responses[0]).1;
        lemma_configuration_gives_up(next, rest);
    }
}

/// Only a timeout counts against a configuration message: before the limit,
/// any other response leaves the retry count as it was, and a timeout adds
/// exactly one; an ordinary element message or an empty channel only keeps
/// the exchange waiting.
pub proof fn lemma_only_timeouts_count(retries: u8, response: ConfigResponse)
    requires
        retries < CONFIGURATION_RETRIES,
    ensures
        config_step(retries, response).1 == retries + (if response == ConfigResponse::Timeout {
            1int
        } else {
            0int
        }),
        response == ConfigResponse::Element || response == ConfigResponse::Nothing ==> config_step(
            retries,
            response,
        ).0 == ConfigAction::Wait,
{
}

/// An exchange is not given up before three timeouts: while the node has
/// not answered and fewer than three timeouts (counting those before)
/// occurred, the exchange is still under way, whatever else arrives.
pub proof fn lemma_configuration_waits(retries: u8, responses: Seq<ConfigResponse>)
    requires
        !answered(responses),
        retries + timeouts(responses) < CONFIGURATION_RETRIES,
    ensures
        config_run(retries, responses) is None,
    decreases responses.len(),
{
    if responses.len() > 0 {
        let rest = responses.drop_first();
        assert(!answered(rest)) by {
            if answered(rest) {
                let i = choose|i: int| 0 <= i < rest.len() && rest[i] is DevKey;
                assert(responses[i + 1] is DevKey);
            }
        }
        assert(!(responses[0] is DevKey));
        lemma_only_timeouts_count(retries, responses[0]);
        lemma_configuration_waits(config_step(retries, responses[0]).1, rest);
    }
}

/// Without a timeout, an exchange that gets a readable answer succeeds.
pub proof fn lemma_configuration_answer_succeeds(responses: Seq<ConfigResponse>, k: int)
    requires
        0 <= k < responses.len(),
        responses[k] == (ConfigResponse::DevKey { parsed: true }),
        forall|i: int| 0 <= i < k ==> #[trigger] responses[i] == ConfigResponse::Element
            || responses[i] == ConfigResponse::Nothing,
    ensures
        config_run(0, responses) == Some(true),
    decreases k,
{
    if k > 0 {
        let rest = responses.drop_first();
        assert(responses[0] == ConfigResponse::Element || responses[0] == ConfigResponse::Nothing);
        assert forall|i: int| 0 <= i < k - 1 implies #[trigger] rest[i] == ConfigResponse::Element
            || rest[i] == ConfigResponse::Nothing by {
            assert(rest[i] == responses[i + 1]);
        }
        lemma_configuration_answer_succeeds(rest, k - 1);
    }
}

} // verus!
