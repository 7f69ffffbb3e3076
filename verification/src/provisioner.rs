//! The gateway's provisioner: which devices it provisions, and what it
//! makes of the operator's commands.
use vstd::prelude::*;
use std::collections::HashMap;
use crate::external::{parsed_uuid, parse_uuid};
use crate::node_configurator::{NodeEvent, uuid_device_text};
use crate::external::uuid_simple_text;
use crate::operator::{BtMeshCommand, BtMeshDeviceState, BtMeshOperation};

verus! {

broadcast use vstd::std_specs::hash::group_hash_axioms;

/// The settings of the provisioner: the first unicast address that it hands
/// out and the token of its node in the mesh network.
#[derive(Debug, Clone, PartialEq, Eq)]
pub struct Config {
    start_address: u16,
    token: String,
}

impl Config {
    /// The node token, as text.
    pub closed spec fn token_text(&self) -> Seq<char> {
        self.token@
    }

    /// The first unicast address handed out.
    pub closed spec fn first_address(&self) -> u16 {
        self.start_address
    }
    /// The settings with the given node token and first address.
    pub fn new(token: String, start_address: u16) -> (c: Config)
        ensures
            c.token_text() == token@,
            c.first_address() == start_address,
    {
        Config { token, start_address }
    }

    /// The node token.
    pub fn token(&self) -> (t: &str)
        ensures
            t@ == self.token_text(),
    {
        self.token.as_str()
    }

    /// The first unicast address handed out.
    pub fn start_address(&self) -> (a: u16)
        ensures
            a == self.first_address(),
    {
        self.start_address
    }
}

/// What the provisioner asks of the node configurator: configure the node
/// with the given UUID at its new address, or reset the named device at its
/// address (reporting the error, if any).
#[derive(Debug, Clone, PartialEq, Eq)]
pub enum NodeConfigurationMessage {
    Configure(u128, u16),
    Reset(String, u16, Option<String>),
}

/// How long a provisioning attempt for a device blocks another one, in
/// nanoseconds (30 seconds).
pub const PROVISION_HOLD_NS: u64 = 30_000_000_000;

/// What the provisioner does on a command from the operator.
#[derive(Debug, Clone, Copy, PartialEq, Eq, Structural)]
pub enum ProvisionerAction {
    /// Provision the device with this UUID.
    Provision { uuid: u128 },
    /// The device id of a provisioning command is no UUID.
    InvalidDevice,
    /// Reset the node at this address.
    Reset { address: u16 },
}

/// Recent provisioning attempts, by device UUID, with the time (in
/// nanoseconds on the gateway's monotonic clock) at which each began.
pub struct ProvisionCache {
    started: HashMap<u128, u64>,
}

/// Whether a provisioning attempt may start at `now` for a device whose last
/// attempt began at `last` (if any): only when none is recorded or the hold
/// time has passed. A clock that went back counts as no time passed.
pub open spec fn may_provision(last: Option<u64>, now: u64) -> bool {
    match last {
        None => true,
        Some(t) => now > t && now - t > PROVISION_HOLD_NS,
    }
}

impl ProvisionCache {
    /// The recorded start times, by device UUID.
    pub closed spec fn view(&self) -> Map<u128, u64> {
        self.started@
    }

    /// A cache without any attempt.
    pub fn new() -> (c: ProvisionCache)
        ensures
            c.view() == Map::<u128, u64>::empty(),
    {
        ProvisionCache { started: HashMap::new() }
    }

    /// Decides whether provisioning of `uuid` may start at `now`; when it
    /// may, the attempt is recorded as starting at `now`.
    pub fn try_start(&mut self, uuid: u128, now: u64) -> (start: bool)
        ensures
            start == may_provision(
                if old(self).view().contains_key(uuid) {
                    Some(old(self).view()[uuid])
                } else {
                    None
                },
                now,
            ),
            start ==> final(self).view() == old(self).view().insert(uuid, now),
            !start ==> final(self).view() == old(self).view(),
    {
        let last = match self.started.get(&uuid) {
            Some(t) => Some(*t),
            None => None,
        };
        let start = match last {
            None => true,
            Some(t) => now > t && now - t > PROVISION_HOLD_NS,
        };
        if start {
            self.started.insert(uuid, now);
        }
        start
    }

    /// Forgets the attempt for `uuid`, so that the next one may start at once.
    pub fn forget(&mut self, uuid: u128)
        ensures
            final(self).view() == old(self).view().remove(uuid),
    {
        self.started.remove(&uuid);
    }
}

/// The event reported for the node with the given UUID when it could not be
/// added to the network: still provisioning, with the reason.
pub fn add_failed_event(uuid: u128, reason: String) -> (e: NodeEvent)
    ensures
        e.device@ == uuid_device_text(uuid),
        e.status == (BtMeshDeviceState::Provisioning { error: Some(reason) }),
{
    NodeEvent {
        device: uuid_simple_text(uuid),
        status: BtMeshDeviceState::Provisioning { error: Some(reason) },
    }
}

/// What follows an attempt to start adding the node with the given UUID:
/// nothing when it started; when it failed, the failure is reported and the
/// attempt forgotten, so that the next command for the node tries again at
/// once.
pub fn add_node_outcome(cache: &mut ProvisionCache, uuid: u128, result: Result<(), String>) -> (e:
    Option<NodeEvent>)
    ensures
        result is Ok ==> e is None && final(cache).view() == old(cache).view(),
        result matches Err(reason) ==> (e matches Some(ev) && ev.device@ == uuid_device_text(uuid)
            && ev.status == (BtMeshDeviceState::Provisioning { error: Some(reason) }))
            && final(cache).view() == old(cache).view().remove(uuid),
{
    match result {
        Ok(()) => None,
        Err(reason) => {
            cache.forget(uuid);
            Some(add_failed_event(uuid, reason))
        },
    }
}

/// What the provisioner does with a provisioning command once the device id
/// has been read as a UUID (or not).
pub fn provision_action(uuid: Option<u128>) -> (a: ProvisionerAction)
    ensures
        uuid matches Some(u) ==> a == (ProvisionerAction::Provision { uuid: u }),
        uuid is None ==> a == ProvisionerAction::InvalidDevice,
{
    match uuid {
        Some(u) => ProvisionerAction::Provision { uuid: u },
        None => ProvisionerAction::InvalidDevice,
    }
}

/// What the provisioner does on a command from the operator: provision the
/// device whose id reads as a UUID, or reset the node at the given address.
pub fn provisioner_action(command: &BtMeshCommand) -> (a: ProvisionerAction)
    ensures
        command.command matches BtMeshOperation::Provision { device } ==> a == provision_action_of(
            parsed_uuid(device@),
        ),
        command.command matches BtMeshOperation::Reset { address } ==> a == (
        ProvisionerAction::Reset { address }),
{
    match &command.command {
        BtMeshOperation::Provision { device } => provision_action(parse_uuid(device.as_str())),
        BtMeshOperation::Reset { address } => ProvisionerAction::Reset { address: *address },
    }
}

/// What `provision_action` returns for a read UUID.
pub open spec fn provision_action_of(uuid: Option<u128>) -> ProvisionerAction {
    match uuid {
        Some(u) => ProvisionerAction::Provision { uuid: u },
        None => ProvisionerAction::InvalidDevice,
    }
}

// ---------------------------------------------------------------------------
// Laws
// ---------------------------------------------------------------------------

/// A device whose provisioning began at `t` is not provisioned again before
/// the hold time has passed, and may be once it has.
pub proof fn lemma_provision_hold(t: u64, now: u64)
    ensures
        now <= t + PROVISION_HOLD_NS ==> !may_provision(Some(t), now),
        now > t + PROVISION_HOLD_NS ==> may_provision(Some(t), now),
        may_provision(None, now),
{
}

} // verus!
