//! The provisioning data written to a node's flash before it first boots:
//! the publications of its models.
use vstd::prelude::*;
use crate::gateway::{FRONT_LOCATION, LEFT_LOCATION, RIGHT_LOCATION};

verus! {

/// The label UUID of the group that nodes publish their readings to.
pub const GROUP_LABEL: [u8; 16] = [
    0xf0,
    0xbf,
    0xd8,
    0x03,
    0xcd,
    0xe1,
    0x84,
    0x13,
    0x30,
    0x96,
    0xf0,
    0x03,
    0xea,
    0x4a,
    0x3d,
    0xc2,
];

/// How a model of an element publishes.
#[derive(Debug, Clone, Copy, PartialEq, Eq)]
pub struct Publication {
    /// Unicast address of the element.
    pub element_address: u16,
    /// Label UUID of the group published to.
    pub label: [u8; 16],
    /// Index of the application key used.
    pub app_key_index: u16,
    /// Whether friendship credentials are used.
    pub credential_flag: bool,
    /// Time to live of the messages; `None` for the node's default.
    pub publish_ttl: Option<u8>,
    /// Publication period in seconds; `None` when the model publishes only
    /// on change.
    pub period_secs: Option<u8>,
    /// Retransmissions of each message.
    pub retransmit: u8,
    /// SIG model id of the model.
    pub model: u16,
}

/// The publication of a model: to the group label, with the given key,
/// the node's default time to live, no retransmission, and the given period
/// (none for publishing on change only).
pub fn publication(address: u16, app_key_index: u16, model: u16, period_secs: Option<u8>) -> (p:
    Publication)
    ensures
        p == (Publication {
            element_address: address,
            label: GROUP_LABEL,
            app_key_index,
            credential_flag: false,
            publish_ttl: None,
            period_secs,
            retransmit: 0,
            model,
        }),
{
    Publication {
        element_address: address,
        label: GROUP_LABEL,
        app_key_index,
        credential_flag: false,
        publish_ttl: None,
        period_secs,
        retransmit: 0,
        model,
    }
}

/// SIG model ids of the node's models.
pub const ONOFF_SERVER: u16 = 0x1000;
pub const ONOFF_CLIENT: u16 = 0x1001;
pub const LEVEL_SERVER: u16 = 0x1002;
pub const BATTERY_SERVER: u16 = 0x100C;
pub const SENSOR_SERVER: u16 = 0x1101;

/// An element of the node: its location and the SIG models it holds, in
/// order.
#[derive(Debug, Clone, PartialEq, Eq)]
pub struct ElementPlan {
    pub location: u16,
    pub models: Vec<u16>,
}

/// A model of an element (by index) bound to an application key.
#[derive(Debug, Clone, Copy, PartialEq, Eq, Structural)]
pub struct Binding {
    pub element: u8,
    pub model: u16,
    pub app_key_index: u16,
}

/// The publication set on an element (by index).
#[derive(Debug, Clone, Copy, PartialEq, Eq)]
pub struct ElementPublication {
    pub element: u8,
    pub publication: Publication,
}

/// What is written to a node before it first boots: its unicast address,
/// the index of its network key and of its application key, its elements,
/// the bindings of their models and their publications.
#[derive(Debug, Clone, PartialEq, Eq)]
pub struct ProvisioningPlan {
    pub node_address: u16,
    pub net_key_index: u16,
    pub app_key_index: u16,
    pub elements: Vec<ElementPlan>,
    pub bindings: Vec<Binding>,
    pub publications: Vec<ElementPublication>,
}

/// The bindings of the plan: every model of the front element, then the
/// on/off client of the left and of the right element, all to key 0.
pub open spec fn plan_bindings() -> Seq<Binding> {
    seq![
        Binding { element: 0, model: ONOFF_SERVER, app_key_index: 0 },
        Binding { element: 0, model: LEVEL_SERVER, app_key_index: 0 },
        Binding { element: 0, model: BATTERY_SERVER, app_key_index: 0 },
        Binding { element: 0, model: SENSOR_SERVER, app_key_index: 0 },
        Binding { element: 1, model: ONOFF_CLIENT, app_key_index: 0 },
        Binding { element: 2, model: ONOFF_CLIENT, app_key_index: 0 },
    ]
}

/// The publications of the plan for a node address: the battery every 60
/// seconds and the sensor every second from the node's address, and each
/// button on change only from the address after it (which both buttons
/// use).
pub open spec fn plan_publications(node_address: u16) -> Seq<ElementPublication> {
    let next = (node_address + 1) as u16;
    seq![
        ElementPublication {
            element: 0,
            publication: publication_of(node_address, BATTERY_SERVER, Some(60u8)),
        },
        ElementPublication {
            element: 0,
            publication: publication_of(node_address, SENSOR_SERVER, Some(1u8)),
        },
        ElementPublication { element: 1, publication: publication_of(next, ONOFF_CLIENT, None) },
        ElementPublication { element: 2, publication: publication_of(next, ONOFF_CLIENT, None) },
    ]
}

/// The publication of a model with application key 0, as `publication`
/// makes it.
pub open spec fn publication_of(address: u16, model: u16, period_secs: Option<u8>) -> Publication {
    Publication {
        element_address: address,
        label: GROUP_LABEL,
        app_key_index: 0,
        credential_flag: false,
        publish_ttl: None,
        period_secs,
        retransmit: 0,
        model,
    }
}

/// The provisioning data of a node with the given unicast address: three
/// elements (front with the on/off, level, battery and sensor servers; left
/// and right with an on/off client each), network and application key 0,
/// the bindings and the publications above. The address and the one after
/// it must be unicast addresses.
pub fn provisioning_plan(node_address: u16) -> (p: ProvisioningPlan)
    requires
        1 <= node_address,
        node_address + 1 <= 0x7FFF,
    ensures
        p.node_address == node_address,
        p.net_key_index == 0,
        p.app_key_index == 0,
        p.elements@.len() == 3,
        p.elements@[0].location == FRONT_LOCATION,
        p.elements@[0].models@ == seq![ONOFF_SERVER, LEVEL_SERVER, BATTERY_SERVER, SENSOR_SERVER],
        p.elements@[1].location == LEFT_LOCATION,
        p.elements@[1].models@ == seq![ONOFF_CLIENT],
        p.elements@[2].location == RIGHT_LOCATION,
        p.elements@[2].models@ == seq![ONOFF_CLIENT],
        p.bindings@ == plan_bindings(),
        p.publications@ == plan_publications(node_address),
        forall|i: int|
            0 <= i < p.publications@.len() && #[trigger] p.publications@[i].element == 0 ==> p.publications@[i].publication.element_address
                == node_address,
        forall|i: int|
            0 <= i < p.publications@.len() && #[trigger] p.publications@[i].element != 0 ==> p.publications@[i].publication.element_address
                == node_address + 1,
{
    let next: u16 = node_address + 1;
    let front = ElementPlan {
        location: FRONT_LOCATION,
        models: vec![ONOFF_SERVER, LEVEL_SERVER, BATTERY_SERVER, SENSOR_SERVER],
    };
    let left = ElementPlan { location: LEFT_LOCATION, models: vec![ONOFF_CLIENT] };
    let right = ElementPlan { location: RIGHT_LOCATION, models: vec![ONOFF_CLIENT] };
    let bindings = vec![
        Binding { element: 0, model: ONOFF_SERVER, app_key_index: 0 },
        Binding { element: 0, model: LEVEL_SERVER, app_key_index: 0 },
        Binding { element: 0, model: BATTERY_SERVER, app_key_index: 0 },
        Binding { element: 0, model: SENSOR_SERVER, app_key_index: 0 },
        Binding { element: 1, model: ONOFF_CLIENT, app_key_index: 0 },
        Binding { element: 2, model: ONOFF_CLIENT, app_key_index: 0 },
    ];
    let publications = vec![
        ElementPublication {
            element: 0,
            publication: publication(node_address, 0, BATTERY_SERVER, Some(60)),
        },
        ElementPublication {
            element: 0,
            publication: publication(node_address, 0, SENSOR_SERVER, Some(1)),
        },
        ElementPublication { element: 1, publication: publication(next, 0, ONOFF_CLIENT, None) },
        ElementPublication { element: 2, publication: publication(next, 0, ONOFF_CLIENT, None) },
    ];
    let elements = vec![front, left, right];
    assert(bindings@ =~= plan_bindings());
    assert(publications@ =~= plan_publications(node_address));
    proof {
        lemma_front_publications_from_node(node_address);
    }
    ProvisioningPlan {
        node_address,
        net_key_index: 0,
        app_key_index: 0,
        elements,
        bindings,
        publications,
    }
}

/// Every model of every element is bound to application key 0, and every
/// binding names a model that its element holds: the four servers of the
/// front element and the on/off client of each button.
pub proof fn lemma_every_model_bound()
    ensures
        forall|i: int| 0 <= i < plan_bindings().len() ==> #[trigger] plan_bindings()[i].app_key_index == 0,
        plan_bindings().contains(Binding { element: 0, model: ONOFF_SERVER, app_key_index: 0 }),
        plan_bindings().contains(Binding { element: 0, model: LEVEL_SERVER, app_key_index: 0 }),
        plan_bindings().contains(Binding { element: 0, model: BATTERY_SERVER, app_key_index: 0 }),
        plan_bindings().contains(Binding { element: 0, model: SENSOR_SERVER, app_key_index: 0 }),
        plan_bindings().contains(Binding { element: 1, model: ONOFF_CLIENT, app_key_index: 0 }),
        plan_bindings().contains(Binding { element: 2, model: ONOFF_CLIENT, app_key_index: 0 }),
        forall|i: int|
            0 <= i < plan_bindings().len() ==> (#[trigger] plan_bindings()[i].element == 0 && (
            plan_bindings()[i].model == ONOFF_SERVER || plan_bindings()[i].model == LEVEL_SERVER
                || plan_bindings()[i].model == BATTERY_SERVER || plan_bindings()[i].model
                == SENSOR_SERVER)) || ((plan_bindings()[i].element == 1
                || plan_bindings()[i].element == 2) && plan_bindings()[i].model == ONOFF_CLIENT),
{
    let b = plan_bindings();
    assert(b[0] == (Binding { element: 0, model: ONOFF_SERVER, app_key_index: 0 }));
    assert(b[1] == (Binding { element: 0, model: LEVEL_SERVER, app_key_index: 0 }));
    assert(b[2] == (Binding { element: 0, model: BATTERY_SERVER, app_key_index: 0 }));
    assert(b[3] == (Binding { element: 0, model: SENSOR_SERVER, app_key_index: 0 }));
    assert(b[4] == (Binding { element: 1, model: ONOFF_CLIENT, app_key_index: 0 }));
    assert(b[5] == (Binding { element: 2, model: ONOFF_CLIENT, app_key_index: 0 }));
}

/// The publications of the front element (its battery and sensor servers)
/// are made from the node's own address, those of the buttons from the
/// address after it; every publication goes to the group label with
/// application key 0, and the front element publishes its battery server
/// every 60 seconds and its sensor server every second.
pub proof fn lemma_front_publications_from_node(node_address: u16)
    requires
        node_address < 0xFFFF,
    ensures
        forall|i: int|
            0 <= i < plan_publications(node_address).len() && #[trigger] plan_publications(
                node_address,
            )[i].element == 0 ==> plan_publications(node_address)[i].publication.element_address
                == node_address,
        forall|i: int|
            0 <= i < plan_publications(node_address).len() && #[trigger] plan_publications(
                node_address,
            )[i].element != 0 ==> plan_publications(node_address)[i].publication.element_address
                == node_address + 1,
        forall|i: int|
            0 <= i < plan_publications(node_address).len() ==> #[trigger] plan_publications(
                node_address,
            )[i].publication.label == GROUP_LABEL && plan_publications(node_address)[i].publication.app_key_index
                == 0,
        exists|i: int|
            0 <= i < plan_publications(node_address).len() && #[trigger] plan_publications(
                node_address,
            )[i].element == 0 && plan_publications(node_address)[i].publication.model
                == SENSOR_SERVER && plan_publications(node_address)[i].publication.period_secs
                == Some(1u8),
        exists|i: int|
            0 <= i < plan_publications(node_address).len() && #[trigger] plan_publications(
                node_address,
            )[i].element == 0 && plan_publications(node_address)[i].publication.model
                == BATTERY_SERVER && plan_publications(node_address)[i].publication.period_secs
                == Some(60u8),
{
    let p = plan_publications(node_address);
    assert(p[0].element == 0 && p[1].element == 0);
}

} // verus!
