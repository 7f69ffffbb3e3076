use eclipsecon_mesh::operator::{
    address_alias, apply_event, command_topic, ensure_alias, plan_provisioning, route_event,
    subscription_topic, BtMeshCommand, BtMeshDeviceState, BtMeshEvent, BtMeshOperation,
    BtMeshSpec, BtMeshStatus, EventRoute,
};

fn condition(
    c: &drogue_client::core::v1::Conditions,
    kind: &str,
) -> Option<(String, Option<String>, Option<String>)> {
    let v = serde_json::to_value(c).unwrap();
    let text = |x: &serde_json::Value, k: &str| x.get(k).and_then(|t| t.as_str()).map(|t| t.to_string());
    v.as_array()
        .unwrap()
        .iter()
        .find(|x| text(x, "type").as_deref() == Some(kind))
        .map(|x| (text(x, "status").unwrap(), text(x, "reason"), text(x, "message")))
}

fn s(t: &str) -> String {
    t.to_string()
}

#[test]
fn topics() {
    assert_eq!(command_topic("eclipsecon", "dev1"), "command/eclipsecon/dev1/btmesh");
    assert_eq!(subscription_topic(Some("grp"), "app1"), "$shared/grp/app/app1");
    assert_eq!(subscription_topic(None, "app1"), "app/app1");
}

#[test]
fn alias_of_address_is_hex_high_byte_first() {
    assert_eq!(address_alias(0x0100), "0100");
    assert_eq!(address_alias(0x1234), "1234");
    assert_eq!(address_alias(0xABCD), "abcd");
    assert_eq!(address_alias(0x0001), "0001");
    assert_ne!(address_alias(0x0001), address_alias(0x0100));
}

#[test]
fn ensure_alias_appends_once() {
    let a = ensure_alias(vec![s("x"), s("y")], "z");
    assert_eq!(a, vec![s("x"), s("y"), s("z")]);
    let b = ensure_alias(a.clone(), "z");
    assert_eq!(b, a);
    let c = ensure_alias(vec![s("x"), s("y")], "x");
    assert_eq!(c, vec![s("x"), s("y")]);
    assert_eq!(ensure_alias(vec![], "q"), vec![s("q")]);
}

#[test]
fn new_device_is_sent_provision_command() {
    let spec = BtMeshSpec { device: s("ABCDef0123") };
    let plan = plan_provisioning("app", "dev", &spec, None, false);
    assert_eq!(plan.topic, "command/app/dev/btmesh");
    assert_eq!(plan.alias, "abcdef0123");
    assert!(plan.set_finalizer);
    assert_eq!(plan.status.address, None);
    assert_eq!(plan.status.state, BtMeshDeviceState::Provisioning { error: None });
    assert!(plan.status.conditions.0.is_empty());
    match plan.command {
        Some(BtMeshCommand { command: BtMeshOperation::Provision { device } }) => {
            assert_eq!(device, "abcdef0123")
        }
        other => panic!("unexpected command {:?}", other),
    }
}

#[test]
fn provisioned_device_gets_no_command() {
    let spec = BtMeshSpec { device: s("u") };
    let status = BtMeshStatus {
        conditions: drogue_client::core::v1::Conditions::default(),
        state: BtMeshDeviceState::Provisioned { address: 5 },
        address: Some(5),
    };
    let plan = plan_provisioning("a", "d", &spec, Some(status), false);
    assert!(plan.command.is_none());
    assert_eq!(plan.status.address, Some(5));
}

#[test]
fn deleted_device_is_reset_when_it_has_an_address() {
    let spec = BtMeshSpec { device: s("u") };
    let status = BtMeshStatus {
        conditions: drogue_client::core::v1::Conditions::default(),
        state: BtMeshDeviceState::Provisioned { address: 0x0100 },
        address: Some(0x0100),
    };
    let plan = plan_provisioning("a", "d", &spec, Some(status), true);
    assert!(!plan.set_finalizer);
    match plan.command {
        Some(BtMeshCommand { command: BtMeshOperation::Reset { address } }) => {
            assert_eq!(address, 0x0100)
        }
        other => panic!("unexpected command {:?}", other),
    }
    let plan = plan_provisioning("a", "d", &spec, None, true);
    assert!(plan.command.is_none());
}

#[test]
fn route_by_subject() {
    let attrs = vec![
        (s("id"), Some(s("1"))),
        (s("subject"), Some(s("btmesh"))),
        (s("device"), Some(s("dev7"))),
    ];
    match route_event(&attrs) {
        EventRoute::DeviceEvent { device } => assert_eq!(device, "dev7"),
        other => panic!("unexpected route {:?}", other),
    }
    let attrs = vec![(s("subject"), Some(s("devices")))];
    assert!(matches!(route_event(&attrs), EventRoute::ListDevices));
    let attrs = vec![(s("subject"), Some(s("other"))), (s("device"), Some(s("d")))];
    assert!(matches!(route_event(&attrs), EventRoute::Ignore));
    let attrs = vec![(s("subject"), None)];
    assert!(matches!(route_event(&attrs), EventRoute::Ignore));
}

#[test]
fn route_takes_last_text_value() {
    let attrs = vec![
        (s("subject"), Some(s("devices"))),
        (s("device"), Some(s("first"))),
        (s("subject"), Some(s("btmesh"))),
        (s("device"), None),
        (s("device"), Some(s("second"))),
    ];
    match route_event(&attrs) {
        EventRoute::DeviceEvent { device } => assert_eq!(device, "second"),
        other => panic!("unexpected route {:?}", other),
    }
}

#[test]
fn provisioned_event_sets_conditions_and_alias() {
    let out = apply_event(
        None,
        BtMeshEvent { status: BtMeshDeviceState::Provisioned { address: 0x0100 } },
    );
    assert_eq!(out.status.state, BtMeshDeviceState::Provisioned { address: 0x0100 });
    assert_eq!(out.status.address, None);
    assert!(out.keep_finalizer);
    assert_eq!(out.alias.as_deref(), Some("0100"));
    assert_eq!(condition(&out.status.conditions, "Provisioned"), Some((s("True"), None, None)));
    assert_eq!(condition(&out.status.conditions, "Provisioning"), Some((s("False"), None, None)));
}

#[test]
fn reset_without_error_releases_finalizer() {
    let mut conditions = drogue_client::core::v1::Conditions::default();
    conditions.update("Provisioned", true);
    let current = BtMeshStatus {
        conditions,
        state: BtMeshDeviceState::Provisioned { address: 3 },
        address: Some(3),
    };
    let out = apply_event(
        Some(current),
        BtMeshEvent { status: BtMeshDeviceState::Reset { error: None } },
    );
    assert!(!out.keep_finalizer);
    assert!(out.alias.is_none());
    // the state and address recorded before stay
    assert_eq!(out.status.state, BtMeshDeviceState::Provisioned { address: 3 });
    assert_eq!(out.status.address, Some(3));
    assert_eq!(out.status.conditions.0.len(), 2);
    assert_eq!(condition(&out.status.conditions, "Provisioned"), Some((s("False"), None, None)));
    assert_eq!(condition(&out.status.conditions, "Provisioning"), Some((s("False"), None, None)));
}

#[test]
fn reset_with_error_keeps_finalizer() {
    let out = apply_event(
        None,
        BtMeshEvent { status: BtMeshDeviceState::Reset { error: Some(s("boom")) } },
    );
    assert!(out.keep_finalizer);
    assert_eq!(
        condition(&out.status.conditions, "Provisioned"),
        Some((s("True"), Some(s("Error resetting device")), Some(s("boom"))))
    );
    assert_eq!(condition(&out.status.conditions, "Provisioning"), Some((s("False"), None, None)));
}

#[test]
fn provisioning_event_conditions() {
    let out = apply_event(
        None,
        BtMeshEvent { status: BtMeshDeviceState::Provisioning { error: Some(s("no")) } },
    );
    assert_eq!(condition(&out.status.conditions, "Provisioning"), Some((s("True"), None, None)));
    assert_eq!(
        condition(&out.status.conditions, "Provisioned"),
        Some((s("False"), Some(s("Error provisioning device")), Some(s("no"))))
    );
    let out = apply_event(
        None,
        BtMeshEvent { status: BtMeshDeviceState::Provisioning { error: None } },
    );
    assert_eq!(condition(&out.status.conditions, "Provisioned"), Some((s("Unknown"), None, None)));
}
