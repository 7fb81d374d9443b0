//! The command engine: one-shot binding, discovery fan-out, pings,
//! object-list requests, and the full discovery scenario through the
//! dispatcher, the bus and the cache.

use rustygate::bus::{BusRecv, EventBus};
use rustygate::cache::DiscoveryCache;
use rustygate::dispatcher::{Dispatcher, RecvOutcome};
use rustygate::engine::{AfterBind, BindOutcome, Destination, Engine, EngineAction};
use rustygate::interface::{find_interface_ip, usable_interfaces, RawInterface};
use rustygate::types::{Command, Event};

use bacnet_rs::app::Apdu;
use bacnet_rs::object::{ObjectIdentifier, ObjectType};
use bacnet_rs::service::IAmRequest;

fn bind(engine: &mut Engine, name: &str, ip: &str) -> Vec<EngineAction> {
    let actions = engine.handle_command(&Command::BindInterface(name.to_string()));
    assert_eq!(actions.len(), 2);
    assert!(matches!(&actions[0], EngineAction::Emit(Event::StatusMessage(_))));
    match &actions[1] {
        EngineAction::OpenSocket { interface, then } => {
            assert_eq!(interface, name);
            assert!(matches!(then, AfterBind::Nothing));
        }
        other => panic!("expected a socket request, got {:?}", other),
    }
    engine.apply_bind_outcome(
        &name.to_string(),
        &BindOutcome::Bound { ip: ip.to_string() },
        &AfterBind::Nothing,
    )
}

#[test]
fn binding_announces_and_opens_once() {
    let mut engine = Engine::new();
    let after = bind(&mut engine, "eth0", "10.0.0.5");
    assert_eq!(after.len(), 1);
    match &after[0] {
        EngineAction::Emit(Event::StatusMessage(s)) => assert_eq!(s, "Bound to 10.0.0.5"),
        other => panic!("expected a status event, got {:?}", other),
    }
}

#[test]
fn rebinding_is_a_no_op() {
    let mut engine = Engine::new();
    bind(&mut engine, "eth0", "10.0.0.5");
    // Every later bind request, same interface or another, does nothing.
    assert!(engine.handle_command(&Command::BindInterface("eth0".to_string())).is_empty());
    assert!(engine.handle_command(&Command::BindInterface("eth0".to_string())).is_empty());
    assert!(engine.handle_command(&Command::BindInterface("eth1".to_string())).is_empty());
}

#[test]
fn failed_bind_leaves_engine_unbound_and_retryable() {
    let mut engine = Engine::new();
    let actions = engine.handle_command(&Command::BindInterface("eth9".to_string()));
    assert_eq!(actions.len(), 2);
    let after = engine.apply_bind_outcome(
        &"eth9".to_string(),
        &BindOutcome::InterfaceNotFound,
        &AfterBind::Nothing,
    );
    assert_eq!(after.len(), 1);
    match &after[0] {
        EngineAction::Emit(Event::StatusMessage(s)) => {
            assert_eq!(s, "Error: Interface not found: eth9")
        }
        other => panic!("expected a status event, got {:?}", other),
    }
    // Still unbound: the next bind request tries again.
    let retry = engine.handle_command(&Command::BindInterface("eth0".to_string()));
    assert_eq!(retry.len(), 2);
}

#[test]
fn failed_socket_open_reports_and_abandons_the_command() {
    let mut engine = Engine::new();
    let actions = engine.handle_command(&Command::BindAndDiscover("eth0".to_string()));
    let then = match &actions[1] {
        EngineAction::OpenSocket { then, .. } => then.clone(),
        other => panic!("expected a socket request, got {:?}", other),
    };
    // The socket could not be opened: the failure is announced and the
    // discovery that was to follow is abandoned.
    let after = engine.apply_bind_outcome(&"eth0".to_string(), &BindOutcome::BindFailed, &then);
    assert_eq!(after.len(), 1);
    match &after[0] {
        EngineAction::Emit(Event::StatusMessage(s)) => {
            assert_eq!(s, "Error: Bind failed on eth0")
        }
        other => panic!("expected a status event, got {:?}", other),
    }
    // Still unbound: discovery alone now only reports the missing binding.
    let actions = engine.handle_command(&Command::StartDiscovery);
    assert_eq!(actions.len(), 1);
}

#[test]
fn discovery_before_binding_reports_the_error() {
    let mut engine = Engine::new();
    let actions = engine.handle_command(&Command::StartDiscovery);
    assert_eq!(actions.len(), 1);
    match &actions[0] {
        EngineAction::Emit(Event::StatusMessage(s)) => assert_eq!(s, "Error: No interface bound"),
        other => panic!("expected a status event, got {:?}", other),
    }
}

#[test]
fn discovery_sends_general_and_directed_broadcast() {
    let mut engine = Engine::new();
    bind(&mut engine, "eth0", "10.0.0.5");
    let actions = engine.handle_command(&Command::StartDiscovery);
    assert_eq!(actions.len(), 2);
    match &actions[0] {
        EngineAction::SendThenEmit { destination, frame, on_success } => {
            assert!(matches!(destination, Destination::Broadcast));
            assert_eq!(frame, &vec![0x10, 0x08]);
            assert!(on_success.is_none());
        }
        other => panic!("expected a send, got {:?}", other),
    }
    match &actions[1] {
        EngineAction::SendThenEmit { destination, frame, on_success } => {
            match destination {
                Destination::Endpoint(e) => assert_eq!(e, "192.168.1.255:47808"),
                other => panic!("expected an endpoint, got {:?}", other),
            }
            assert_eq!(frame, &vec![0x10, 0x08]);
            match on_success {
                Some(Event::StatusMessage(s)) => assert_eq!(s, "Who-Is broadcasts sent"),
                other => panic!("expected a status event, got {:?}", other),
            }
        }
        other => panic!("expected a send, got {:?}", other),
    }
}

#[test]
fn bind_and_discover_runs_both_phases() {
    let mut engine = Engine::new();
    let actions = engine.handle_command(&Command::BindAndDiscover("eth0".to_string()));
    assert_eq!(actions.len(), 2);
    let then = match &actions[1] {
        EngineAction::OpenSocket { then, .. } => then.clone(),
        other => panic!("expected a socket request, got {:?}", other),
    };
    assert!(matches!(then, AfterBind::Discover));
    let after = engine.apply_bind_outcome(
        &"eth0".to_string(),
        &BindOutcome::Bound { ip: "10.0.0.5".to_string() },
        &then,
    );
    assert_eq!(after.len(), 3);
    assert!(matches!(&after[0], EngineAction::Emit(Event::StatusMessage(_))));
    assert!(matches!(&after[1], EngineAction::SendThenEmit { .. }));
    assert!(matches!(&after[2], EngineAction::SendThenEmit { .. }));
}

#[test]
fn ping_targets_the_well_known_port() {
    let mut engine = Engine::new();
    bind(&mut engine, "eth0", "10.0.0.5");
    let actions = engine.handle_command(&Command::Ping {
        interface: String::new(),
        target: "10.0.0.9".to_string(),
    });
    assert_eq!(actions.len(), 1);
    match &actions[0] {
        EngineAction::SendThenEmit { destination, frame, on_success } => {
            match destination {
                Destination::Endpoint(e) => assert_eq!(e, "10.0.0.9:47808"),
                other => panic!("expected an endpoint, got {:?}", other),
            }
            assert_eq!(frame, &vec![0x10, 0x08]);
            match on_success {
                Some(Event::StatusMessage(s)) => {
                    assert_eq!(s, "Sent targeted Who-Is to 10.0.0.9")
                }
                other => panic!("expected a status event, got {:?}", other),
            }
        }
        other => panic!("expected a send, got {:?}", other),
    }
}

#[test]
fn ping_without_interface_while_unbound_does_nothing() {
    let mut engine = Engine::new();
    let actions = engine.handle_command(&Command::Ping {
        interface: String::new(),
        target: "10.0.0.9".to_string(),
    });
    assert!(actions.is_empty());
}

#[test]
fn unimplemented_commands_are_ignored() {
    let mut engine = Engine::new();
    assert!(engine.handle_command(&Command::StopDiscovery).is_empty());
    assert!(engine
        .handle_command(&Command::WriteProperty {
            device_id: 1,
            object_type: 0,
            instance: 1,
            property: 85,
            value: "22.5".to_string(),
        })
        .is_empty());
}

#[test]
fn discover_objects_requests_the_object_list() {
    let mut engine = Engine::new();
    bind(&mut engine, "eth0", "10.0.0.5");
    let actions = engine.handle_command(&Command::DiscoverObjects {
        interface: String::new(),
        device_id: 99999,
        address: "10.0.0.7:47808".to_string(),
    });
    assert_eq!(actions.len(), 1);
    match &actions[0] {
        EngineAction::SendThenEmit { destination, frame, on_success } => {
            match destination {
                Destination::Endpoint(e) => assert_eq!(e, "10.0.0.7:47808"),
                other => panic!("expected an endpoint, got {:?}", other),
            }
            // The frame is a confirmed ReadProperty for the object list.
            assert_eq!(frame[0], 0x02);
            assert_eq!(frame[3], 12);
            match on_success {
                Some(Event::StatusMessage(s)) => {
                    assert_eq!(s, "Requested object list from device 99999")
                }
                other => panic!("expected a status event, got {:?}", other),
            }
        }
        other => panic!("expected a send, got {:?}", other),
    }
}

#[test]
fn interface_resolution_picks_the_first_usable_match() {
    let raw = vec![
        RawInterface {
            name: "lo".to_string(),
            ip: "127.0.0.1".to_string(),
            loopback: true,
            ipv4: true,
        },
        RawInterface {
            name: "eth0".to_string(),
            ip: "fe80::1".to_string(),
            loopback: false,
            ipv4: false,
        },
        RawInterface {
            name: "eth0".to_string(),
            ip: "10.0.0.5".to_string(),
            loopback: false,
            ipv4: true,
        },
        RawInterface {
            name: "eth0".to_string(),
            ip: "10.0.0.6".to_string(),
            loopback: false,
            ipv4: true,
        },
    ];
    assert_eq!(find_interface_ip(&raw, &"eth0".to_string()).unwrap(), "10.0.0.5");
    assert!(find_interface_ip(&raw, &"lo".to_string()).is_none());
    assert!(find_interface_ip(&raw, &"wlan0".to_string()).is_none());

    let usable = usable_interfaces(&raw);
    assert_eq!(usable.len(), 2);
    assert_eq!(usable[0].ip, "10.0.0.5");
    assert_eq!(usable[1].ip, "10.0.0.6");
}

#[test]
fn discovery_scenario_reaches_auto_object_request() {
    // Bind to an interface with IP 10.0.0.5 and start discovery.
    let mut engine = Engine::new();
    bind(&mut engine, "eth0", "10.0.0.5");
    let sends = engine.handle_command(&Command::StartDiscovery);
    assert_eq!(sends.len(), 2);

    // A simulated device with instance 99999 answers with an I-Am.
    let i_am = IAmRequest::new(
        ObjectIdentifier::new(ObjectType::Device, 99999),
        1476,
        0,
        999,
    );
    let mut data = Vec::new();
    i_am.encode(&mut data).unwrap();
    let reply = Apdu::UnconfirmedRequest { service_choice: 0, service_data: data }.encode();

    // Within one poll cycle the dispatcher turns it into a device event.
    let mut dispatcher = Dispatcher::new(60_000);
    let step = dispatcher.step(
        false,
        &RecvOutcome::Frame { data: reply, source: "10.0.0.5:47808".to_string() },
        60_100,
    );
    let event = step.event.expect("the I-Am must surface as an event");
    match &event {
        Event::DeviceDiscovered(device) => {
            assert_eq!(device.instance, 99999);
            assert_eq!(device.address, "10.0.0.5:47808");
        }
        other => panic!("expected a device event, got {:?}", other),
    }

    // The event reaches a subscriber through the bus.
    let mut bus = EventBus::new();
    let mut rx = bus.subscribe();
    bus.publish(event.clone());
    let delivered = match rx.recv(&bus) {
        BusRecv::Item(e) => e,
        other => panic!("expected delivery, got {:?}", other),
    };

    // The cache answers the new device with one object-discovery command.
    let mut cache = DiscoveryCache::new();
    let cmd = cache.on_event(delivered).expect("a new device triggers discovery");
    assert_eq!(
        cmd,
        Command::DiscoverObjects {
            interface: String::new(),
            device_id: 99999,
            address: "10.0.0.5:47808".to_string(),
        }
    );
}
