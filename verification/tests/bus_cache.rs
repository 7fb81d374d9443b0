//! The channel substrate and the cache: a full bus drops its oldest event
//! without blocking the producer, a full queue refuses without dropping, and
//! auto-discovery fires exactly once per device.

use rustygate::bus::{BusRecv, CommandQueue, EventBus, CHANNEL_CAPACITY};
use rustygate::cache::DiscoveryCache;
use rustygate::text::{decimal_string, device_name, object_name, object_type_name};
use rustygate::types::{BacnetDevice, BacnetObjectInfo, Command, Event};

fn status(n: u32) -> Event {
    Event::StatusMessage(format!("status {}", n))
}

fn device(instance: u32, address: &str) -> BacnetDevice {
    BacnetDevice {
        instance,
        address: address.to_string(),
        name: format!("Device {}", instance),
    }
}

#[test]
fn full_bus_drops_oldest_and_never_blocks_producer() {
    let mut bus = EventBus::new();
    let mut rx = bus.subscribe();

    // One hundred buffered-but-unconsumed events fill the retained window.
    for n in 0..CHANNEL_CAPACITY as u32 {
        bus.publish(status(n));
    }
    assert_eq!(bus.buffer.len(), CHANNEL_CAPACITY);
    assert_eq!(bus.evicted, 0);

    // The hundred-and-first returns normally; the oldest event is gone.
    bus.publish(status(100));
    assert_eq!(bus.buffer.len(), CHANNEL_CAPACITY);
    assert_eq!(bus.evicted, 1);

    // The lagging subscriber observes a gap, not a deadlock.
    match rx.recv(&bus) {
        BusRecv::Lagged(missed) => assert_eq!(missed, 1),
        other => panic!("expected a lag report, got {:?}", other),
    }
    match rx.recv(&bus) {
        BusRecv::Item(e) => assert_eq!(e, status(1)),
        other => panic!("expected the oldest retained event, got {:?}", other),
    }
}

#[test]
fn subscriber_in_step_sees_every_event() {
    let mut bus = EventBus::new();
    let mut rx = bus.subscribe();
    for n in 0..10 {
        bus.publish(status(n));
    }
    for n in 0..10 {
        match rx.recv(&bus) {
            BusRecv::Item(e) => assert_eq!(e, status(n)),
            other => panic!("expected an event, got {:?}", other),
        }
    }
    assert!(matches!(rx.recv(&bus), BusRecv::Empty));
}

#[test]
fn late_subscriber_sees_only_later_events() {
    let mut bus = EventBus::new();
    bus.publish(status(0));
    bus.publish(status(1));
    let mut rx = bus.subscribe();
    assert!(matches!(rx.recv(&bus), BusRecv::Empty));
    bus.publish(status(2));
    match rx.recv(&bus) {
        BusRecv::Item(e) => assert_eq!(e, status(2)),
        other => panic!("expected the later event, got {:?}", other),
    }
}

#[test]
fn queue_is_fifo_and_refuses_when_full() {
    let mut queue = CommandQueue::new(CHANNEL_CAPACITY);
    for _ in 0..CHANNEL_CAPACITY {
        assert!(queue.try_enqueue(Command::StartDiscovery));
    }
    // Beyond capacity the producer is refused; nothing is dropped.
    assert!(!queue.try_enqueue(Command::StopDiscovery));
    assert_eq!(queue.len(), CHANNEL_CAPACITY);

    let mut queue = CommandQueue::new(3);
    assert!(queue.try_enqueue(Command::BindInterface("eth0".to_string())));
    assert!(queue.try_enqueue(Command::StartDiscovery));
    assert!(queue.try_enqueue(Command::StopDiscovery));
    assert!(!queue.try_enqueue(Command::StartDiscovery));
    assert_eq!(queue.dequeue(), Some(Command::BindInterface("eth0".to_string())));
    assert_eq!(queue.dequeue(), Some(Command::StartDiscovery));
    // Room again: backpressure ended, the refused producer can offer anew.
    assert!(queue.try_enqueue(Command::StartDiscovery));
    assert_eq!(queue.dequeue(), Some(Command::StopDiscovery));
    assert_eq!(queue.dequeue(), Some(Command::StartDiscovery));
    assert_eq!(queue.dequeue(), None);
}

#[test]
fn new_device_triggers_discovery_exactly_once() {
    let mut cache = DiscoveryCache::new();
    let d = device(99999, "10.0.0.5:47808");

    let first = cache.on_event(Event::DeviceDiscovered(d.clone()));
    assert_eq!(
        first,
        Some(Command::DiscoverObjects {
            interface: String::new(),
            device_id: 99999,
            address: "10.0.0.5:47808".to_string(),
        })
    );

    // The same instance again — even from another address — is no trigger.
    let again = cache.on_event(Event::DeviceDiscovered(d.clone()));
    assert_eq!(again, None);
    let moved = cache.on_event(Event::DeviceDiscovered(device(99999, "10.0.0.9:47808")));
    assert_eq!(moved, None);

    // Last write wins: the cached address is the latest announced.
    assert_eq!(cache.get_device(99999).unwrap().address, "10.0.0.9:47808");

    // A different instance triggers its own discovery.
    let other = cache.on_event(Event::DeviceDiscovered(device(7, "10.0.0.7:47808")));
    assert!(other.is_some());
}

#[test]
fn cached_object_list_suppresses_the_trigger() {
    let mut cache = DiscoveryCache::new();
    let objects = vec![BacnetObjectInfo {
        object_type: 0,
        instance: 1,
        name: "AnalogInput 1".to_string(),
    }];
    assert_eq!(
        cache.on_event(Event::DeviceObjectsDiscovered { device_id: 99999, objects: objects.clone() }),
        None
    );
    // The device shows up after its list is already cached: no trigger.
    assert_eq!(
        cache.on_event(Event::DeviceDiscovered(device(99999, "10.0.0.5:47808"))),
        None
    );
    assert_eq!(cache.objects_for(99999).unwrap(), &objects);
}

#[test]
fn object_lists_are_replaced_wholesale() {
    let mut cache = DiscoveryCache::new();
    let first = vec![BacnetObjectInfo {
        object_type: 0,
        instance: 1,
        name: "AnalogInput 1".to_string(),
    }];
    let second = vec![BacnetObjectInfo {
        object_type: 3,
        instance: 2,
        name: "BinaryInput 2".to_string(),
    }];
    cache.on_event(Event::DeviceObjectsDiscovered { device_id: 7, objects: first });
    cache.on_event(Event::DeviceObjectsDiscovered { device_id: 7, objects: second.clone() });
    assert_eq!(cache.objects_for(7).unwrap(), &second);
}

#[test]
fn status_and_point_events_change_nothing() {
    let mut cache = DiscoveryCache::new();
    assert_eq!(cache.on_event(Event::StatusMessage("Bound to 10.0.0.5".to_string())), None);
    assert_eq!(
        cache.on_event(Event::PointUpdate {
            device_id: 1,
            object_id: "AI 1".to_string(),
            value_bits: 22.5_f32.to_bits(),
        }),
        None
    );
    assert!(cache.get_device(1).is_none());
    assert!(cache.objects_for(1).is_none());
}

#[test]
fn numbers_render_in_decimal() {
    assert_eq!(decimal_string(0), "0");
    assert_eq!(decimal_string(9), "9");
    assert_eq!(decimal_string(10), "10");
    assert_eq!(decimal_string(99999), "99999");
    assert_eq!(decimal_string(4294967295), "4294967295");
}

#[test]
fn display_names_match_the_codec_names() {
    assert_eq!(device_name(99999), "Device 99999");
    assert_eq!(object_type_name(0), "AnalogInput");
    assert_eq!(object_type_name(8), "Device");
    assert_eq!(object_type_name(30), "AccessDoor");
    assert_eq!(object_type_name(31), "Type31");
    assert_eq!(object_name(3, 1), "BinaryInput 1");

    // The names agree with the protocol crate's own type names.
    assert_eq!(
        object_type_name(0),
        format!("{:?}", bacnet_rs::object::ObjectType::AnalogInput)
    );
    assert_eq!(
        object_type_name(19),
        format!("{:?}", bacnet_rs::object::ObjectType::MultiStateValue)
    );
    assert_eq!(
        object_name(3, 1),
        format!("{:?} {}", bacnet_rs::object::ObjectType::BinaryInput, 1)
    );
}
