use vstd::prelude::*;

verus! {

/// An operator intent.  Commands are produced by UI or CLI collaborators and
/// consumed exactly once by the command engine, in arrival order.
#[derive(Debug, Clone, PartialEq, Eq)]
pub enum Command {
    StartDiscovery,
    StopDiscovery,
    BindInterface(String),
    /// Binds and starts discovery immediately.
    BindAndDiscover(String),
    /// Send a directed Who-Is to a single target address.
    Ping { interface: String, target: String },
    DiscoverObjects { interface: String, device_id: u32, address: String },
    WriteProperty {
        device_id: u32,
        object_type: u16,
        instance: u32,
        property: u32,
        value: String,
    },
}

/// An observable outcome, broadcast to any number of subscribers.
#[derive(Debug, Clone, PartialEq, Eq)]
pub enum Event {
    DeviceDiscovered(BacnetDevice),
    DeviceObjectsDiscovered { device_id: u32, objects: Vec<BacnetObjectInfo> },
    /// `value_bits` carries the reading as its IEEE-754 single-precision bit
    /// pattern; this crate never computes on it.
    PointUpdate { device_id: u32, object_id: String, value_bits: u32 },
    StatusMessage(String),
}

/// Device instance named by an object-discovery command.
pub open spec fn command_device_id(c: Command) -> u32
    recommends
        c is DiscoverObjects,
{
    match c {
        Command::DiscoverObjects { device_id, .. } => device_id,
        _ => arbitrary(),
    }
}

/// Device address named by an object-discovery command.
pub open spec fn command_address(c: Command) -> Seq<char>
    recommends
        c is DiscoverObjects,
{
    match c {
        Command::DiscoverObjects { address, .. } => address@,
        _ => arbitrary(),
    }
}

/// Interface named by an object-discovery command.
pub open spec fn command_interface(c: Command) -> Seq<char>
    recommends
        c is DiscoverObjects,
{
    match c {
        Command::DiscoverObjects { interface, .. } => interface@,
        _ => arbitrary(),
    }
}

/// The device announced by a discovery event.
pub open spec fn event_device(e: Event) -> BacnetDevice
    recommends
        e is DeviceDiscovered,
{
    match e {
        Event::DeviceDiscovered(d) => d,
        _ => arbitrary(),
    }
}

/// The device instance an object-list event is keyed to.
pub open spec fn event_device_id(e: Event) -> u32
    recommends
        e is DeviceObjectsDiscovered,
{
    match e {
        Event::DeviceObjectsDiscovered { device_id, .. } => device_id,
        _ => arbitrary(),
    }
}

/// The objects carried by an object-list event.
pub open spec fn event_objects(e: Event) -> Seq<BacnetObjectInfo>
    recommends
        e is DeviceObjectsDiscovered,
{
    match e {
        Event::DeviceObjectsDiscovered { objects, .. } => objects@,
        _ => arbitrary(),
    }
}

/// The text carried by a status event.
pub open spec fn event_status(e: Event) -> Seq<char>
    recommends
        e is StatusMessage,
{
    match e {
        Event::StatusMessage(s) => s@,
        _ => arbitrary(),
    }
}

/// A sub-object advertised by a device, keyed to its parent device instance.
#[derive(Debug, Clone, PartialEq, Eq)]
pub struct BacnetObjectInfo {
    pub object_type: u16,
    pub instance: u32,
    pub name: String,
}

/// Identity of a discovered device.  Immutable once constructed; a later
/// discovery of the same instance supersedes, never merges.
#[derive(Debug, Clone, PartialEq, Eq)]
pub struct BacnetDevice {
    pub instance: u32,
    pub address: String,
    pub name: String,
}

/// A network interface candidate for binding, as plain values.  The
/// enumeration itself happens outside this library; `ip` is the interface's
/// address in dotted-decimal text.
#[derive(Debug, Clone, PartialEq, Eq)]
pub struct NetworkInterface {
    pub name: String,
    pub ip: String,
}

/// A property value the session can write.  Only `RealBits` and `Boolean`
/// have a wire encoding here; `RealBits` carries the IEEE-754 bit pattern of
/// a 32-bit real.
#[derive(Debug, Clone, PartialEq, Eq)]
pub enum PropertyValue {
    Null,
    Boolean(bool),
    UnsignedInteger(u32),
    SignedInteger(i32),
    RealBits(u32),
    OctetString(Vec<u8>),
    CharacterString(String),
    Enumerated(u32),
}

/// Why the session refused to build a request frame.
#[derive(Debug, Clone, Copy, PartialEq, Eq)]
pub enum SessionError {
    /// The value kind has no supported wire encoding.
    UnsupportedValueType,
    /// An object type or instance number exceeds its wire-format range.
    ValueOutOfRange,
}

} // verus!
