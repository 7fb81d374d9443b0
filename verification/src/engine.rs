//! The command engine: a single-consumer state machine over the command
//! queue and the only writer of the transport session's bound state.
//!
//! Each command becomes a list of [`EngineAction`]s for the surrounding
//! runtime to perform: events to broadcast, the one socket to open, frames
//! to put on the wire.  Binding is split in two: the engine asks for the
//! socket with an `OpenSocket` action carrying the rest of the command as an
//! [`AfterBind`] continuation, and the runtime reports back through
//! [`Engine::apply_bind_outcome`], which runs the continuation.  A bind
//! failure abandons the triggering command and leaves the engine unbound.

use vstd::prelude::*;
use vstd::string::StringExecFns;
use crate::client::{who_is_frame_bytes, read_property_frame_of, BacnetClient};
use crate::codec::{DEVICE_OBJECT_TYPE, OBJECT_LIST_PROPERTY};
use crate::text::{
    bind_failed_message, bind_failed_text, binding_message, binding_text, bound_message,
    bound_text, interface_not_found_message, interface_not_found_text, no_interface_message,
    no_interface_text, object_list_requested_message, object_list_requested_text,
    ping_sent_message, ping_sent_text, who_is_sent_message, who_is_sent_text,
};
use crate::types::{event_status, Command, Event};

verus! {

/// Where a frame goes: the subnet broadcast, or one endpoint in `ip:port`
/// text form.
#[derive(Debug, Clone)]
pub enum Destination {
    Broadcast,
    Endpoint(String),
}

/// What a command binds the rest of its work to, once the socket is open.
#[derive(Debug, Clone)]
pub enum AfterBind {
    Nothing,
    Discover,
    Ping { target: String },
    DiscoverObjects { device_id: u32, address: String },
}

/// How a bind attempt ended, reported by the runtime.
#[derive(Debug, Clone)]
pub enum BindOutcome {
    /// The socket is open on the interface's address (dotted-decimal text).
    Bound { ip: String },
    /// No usable interface of the requested name exists.
    InterfaceNotFound,
    /// The interface exists but the socket could not be opened.
    BindFailed,
}

/// One thing the runtime must do for the engine.
#[derive(Debug, Clone)]
pub enum EngineAction {
    /// Broadcast an event on the event bus.
    Emit(Event),
    /// Resolve the named interface, open the one socket on its address, and
    /// hand the outcome together with `then` back to `apply_bind_outcome`.
    OpenSocket { interface: String, then: AfterBind },
    /// Put the frame on the wire; if and only if the send succeeds (and the
    /// destination text parses as an address), broadcast `on_success`.
    SendThenEmit { destination: Destination, frame: Vec<u8>, on_success: Option<Event> },
}

/// Event carried by an `Emit` action.
pub open spec fn action_event(a: EngineAction) -> Event
    recommends
        a is Emit,
{
    match a {
        EngineAction::Emit(e) => e,
        _ => arbitrary(),
    }
}

/// Interface name carried by an `OpenSocket` action.
pub open spec fn action_interface(a: EngineAction) -> Seq<char>
    recommends
        a is OpenSocket,
{
    match a {
        EngineAction::OpenSocket { interface, .. } => interface@,
        _ => arbitrary(),
    }
}

/// Continuation carried by an `OpenSocket` action.
pub open spec fn action_then(a: EngineAction) -> AfterBind
    recommends
        a is OpenSocket,
{
    match a {
        EngineAction::OpenSocket { then, .. } => then,
        _ => arbitrary(),
    }
}

/// Destination of a `SendThenEmit` action.
pub open spec fn action_destination(a: EngineAction) -> Destination
    recommends
        a is SendThenEmit,
{
    match a {
        EngineAction::SendThenEmit { destination, .. } => destination,
        _ => arbitrary(),
    }
}

/// Frame bytes of a `SendThenEmit` action.
pub open spec fn action_frame(a: EngineAction) -> Seq<u8>
    recommends
        a is SendThenEmit,
{
    match a {
        EngineAction::SendThenEmit { frame, .. } => frame@,
        _ => arbitrary(),
    }
}

/// Success event of a `SendThenEmit` action.
pub open spec fn action_on_success(a: EngineAction) -> Option<Event>
    recommends
        a is SendThenEmit,
{
    match a {
        EngineAction::SendThenEmit { on_success, .. } => on_success,
        _ => arbitrary(),
    }
}

/// Endpoint text of a destination.
pub open spec fn endpoint_text(d: Destination) -> Seq<char>
    recommends
        d is Endpoint,
{
    match d {
        Destination::Endpoint(s) => s@,
        _ => arbitrary(),
    }
}

/// Target of a `Ping` continuation.
pub open spec fn after_ping_target(a: AfterBind) -> Seq<char>
    recommends
        a is Ping,
{
    match a {
        AfterBind::Ping { target } => target@,
        _ => arbitrary(),
    }
}

/// Device instance of a `DiscoverObjects` continuation.
pub open spec fn after_device_id(a: AfterBind) -> u32
    recommends
        a is DiscoverObjects,
{
    match a {
        AfterBind::DiscoverObjects { device_id, .. } => device_id,
        _ => arbitrary(),
    }
}

/// Device address of a `DiscoverObjects` continuation.
pub open spec fn after_address(a: AfterBind) -> Seq<char>
    recommends
        a is DiscoverObjects,
{
    match a {
        AfterBind::DiscoverObjects { address, .. } => address@,
        _ => arbitrary(),
    }
}

/// Whether a list of actions opens no socket.
pub open spec fn opens_no_socket(r: Seq<EngineAction>) -> bool {
    forall|i: int| 0 <= i < r.len() ==> !((#[trigger] r[i]) is OpenSocket)
}

/// A status event carrying the given text.
pub open spec fn is_status(e: Event, text: Seq<char>) -> bool {
    e is StatusMessage && event_status(e) == text
}

/// The two actions of a bind request: the announcement, then the socket.
pub open spec fn bind_request_shape(r: Seq<EngineAction>, name: Seq<char>) -> bool {
    r.len() == 2 && r[0] is Emit && is_status(action_event(r[0]), binding_text(name)) && r[1]
        is OpenSocket && action_interface(r[1]) == name
}

/// The two discovery sends: the general broadcast, then the directed
/// broadcast whose success is announced.  Both carry an open Who-Is.
pub open spec fn discovery_shape(r: Seq<EngineAction>) -> bool {
    r.len() == 2 && r[0] is SendThenEmit && action_destination(r[0]) is Broadcast && action_frame(
        r[0],
    ) == who_is_frame_bytes(None, None) && action_on_success(r[0]) is None && r[1] is SendThenEmit
        && action_destination(r[1]) is Endpoint && endpoint_text(action_destination(r[1]))
        == "192.168.1.255:47808"@ && action_frame(r[1]) == who_is_frame_bytes(None, None)
        && action_on_success(r[1]) is Some && is_status(
        action_on_success(r[1])->0,
        who_is_sent_text(),
    )
}

/// The one action of a directed Who-Is: sent to the target on the well-known
/// port, its success announced.
pub open spec fn ping_shape(r: Seq<EngineAction>, target: Seq<char>) -> bool {
    r.len() == 1 && r[0] is SendThenEmit && action_destination(r[0]) is Endpoint && endpoint_text(
        action_destination(r[0]),
    ) == target + ":47808"@ && action_frame(r[0]) == who_is_frame_bytes(None, None)
        && action_on_success(r[0]) is Some && is_status(
        action_on_success(r[0])->0,
        ping_sent_text(target),
    )
}

/// The one action of an object-list request: a ReadProperty for the
/// object-list property of the device object, under the given invoke id.
pub open spec fn object_request_shape(
    r: Seq<EngineAction>,
    device_id: u32,
    address: Seq<char>,
    invoke_id: u8,
) -> bool {
    r.len() == 1 && r[0] is SendThenEmit && action_destination(r[0]) is Endpoint && endpoint_text(
        action_destination(r[0]),
    ) == address && action_frame(r[0]) == read_property_frame_of(
        DEVICE_OBJECT_TYPE,
        device_id,
        OBJECT_LIST_PROPERTY,
        invoke_id,
    ) && action_on_success(r[0]) is Some && is_status(
        action_on_success(r[0])->0,
        object_list_requested_text(device_id as nat),
    )
}

/// The command engine's state: whether the one socket is bound, and the
/// transport session whose invoke-identifier counter it owns.  Binding is
/// one-shot for the engine's lifetime: once bound, every further bind
/// request is a no-op.
pub struct Engine {
    pub bound: bool,
    pub client: BacnetClient,
}

impl Engine {
    /// A fresh, unbound engine.
    pub fn new() -> (e: Self)
        ensures
            !e.bound,
            e.client.invoke_id == 0,
    {
        Engine { bound: false, client: BacnetClient::new() }
    }

    /// The two discovery sends from the bound state.
    fn discovery_actions(&self) -> (r: Vec<EngineAction>)
        ensures
            discovery_shape(r@),
            opens_no_socket(r@),
    {
        let mut r: Vec<EngineAction> = Vec::new();
        let general = self.client.who_is_frame(None, None);
        r.push(
            EngineAction::SendThenEmit {
                destination: Destination::Broadcast,
                frame: general,
                on_success: None,
            },
        );
        let directed = self.client.who_is_frame(None, None);
        r.push(
            EngineAction::SendThenEmit {
                destination: Destination::Endpoint(String::from_str("192.168.1.255:47808")),
                frame: directed,
                on_success: Some(Event::StatusMessage(who_is_sent_message())),
            },
        );
        r
    }

    /// The directed Who-Is of a ping, aimed at the target on the well-known
    /// port.
    fn ping_actions(&self, target: &String) -> (r: Vec<EngineAction>)
        ensures
            ping_shape(r@, target@),
            opens_no_socket(r@),
    {
        let frame = self.client.who_is_frame(None, None);
        let endpoint = String::from_str(target.as_str()).concat(":47808");
        let mut r: Vec<EngineAction> = Vec::new();
        r.push(
            EngineAction::SendThenEmit {
                destination: Destination::Endpoint(endpoint),
                frame,
                on_success: Some(Event::StatusMessage(ping_sent_message(target.as_str()))),
            },
        );
        r
    }

    /// The object-list request of a device, when its instance fits the wire
    /// format; nothing otherwise, as for every malformed request.
    fn object_actions(&mut self, device_id: u32, address: &String) -> (r: Vec<EngineAction>)
        ensures
            final(self).bound == old(self).bound,
            opens_no_socket(r@),
            device_id <= 0x3FFFFF ==> object_request_shape(
                r@,
                device_id,
                address@,
                old(self).client.invoke_id,
            ) && final(self).client.invoke_id == (old(self).client.invoke_id + 1) % 256,
            device_id > 0x3FFFFF ==> r@.len() == 0 && final(self).client.invoke_id == old(self).client.invoke_id,
    {
        let mut r: Vec<EngineAction> = Vec::new();
        match self.client.read_property_frame(DEVICE_OBJECT_TYPE, device_id, OBJECT_LIST_PROPERTY) {
            Ok((frame, _invoke_id)) => {
                r.push(
                    EngineAction::SendThenEmit {
                        destination: Destination::Endpoint(String::from_str(address.as_str())),
                        frame,
                        on_success: Some(
                            Event::StatusMessage(object_list_requested_message(device_id)),
                        ),
                    },
                );
            },
            Err(_) => {},
        }
        r
    }

    /// Consumes one command and decides everything the runtime must do for
    /// it.  The bound state never changes here: it only changes when the
    /// runtime reports a bind outcome.  A bound engine never opens another
    /// socket — binding is idempotent.
    pub fn handle_command(&mut self, cmd: &Command) -> (r: Vec<EngineAction>)
        ensures
            final(self).bound == old(self).bound,
            old(self).bound ==> opens_no_socket(r@),
            (cmd matches Command::BindInterface(name) ==> final(self).client.invoke_id == old(self).client.invoke_id && (if old(self).bound {
                r@.len() == 0
            } else {
                bind_request_shape(r@, name@) && action_then(r@[1]) is Nothing
            })),
            (cmd matches Command::BindAndDiscover(name) ==> final(self).client.invoke_id == old(self).client.invoke_id && (if old(self).bound {
                discovery_shape(r@)
            } else {
                bind_request_shape(r@, name@) && action_then(r@[1]) is Discover
            })),
            (cmd is StartDiscovery ==> final(self).client.invoke_id == old(self).client.invoke_id
                && (if old(self).bound {
                discovery_shape(r@)
            } else {
                r@.len() == 1 && r@[0] is Emit && is_status(action_event(r@[0]), no_interface_text())
            })),
            (cmd matches Command::Ping { interface, target } ==> final(self).client.invoke_id
                == old(self).client.invoke_id && (if old(self).bound {
                ping_shape(r@, target@)
            } else if interface@.len() > 0 {
                bind_request_shape(r@, interface@) && action_then(r@[1]) is Ping
                    && after_ping_target(action_then(r@[1])) == target@
            } else {
                r@.len() == 0
            })),
            (cmd matches Command::DiscoverObjects { interface, device_id, address } ==> (if old(self).bound {
                (if device_id <= 0x3FFFFF {
                    object_request_shape(r@, *device_id, address@, old(self).client.invoke_id)
                        && final(self).client.invoke_id == (old(self).client.invoke_id + 1) % 256
                } else {
                    r@.len() == 0 && final(self).client.invoke_id == old(self).client.invoke_id
                })
            } else if interface@.len() > 0 {
                bind_request_shape(r@, interface@) && action_then(r@[1]) is DiscoverObjects
                    && after_device_id(action_then(r@[1])) == *device_id && after_address(
                    action_then(r@[1]),
                ) == address@ && final(self).client.invoke_id == old(self).client.invoke_id
            } else {
                r@.len() == 0 && final(self).client.invoke_id == old(self).client.invoke_id
            })),
            (cmd is StopDiscovery || cmd is WriteProperty ==> r@.len() == 0 && final(self).client.invoke_id == old(self).client.invoke_id),
    {
        match cmd {
            Command::BindInterface(name) => {
                if self.bound {
                    Vec::new()
                } else {
                    self.bind_request(name, AfterBind::Nothing)
                }
            },
            Command::BindAndDiscover(name) => {
                if self.bound {
                    self.discovery_actions()
                } else {
                    self.bind_request(name, AfterBind::Discover)
                }
            },
            Command::StartDiscovery => {
                if self.bound {
                    self.discovery_actions()
                } else {
                    let mut r: Vec<EngineAction> = Vec::new();
                    r.push(EngineAction::Emit(Event::StatusMessage(no_interface_message())));
                    r
                }
            },
            Command::Ping { interface, target } => {
                if self.bound {
                    self.ping_actions(target)
                } else if !interface.as_str().is_empty() {
                    self.bind_request(
                        interface,
                        AfterBind::Ping { target: String::from_str(target.as_str()) },
                    )
                } else {
                    Vec::new()
                }
            },
            Command::DiscoverObjects { interface, device_id, address } => {
                if self.bound {
                    self.object_actions(*device_id, address)
                } else if !interface.as_str().is_empty() {
                    self.bind_request(
                        interface,
                        AfterBind::DiscoverObjects {
                            device_id: *device_id,
                            address: String::from_str(address.as_str()),
                        },
                    )
                } else {
                    Vec::new()
                }
            },
            Command::StopDiscovery => Vec::new(),
            Command::WriteProperty { .. } => Vec::new(),
        }
    }

    /// The bind announcement and the socket request.
    fn bind_request(&self, name: &String, then: AfterBind) -> (r: Vec<EngineAction>)
        ensures
            bind_request_shape(r@, name@),
            action_then(r@[1]) == then,
            !(r@[0] is OpenSocket),
    {
        let mut r: Vec<EngineAction> = Vec::new();
        r.push(EngineAction::Emit(Event::StatusMessage(binding_message(name.as_str()))));
        r.push(
            EngineAction::OpenSocket { interface: String::from_str(name.as_str()), then },
        );
        r
    }

    /// Applies a reported bind outcome and runs the continuation.  Success
    /// binds the engine for the rest of its life and announces the bound
    /// address before the continuation's sends; failure leaves the engine
    /// unbound, announces the failure, and abandons the continuation.
    pub fn apply_bind_outcome(&mut self, interface: &String, outcome: &BindOutcome, then: &AfterBind) -> (r:
        Vec<EngineAction>)
        ensures
            opens_no_socket(r@),
            (outcome is InterfaceNotFound ==> *final(self) == *old(self) && r@.len() == 1 && r@[0]
                is Emit && is_status(action_event(r@[0]), interface_not_found_text(interface@))),
            (outcome is BindFailed ==> *final(self) == *old(self) && r@.len() == 1 && r@[0] is Emit
                && is_status(action_event(r@[0]), bind_failed_text(interface@))),
            outcome is Bound ==> final(self).bound && r@.len() >= 1 && r@[0] is Emit && is_status(
                action_event(r@[0]),
                bound_text(bound_ip(*outcome)),
            ),
            (outcome is Bound && then is Nothing ==> r@.len() == 1 && final(self).client.invoke_id
                == old(self).client.invoke_id),
            (outcome is Bound && then is Discover ==> r@.len() == 3 && discovery_shape(r@.skip(1))
                && final(self).client.invoke_id == old(self).client.invoke_id),
            (outcome is Bound && then is Ping ==> r@.len() == 2 && ping_shape(
                r@.skip(1),
                after_ping_target(*then),
            ) && final(self).client.invoke_id == old(self).client.invoke_id),
            (outcome is Bound && then is DiscoverObjects ==> (if after_device_id(*then)
                <= 0x3FFFFF {
                r@.len() == 2 && object_request_shape(
                    r@.skip(1),
                    after_device_id(*then),
                    after_address(*then),
                    old(self).client.invoke_id,
                ) && final(self).client.invoke_id == (old(self).client.invoke_id + 1) % 256
            } else {
                r@.len() == 1 && final(self).client.invoke_id == old(self).client.invoke_id
            })),
    {
        match outcome {
            BindOutcome::InterfaceNotFound => {
                let mut r: Vec<EngineAction> = Vec::new();
                r.push(
                    EngineAction::Emit(
                        Event::StatusMessage(interface_not_found_message(interface.as_str())),
                    ),
                );
                r
            },
            BindOutcome::BindFailed => {
                let mut r: Vec<EngineAction> = Vec::new();
                r.push(
                    EngineAction::Emit(Event::StatusMessage(bind_failed_message(interface.as_str()))),
                );
                r
            },
            BindOutcome::Bound { ip } => {
                self.bound = true;
                let mut r: Vec<EngineAction> = Vec::new();
                r.push(EngineAction::Emit(Event::StatusMessage(bound_message(ip.as_str()))));
                let mut rest: Vec<EngineAction> = match then {
                    AfterBind::Nothing => Vec::new(),
                    AfterBind::Discover => self.discovery_actions(),
                    AfterBind::Ping { target } => self.ping_actions(target),
                    AfterBind::DiscoverObjects { device_id, address } => self.object_actions(
                        *device_id,
                        address,
                    ),
                };
                let ghost rest0 = rest@;
                r.append(&mut rest);
                proof {
                    assert(r@.skip(1) =~= rest0);
                    assert forall|i: int| 0 <= i < r@.len() implies !((#[trigger] r@[i])
                        is OpenSocket) by {
                        if i >= 1 {
                            assert(r@[i] == rest0[i - 1]);
                        }
                    }
                }
                r
            },
        }
    }
}

/// IP text reported by a successful bind outcome.
pub open spec fn bound_ip(o: BindOutcome) -> Seq<char>
    recommends
        o is Bound,
{
    match o {
        BindOutcome::Bound { ip } => ip@,
        _ => arbitrary(),
    }
}

} // verus!
