//! The receive dispatcher: classification of inbound frames into events, and
//! the decisions of the receive loop (shutdown, idle throttling, error
//! counting with rate-limited logging).
//!
//! The blocking receive itself runs outside the library; each iteration
//! hands its outcome and the current time to [`Dispatcher::step`], which
//! never fails and exits only on the shutdown flag.

use vstd::prelude::*;
use vstd::string::StringExecFns;
use crate::codec::{
    canonical_i_am, canonical_rp_ack, decode_apdu, i_am_instance_of, rp_instance, rp_property,
    rp_value, ApduFrame, I_AM_SERVICE, OBJECT_LIST_PROPERTY, READ_PROPERTY_SERVICE,
};
use crate::discovery::{
    items_from, object_infos, parse_i_am, parse_object_list, parse_read_property_response,
    standard_list_from,
};
use crate::text::{device_name_text, object_name_text};
use crate::types::{event_device, event_device_id, event_objects, Event};

verus! {

/// The envelope shapes that can produce an event: an unconfirmed request or
/// a complex acknowledgment.  Anything else is foreign or malformed traffic,
/// dropped without a word on a broadcast medium.
pub open spec fn well_formed_inbound(d: Seq<u8>) -> bool {
    d.len() >= 2 && ((d[0] >> 4) == 1 || (d[0] >> 4) == 3)
}

/// A complete canonical I-Am announcement frame carrying a device instance.
pub open spec fn i_am_frame_shape(d: Seq<u8>) -> bool {
    d.len() >= 2 && (d[0] >> 4) == 1 && d[1] == I_AM_SERVICE && canonical_i_am(d.skip(2))
}

/// A complete canonical object-list acknowledgment frame: a non-segmented
/// complex ack for ReadProperty, answering for the object-list property with
/// a well-formed list of short-form object identifiers.
pub open spec fn object_list_ack_shape(d: Seq<u8>) -> bool {
    d.len() >= 3 && (d[0] >> 4) == 3 && (d[0] & 0x08) == 0 && d[2] == READ_PROPERTY_SERVICE
        && canonical_rp_ack(d.skip(3)) && rp_property(d.skip(3)) == OBJECT_LIST_PROPERTY
        && standard_list_from(rp_value(d.skip(3)), 0)
}

/// Classifies one inbound frame.  An I-Am announcement becomes
/// `DeviceDiscovered`, with the device's address taken from the packet's
/// source endpoint; a ReadProperty acknowledgment for the object-list
/// property becomes `DeviceObjectsDiscovered`, keyed by the object
/// identifier inside the response.  Everything else yields nothing.
pub fn classify_frame(data: &[u8], source: &str) -> (r: Option<Event>)
    ensures
        !well_formed_inbound(data@) ==> r is None,
        (r matches Some(e) ==> e is DeviceDiscovered || e is DeviceObjectsDiscovered),
        (r matches Some(e) ==> (e is DeviceDiscovered ==> (data@[0] >> 4) == 1 && data@[1]
            == I_AM_SERVICE && event_device(e).instance < 0x400000 && event_device(e).address@
            == source@ && event_device(e).name@ == device_name_text(
            event_device(e).instance as nat,
        ))),
        (r matches Some(e) ==> (e is DeviceDiscovered && data@.len() >= 7 && data@[2] == 0xC4
            ==> event_device(e).instance == i_am_instance_of(data@.skip(2)))),
        (r matches Some(e) ==> (e is DeviceObjectsDiscovered ==> (data@[0] >> 4) == 3)),
        i_am_frame_shape(data@) ==> r is Some && r->0 is DeviceDiscovered,
        object_list_ack_shape(data@) ==> r is Some && r->0 is DeviceObjectsDiscovered
            && event_device_id(r->0) == rp_instance(data@.skip(3)) && event_objects(r->0).len()
            == items_from(rp_value(data@.skip(3)), 0).len() && (forall|i: int|
            0 <= i < event_objects(r->0).len() ==> (#[trigger] event_objects(r->0)[i]).object_type
                == items_from(rp_value(data@.skip(3)), 0)[i].0 && event_objects(r->0)[i].instance
                == items_from(rp_value(data@.skip(3)), 0)[i].1 && event_objects(r->0)[i].name@
                == object_name_text(
                items_from(rp_value(data@.skip(3)), 0)[i].0,
                items_from(rp_value(data@.skip(3)), 0)[i].1 as nat,
            )),
{
    match decode_apdu(data) {
        None => None,
        Some(frame) => match frame {
            ApduFrame::Unconfirmed { .. } => {
                match parse_i_am(&frame) {
                    Some(device) => {
                        let named = crate::types::BacnetDevice {
                            instance: device.instance,
                            address: String::from_str(source),
                            name: device.name,
                        };
                        Some(Event::DeviceDiscovered(named))
                    },
                    None => None,
                }
            },
            ApduFrame::ComplexAck { .. } => {
                match parse_read_property_response(&frame) {
                    Some(ack) => {
                        if ack.property_id == OBJECT_LIST_PROPERTY {
                            let items = parse_object_list(ack.value.as_slice());
                            let objects = object_infos(&items);
                            Some(
                                Event::DeviceObjectsDiscovered {
                                    device_id: ack.instance,
                                    objects,
                                },
                            )
                        } else {
                            None
                        }
                    },
                    None => None,
                }
            },
            ApduFrame::Other => None,
        },
    }
}

/// What the receive loop got from the transport on one iteration.
pub enum RecvOutcome {
    /// A frame arrived, with the text form of its source endpoint.
    Frame { data: Vec<u8>, source: String },
    /// Nothing arrived before the receive timeout; not an error.
    Idle,
    /// A genuine transport error.
    TransportError,
}

/// Frame bytes of an outcome; empty when none arrived.
pub open spec fn outcome_data(o: RecvOutcome) -> Seq<u8> {
    match o {
        RecvOutcome::Frame { data, .. } => data@,
        _ => Seq::empty(),
    }
}

/// Source endpoint of an outcome; empty when none arrived.
pub open spec fn outcome_source(o: RecvOutcome) -> Seq<char> {
    match o {
        RecvOutcome::Frame { source, .. } => source@,
        _ => Seq::empty(),
    }
}

/// What the receive loop must do after one iteration.
pub struct DispatchStep {
    /// Leave the loop; set only by shutdown.
    pub exit: bool,
    /// Sleep the fixed throttle interval before the next iteration.
    pub sleep: bool,
    /// Log the transport error now; rate-limited to one per cooldown window.
    pub log_error: bool,
    /// The event to broadcast, if the frame produced one.
    pub event: Option<Event>,
}

/// Milliseconds of quiet between two logged transport errors.
pub const ERROR_LOG_COOLDOWN_MS: u64 = 10_000;

/// The receive loop's own state: how many genuine transport errors have
/// accumulated since the last good frame, and when one was last logged.
pub struct Dispatcher {
    pub error_count: u64,
    pub last_error_log_ms: u64,
}

impl Dispatcher {
    /// A fresh dispatcher at time `now_ms`.  The log clock starts one minute
    /// in the past so the first transport error is logged at once.
    pub fn new(now_ms: u64) -> (d: Self)
        ensures
            d.error_count == 0,
            d.last_error_log_ms == if now_ms >= 60_000 {
                (now_ms - 60_000) as u64
            } else {
                0u64
            },
    {
        Dispatcher {
            error_count: 0,
            last_error_log_ms: if now_ms >= 60_000 {
                now_ms - 60_000
            } else {
                0
            },
        }
    }

    /// One iteration's decision.  Exits only on shutdown; a frame resets the
    /// error counter and is classified; idle iterations sleep; a transport
    /// error bumps the counter, is logged at most once per cooldown window,
    /// and the loop goes on — the dispatcher never gives up on errors.
    pub fn step(&mut self, shutdown: bool, outcome: &RecvOutcome, now_ms: u64) -> (r: DispatchStep)
        ensures
            r.exit == shutdown,
            shutdown ==> *final(self) == *old(self) && r.event is None && !r.sleep && !r.log_error,
            !shutdown && outcome is Frame ==> final(self).error_count == 0
                && final(self).last_error_log_ms == old(self).last_error_log_ms && !r.sleep
                && !r.log_error,
            !shutdown && outcome is Frame && !well_formed_inbound(outcome_data(*outcome))
                ==> r.event is None,
            (!shutdown && outcome is Frame ==> (r.event matches Some(e) ==> e is DeviceDiscovered
                || e is DeviceObjectsDiscovered)),
            !shutdown && outcome is Frame && i_am_frame_shape(outcome_data(*outcome)) ==> (
            r.event matches Some(e) && e is DeviceDiscovered && event_device(e).address@
                == outcome_source(*outcome)),
            !shutdown && outcome is Frame && i_am_frame_shape(outcome_data(*outcome))
                && outcome_data(*outcome)[2] == 0xC4 ==> (r.event matches Some(e)
                && event_device(e).instance == i_am_instance_of(outcome_data(*outcome).skip(2))),
            !shutdown && outcome is Frame && object_list_ack_shape(outcome_data(*outcome)) ==> (
            r.event matches Some(e) && e is DeviceObjectsDiscovered && event_device_id(e)
                == rp_instance(outcome_data(*outcome).skip(3))),
            !shutdown && outcome is Idle ==> *final(self) == *old(self) && r.sleep && !r.log_error
                && r.event is None,
            !shutdown && outcome is TransportError ==> final(self).error_count == (
            if old(self).error_count < u64::MAX {
                (old(self).error_count + 1) as u64
            } else {
                u64::MAX
            }) && r.sleep && r.event is None,
            !shutdown && outcome is TransportError ==> r.log_error == (
            if now_ms >= old(self).last_error_log_ms {
                now_ms - old(self).last_error_log_ms > ERROR_LOG_COOLDOWN_MS
            } else {
                false
            }),
            !shutdown && outcome is TransportError ==> final(self).last_error_log_ms == (
            if r.log_error {
                now_ms
            } else {
                old(self).last_error_log_ms
            }),
    {
        if shutdown {
            return DispatchStep { exit: true, sleep: false, log_error: false, event: None };
        }
        match outcome {
            RecvOutcome::Frame { data, source } => {
                self.error_count = 0;
                let event = classify_frame(data.as_slice(), source.as_str());
                DispatchStep { exit: false, sleep: false, log_error: false, event }
            },
            RecvOutcome::Idle => {
                DispatchStep { exit: false, sleep: true, log_error: false, event: None }
            },
            RecvOutcome::TransportError => {
                if self.error_count < u64::MAX {
                    self.error_count = self.error_count + 1;
                }
                let elapsed = if now_ms >= self.last_error_log_ms {
                    now_ms - self.last_error_log_ms
                } else {
                    0
                };
                let log_error = elapsed > ERROR_LOG_COOLDOWN_MS;
                if log_error {
                    self.last_error_log_ms = now_ms;
                }
                DispatchStep { exit: false, sleep: true, log_error, event: None }
            },
        }
    }
}

} // verus!
