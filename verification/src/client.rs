//! The transport session: the wrapping invoke-identifier counter and the
//! construction of the request frames the gateway sends.
//!
//! The session owns no socket here.  It turns domain-level requests into
//! wire frames with exact byte contracts; putting the frames on the wire,
//! and the binding of the one socket, happen outside the library.

use vstd::prelude::*;
use crate::codec::{
    boolean_bytes, confirmed_request_frame_bytes, ctx_object_id_bytes, ctx_unsigned_bytes,
    encode_ctx_enumerated, encode_ctx_object_id, encode_unconfirmed_frame, encode_who_is_payload,
    real_bytes, unconfirmed_frame_bytes, who_is_payload_bytes, READ_PROPERTY_SERVICE,
    WHO_IS_SERVICE, WRITE_PROPERTY_SERVICE,
};
use crate::types::{PropertyValue, SessionError};

verus! {

/// A Who-Is frame as it goes on the wire.
pub open spec fn who_is_frame_bytes(low: Option<u32>, high: Option<u32>) -> Seq<u8> {
    unconfirmed_frame_bytes(WHO_IS_SERVICE, who_is_payload_bytes(low, high))
}

/// Service data of a ReadProperty request.
pub open spec fn read_property_payload_bytes(object_type: u16, instance: u32, property_id: u32) -> Seq<u8>
    recommends
        object_type <= 0x3FF,
        instance <= 0x3FFFFF,
{
    ctx_object_id_bytes(object_type, instance, 0) + ctx_unsigned_bytes(property_id, 1)
}

/// A ReadProperty request frame as it goes on the wire.
pub open spec fn read_property_frame_of(
    object_type: u16,
    instance: u32,
    property_id: u32,
    invoke_id: u8,
) -> Seq<u8>
    recommends
        object_type <= 0x3FF,
        instance <= 0x3FFFFF,
{
    confirmed_request_frame_bytes(
        invoke_id,
        READ_PROPERTY_SERVICE,
        read_property_payload_bytes(object_type, instance, property_id),
    )
}

/// Whether a property value has a wire encoding here: only reals and
/// booleans do.
pub open spec fn value_supported(v: PropertyValue) -> bool {
    v is RealBits || v is Boolean
}

/// Wire bytes of a supported property value.
pub open spec fn value_wire_bytes(v: PropertyValue) -> Seq<u8>
    recommends
        value_supported(v),
{
    match v {
        PropertyValue::RealBits(bits) => real_bytes(bits),
        PropertyValue::Boolean(b) => boolean_bytes(b),
        _ => Seq::empty(),
    }
}

/// Service data of a WriteProperty request: the object identifier, the
/// property identifier, then the value between opening and closing tag
/// three.
pub open spec fn write_property_payload_bytes(
    object_type: u16,
    instance: u32,
    property_id: u32,
    value: PropertyValue,
) -> Seq<u8>
    recommends
        object_type <= 0x3FF,
        instance <= 0x3FFFFF,
        value_supported(value),
{
    ctx_object_id_bytes(object_type, instance, 0) + ctx_unsigned_bytes(property_id, 1)
        + seq![0x3Eu8] + value_wire_bytes(value) + seq![0x3Fu8]
}

/// A WriteProperty request frame as it goes on the wire.
pub open spec fn write_property_frame_of(
    object_type: u16,
    instance: u32,
    property_id: u32,
    value: PropertyValue,
    invoke_id: u8,
) -> Seq<u8>
    recommends
        object_type <= 0x3FF,
        instance <= 0x3FFFFF,
        value_supported(value),
{
    confirmed_request_frame_bytes(
        invoke_id,
        WRITE_PROPERTY_SERVICE,
        write_property_payload_bytes(object_type, instance, property_id, value),
    )
}

/// The session state: the invoke-identifier counter for confirmed requests.
/// It increments on every confirmed request built and wraps from 255 back to
/// 0; no check is made against identifiers still logically in flight.
pub struct BacnetClient {
    pub invoke_id: u8,
}

impl BacnetClient {
    /// A fresh session; the first confirmed request uses invoke id zero.
    pub fn new() -> (c: Self)
        ensures
            c.invoke_id == 0,
    {
        BacnetClient { invoke_id: 0 }
    }

    /// Allocates the next invoke identifier, wrapping on overflow.
    fn next_invoke_id(&mut self) -> (id: u8)
        ensures
            id == old(self).invoke_id,
            final(self).invoke_id == (old(self).invoke_id + 1) % 256,
    {
        let id = self.invoke_id;
        self.invoke_id = self.invoke_id.wrapping_add(1);
        id
    }

    /// Builds a Who-Is discovery frame.  `low` and `high` bound the answering
    /// instance range when both are given; otherwise every device answers.
    /// Who-Is is unconfirmed, so no invoke identifier is consumed.
    pub fn who_is_frame(&self, low: Option<u32>, high: Option<u32>) -> (r: Vec<u8>)
        ensures
            r@ == who_is_frame_bytes(low, high),
    {
        let payload = encode_who_is_payload(low, high);
        encode_unconfirmed_frame(WHO_IS_SERVICE, payload)
    }

    /// Builds a ReadProperty request frame and hands back the invoke
    /// identifier allocated for it.  Fails, consuming nothing, when the
    /// object identifier does not fit the wire format.
    pub fn read_property_frame(&mut self, object_type: u16, instance: u32, property_id: u32) -> (r:
        Result<(Vec<u8>, u8), SessionError>)
        ensures
            r is Ok <== object_type <= 0x3FF && instance <= 0x3FFFFF,
            (r matches Ok(p) ==> object_type <= 0x3FF && instance <= 0x3FFFFF && p.0@
                == read_property_frame_of(object_type, instance, property_id, old(self).invoke_id)
                && p.1 == old(self).invoke_id && final(self).invoke_id == (old(self).invoke_id + 1)
                % 256),
            (r matches Err(e) ==> e == SessionError::ValueOutOfRange && (object_type > 0x3FF
                || instance > 0x3FFFFF) && final(self).invoke_id == old(self).invoke_id),
    {
        let mut payload = match encode_ctx_object_id(object_type, instance, 0) {
            Some(v) => v,
            None => {
                return Err(SessionError::ValueOutOfRange);
            },
        };
        let mut prop = encode_ctx_enumerated(property_id, 1);
        payload.append(&mut prop);
        let invoke_id = self.next_invoke_id();
        let frame = crate::codec::encode_confirmed_request_frame(
            invoke_id,
            READ_PROPERTY_SERVICE,
            payload,
        );
        Ok((frame, invoke_id))
    }

    /// Builds a WriteProperty request frame and hands back the invoke
    /// identifier allocated for it.  An out-of-range object identifier or an
    /// unsupported value kind fails before any frame exists and consumes no
    /// invoke identifier.
    pub fn write_property_frame(
        &mut self,
        object_type: u16,
        instance: u32,
        property_id: u32,
        value: &PropertyValue,
    ) -> (r: Result<(Vec<u8>, u8), SessionError>)
        ensures
            r is Ok <== object_type <= 0x3FF && instance <= 0x3FFFFF && value_supported(*value),
            (r matches Ok(p) ==> object_type <= 0x3FF && instance <= 0x3FFFFF && value_supported(
                *value,
            ) && p.0@ == write_property_frame_of(
                object_type,
                instance,
                property_id,
                *value,
                old(self).invoke_id,
            ) && p.1 == old(self).invoke_id && final(self).invoke_id == (old(self).invoke_id + 1)
                % 256),
            (r matches Err(e) ==> final(self).invoke_id == old(self).invoke_id && e == (
            if object_type > 0x3FF || instance > 0x3FFFFF {
                SessionError::ValueOutOfRange
            } else {
                SessionError::UnsupportedValueType
            })),
    {
        let mut payload = match encode_ctx_object_id(object_type, instance, 0) {
            Some(v) => v,
            None => {
                return Err(SessionError::ValueOutOfRange);
            },
        };
        let mut prop = encode_ctx_enumerated(property_id, 1);
        payload.append(&mut prop);
        payload.push(0x3E);
        match value {
            PropertyValue::RealBits(bits) => {
                payload.push(0x44);
                payload.push((*bits >> 24) as u8);
                payload.push((*bits >> 16) as u8);
                payload.push((*bits >> 8) as u8);
                payload.push(*bits as u8);
            },
            PropertyValue::Boolean(b) => {
                if *b {
                    payload.push(0x11);
                } else {
                    payload.push(0x10);
                }
            },
            _ => {
                return Err(SessionError::UnsupportedValueType);
            },
        }
        payload.push(0x3F);
        proof {
            assert(payload@ =~= write_property_payload_bytes(
                object_type,
                instance,
                property_id,
                *value,
            ));
        }
        let invoke_id = self.next_invoke_id();
        let frame = crate::codec::encode_confirmed_request_frame(
            invoke_id,
            WRITE_PROPERTY_SERVICE,
            payload,
        );
        Ok((frame, invoke_id))
    }
}

} // verus!
