//! The protocol-codec boundary.
//!
//! Byte layouts of the frames this gateway sends and reads are stated here
//! as spec functions; the encoding and decoding work itself is done by the
//! `bacnet_rs` crate behind the trusted wrappers at the bottom of the file.

use vstd::prelude::*;

verus! {

/// Unconfirmed service choice of an I-Am announcement.
pub const I_AM_SERVICE: u8 = 0;

/// Unconfirmed service choice of a Who-Is discovery request.
pub const WHO_IS_SERVICE: u8 = 8;

/// Confirmed service choice of a ReadProperty request or acknowledgment.
pub const READ_PROPERTY_SERVICE: u8 = 12;

/// Confirmed service choice of a WriteProperty request.
pub const WRITE_PROPERTY_SERVICE: u8 = 15;

/// Property identifier of a device's object list.
pub const OBJECT_LIST_PROPERTY: u32 = 76;

/// Object type number of a device object.
pub const DEVICE_OBJECT_TYPE: u16 = 8;

/// The four big-endian bytes of a 32-bit word.
pub open spec fn be4(n: u32) -> Seq<u8> {
    seq![(n >> 24) as u8, (n >> 16) as u8, (n >> 8) as u8, n as u8]
}

/// The 32-bit word read from four big-endian bytes.
pub open spec fn be32(b0: u8, b1: u8, b2: u8, b3: u8) -> u32 {
    ((b0 as u32) << 24) | ((b1 as u32) << 16) | ((b2 as u32) << 8) | (b3 as u32)
}

/// Object type and instance packed into one identifier word: the type in the
/// top ten bits, the instance in the low twenty-two.
pub open spec fn objid_word(object_type: u16, instance: u32) -> u32
    recommends
        object_type <= 0x3FF,
        instance <= 0x3FFFFF,
{
    ((object_type as u32) << 22) | instance
}

/// The object type held in an identifier word.
pub open spec fn word_type(w: u32) -> u16 {
    (w >> 22) as u16
}

/// The instance number held in an identifier word.
pub open spec fn word_instance(w: u32) -> u32 {
    w & 0x3FFFFF
}

/// How the codec resolves a raw object type number: the type numbers zero
/// through thirty are kept, anything else falls back to the device type.
pub open spec fn clamp_object_type(raw: u16) -> u16 {
    if raw <= 30 {
        raw
    } else {
        DEVICE_OBJECT_TYPE
    }
}

/// Byte length of the shortest big-endian form of an unsigned value.
pub open spec fn uint_len(v: u32) -> u8 {
    if v <= 0xFF {
        1
    } else if v <= 0xFFFF {
        2
    } else if v <= 0xFFFFFF {
        3
    } else {
        4
    }
}

/// The shortest big-endian form of an unsigned value.
pub open spec fn uint_bytes(v: u32) -> Seq<u8> {
    be4(v).skip(4 - uint_len(v) as int)
}

/// A context-tagged unsigned (or enumerated) value: one tag byte holding the
/// context flag, the tag number and the value's byte length, then the value.
pub open spec fn ctx_unsigned_bytes(v: u32, tag: u8) -> Seq<u8>
    recommends
        tag <= 14,
{
    seq![0x08u8 | (tag << 4) | uint_len(v)] + uint_bytes(v)
}

/// A context-tagged object identifier: one tag byte with length four, then
/// the packed identifier word, big endian.
pub open spec fn ctx_object_id_bytes(object_type: u16, instance: u32, tag: u8) -> Seq<u8>
    recommends
        tag <= 14,
        object_type <= 0x3FF,
        instance <= 0x3FFFFF,
{
    seq![0x08u8 | (tag << 4) | 4u8] + be4(objid_word(object_type, instance))
}

/// Service data of a Who-Is request: both range limits context-tagged when
/// both are given, nothing otherwise (an open broadcast).
pub open spec fn who_is_payload_bytes(low: Option<u32>, high: Option<u32>) -> Seq<u8> {
    match (low, high) {
        (Some(l), Some(h)) => ctx_unsigned_bytes(l, 0) + ctx_unsigned_bytes(h, 1),
        _ => Seq::empty(),
    }
}

/// An unconfirmed-request frame: the type byte, the service choice, the
/// service data.
pub open spec fn unconfirmed_frame_bytes(service: u8, payload: Seq<u8>) -> Seq<u8> {
    seq![0x10u8, service] + payload
}

/// A non-segmented confirmed-request frame as this gateway sends it
/// (segmented responses accepted, replies up to 1476 bytes): the type and
/// flag byte, the size byte, the invoke id, the service choice, the data.
pub open spec fn confirmed_request_frame_bytes(invoke_id: u8, service: u8, payload: Seq<u8>) -> Seq<u8> {
    seq![0x02u8, 0x05u8, invoke_id, service] + payload
}

/// An application-tagged 32-bit real, carried as its bit pattern.
pub open spec fn real_bytes(bits: u32) -> Seq<u8> {
    seq![0x44u8] + be4(bits)
}

/// An application-tagged boolean: the value lives in the tag byte's length
/// field.
pub open spec fn boolean_bytes(v: bool) -> Seq<u8> {
    if v {
        seq![0x11u8]
    } else {
        seq![0x10u8]
    }
}

/// The I-Am service data layout every peer of this gateway produces: a
/// short-form object identifier, a two-byte unsigned APDU length, a one-byte
/// enumerated segmentation flag and a two-byte unsigned vendor id.
pub open spec fn canonical_i_am(d: Seq<u8>) -> bool {
    d.len() == 13 && d[0] == 0xC4 && d[5] == 0x22 && d[8] == 0x91 && d[10] == 0x22
}

/// The device instance announced by a canonical I-Am payload.
pub open spec fn i_am_instance_of(d: Seq<u8>) -> u32
    recommends
        d.len() >= 5,
{
    word_instance(be32(d[1], d[2], d[3], d[4]))
}

/// The ReadProperty acknowledgment layout this gateway's peers produce: a
/// context-0 short-form object identifier, a one-byte context-1 property
/// identifier, then the value between opening and closing tag three, the
/// closing tag last and nowhere inside the value.
pub open spec fn canonical_rp_ack(d: Seq<u8>) -> bool {
    d.len() >= 9 && d[0] == 0x0C && d[5] == 0x19 && d[7] == 0x3E && d.last() == 0x3F
        && (forall|i: int| 8 <= i < d.len() - 1 ==> d[i] != 0x3F)
}

/// Raw object type number of a canonical acknowledgment.
pub open spec fn rp_raw_type(d: Seq<u8>) -> u16
    recommends
        d.len() >= 5,
{
    word_type(be32(d[1], d[2], d[3], d[4]))
}

/// Object instance of a canonical acknowledgment.
pub open spec fn rp_instance(d: Seq<u8>) -> u32
    recommends
        d.len() >= 5,
{
    word_instance(be32(d[1], d[2], d[3], d[4]))
}

/// Property identifier of a canonical acknowledgment.
pub open spec fn rp_property(d: Seq<u8>) -> u32
    recommends
        d.len() >= 7,
{
    d[6] as u32
}

/// Raw property value of a canonical acknowledgment.
pub open spec fn rp_value(d: Seq<u8>) -> Seq<u8>
    recommends
        d.len() >= 9,
{
    d.subrange(8, d.len() - 1)
}

/// An inbound application-layer envelope, reduced to the shapes this
/// gateway reads.
#[derive(Debug, Clone)]
pub enum ApduFrame {
    /// An unconfirmed service request: service choice and raw service data.
    Unconfirmed { service: u8, payload: Vec<u8> },
    /// A confirmed-service acknowledgment carrying data.
    ComplexAck { invoke_id: u8, service: u8, payload: Vec<u8> },
    /// Any other protocol data unit; read only to be dropped.
    Other,
}

/// A decoded ReadProperty acknowledgment.
#[derive(Debug, Clone)]
pub struct ReadPropertyAck {
    pub object_type: u16,
    pub instance: u32,
    pub property_id: u32,
    pub value: Vec<u8>,
}

/// Service choice carried by a frame; zero for the shapes that carry none.
pub open spec fn frame_service(f: ApduFrame) -> u8 {
    match f {
        ApduFrame::Unconfirmed { service, .. } => service,
        ApduFrame::ComplexAck { service, .. } => service,
        ApduFrame::Other => 0,
    }
}

/// Service data carried by a frame; empty for the shapes that carry none.
pub open spec fn frame_payload(f: ApduFrame) -> Seq<u8> {
    match f {
        ApduFrame::Unconfirmed { payload, .. } => payload@,
        ApduFrame::ComplexAck { payload, .. } => payload@,
        ApduFrame::Other => Seq::empty(),
    }
}

/// Invoke id carried by an acknowledgment; zero for the other shapes.
pub open spec fn frame_invoke(f: ApduFrame) -> u8 {
    match f {
        ApduFrame::ComplexAck { invoke_id, .. } => invoke_id,
        _ => 0,
    }
}

/// Relies on `bacnet_rs::service::WhoIsRequest::encode`: with both limits
/// present it emits the two context-tagged unsigned limits, otherwise
/// nothing; context tags zero and one never fail to encode.
#[verifier::external_body]
pub(crate) fn encode_who_is_payload(low: Option<u32>, high: Option<u32>) -> (r: Vec<u8>)
    ensures
        r@ == who_is_payload_bytes(low, high),
{
    let mut who_is = bacnet_rs::service::WhoIsRequest::new();
    who_is.device_instance_range_low_limit = low;
    who_is.device_instance_range_high_limit = high;
    let mut data = Vec::new();
    who_is.encode(&mut data).expect("context tags zero and one always encode");
    data
}

/// Relies on `bacnet_rs::app::Apdu::encode` for the `UnconfirmedRequest`
/// variant: one type byte, the service choice, then the service data.
#[verifier::external_body]
pub(crate) fn encode_unconfirmed_frame(service: u8, payload: Vec<u8>) -> (r: Vec<u8>)
    ensures
        r@ == unconfirmed_frame_bytes(service, payload@),
{
    let apdu = bacnet_rs::app::Apdu::UnconfirmedRequest {
        service_choice: service,
        service_data: payload,
    };
    apdu.encode()
}

/// Relies on `bacnet_rs::app::Apdu::encode` for a non-segmented
/// `ConfirmedRequest` accepting segmented responses and replies up to 1476
/// bytes: the flag byte, the size byte, the invoke id, the service choice,
/// then the service data.
#[verifier::external_body]
pub(crate) fn encode_confirmed_request_frame(invoke_id: u8, service: u8, payload: Vec<u8>) -> (r: Vec<u8>)
    ensures
        r@ == confirmed_request_frame_bytes(invoke_id, service, payload@),
{
    let apdu = bacnet_rs::app::Apdu::ConfirmedRequest {
        segmented: false,
        more_follows: false,
        segmented_response_accepted: true,
        max_segments: bacnet_rs::app::MaxSegments::Unspecified,
        max_response_size: bacnet_rs::app::MaxApduSize::Up1476,
        invoke_id,
        sequence_number: None,
        proposed_window_size: None,
        service_choice: service,
        service_data: payload,
    };
    apdu.encode()
}

/// Relies on `bacnet_rs::encoding::encode_context_object_id`: it rejects an
/// object type above ten bits or an instance above twenty-two bits (reported
/// here as `None`), and otherwise emits the context tag byte and the packed
/// identifier word.
#[verifier::external_body]
pub(crate) fn encode_ctx_object_id(object_type: u16, instance: u32, tag: u8) -> (r: Option<Vec<u8>>)
    requires
        tag <= 14,
    ensures
        object_type <= 0x3FF && instance <= 0x3FFFFF ==> r is Some,
        r is Some ==> object_type <= 0x3FF && instance <= 0x3FFFFF,
        (r matches Some(v) ==> v@ == ctx_object_id_bytes(object_type, instance, tag)),
{
    match bacnet_rs::encoding::encode_context_object_id(object_type, instance, tag) {
        Ok(v) => Some(v),
        Err(_) => None,
    }
}

/// Relies on `bacnet_rs::encoding::encode_context_enumerated`, which encodes
/// exactly as a context-tagged unsigned; context tags up to fourteen never
/// fail.
#[verifier::external_body]
pub(crate) fn encode_ctx_enumerated(value: u32, tag: u8) -> (r: Vec<u8>)
    requires
        tag <= 14,
    ensures
        r@ == ctx_unsigned_bytes(value, tag),
{
    bacnet_rs::encoding::encode_context_enumerated(value, tag)
        .expect("context tags up to fourteen always encode")
}

/// Relies on `bacnet_rs::app::Apdu::decode`.  The upper nibble of the first
/// byte selects the PDU type: one is an unconfirmed request (service choice
/// in the second byte, data after it); three is a complex acknowledgment
/// (invoke id in the second byte, and without the segmentation flag the
/// service choice is the third byte and the data follows it).
#[verifier::external_body]
pub(crate) fn decode_apdu(data: &[u8]) -> (r: Option<ApduFrame>)
    ensures
        data@.len() == 0 ==> r is None,
        (r is Some && r->0 is Unconfirmed ==> data@.len() >= 2 && (data@[0] >> 4) == 1
            && frame_service(r->0) == data@[1] && frame_payload(r->0) == data@.skip(2)),
        (data@.len() >= 2 && (data@[0] >> 4) == 1 ==> r is Some && r->0 is Unconfirmed
            && frame_service(r->0) == data@[1] && frame_payload(r->0) == data@.skip(2)),
        (r is Some && r->0 is ComplexAck ==> data@.len() >= 3 && (data@[0] >> 4) == 3
            && frame_invoke(r->0) == data@[1]),
        (data@.len() >= 3 && (data@[0] >> 4) == 3 && (data@[0] & 0x08) == 0 ==> r is Some
            && r->0 is ComplexAck && frame_invoke(r->0) == data@[1] && frame_service(r->0)
            == data@[2] && frame_payload(r->0) == data@.skip(3)),
{
    match bacnet_rs::app::Apdu::decode(data) {
        Ok(bacnet_rs::app::Apdu::UnconfirmedRequest { service_choice, service_data }) => Some(
            ApduFrame::Unconfirmed { service: service_choice, payload: service_data },
        ),
        Ok(bacnet_rs::app::Apdu::ComplexAck { invoke_id, service_choice, service_data, .. }) => Some(
            ApduFrame::ComplexAck { invoke_id, service: service_choice, payload: service_data },
        ),
        Ok(_) => Some(ApduFrame::Other),
        Err(_) => None,
    }
}

/// Relies on `bacnet_rs::service::IAmRequest::decode`: the payload opens
/// with an application-tagged object identifier whose low twenty-two bits
/// are the device instance, followed by the accepted APDU length, the
/// segmentation flag and the vendor id; an unknown object type falls back to
/// the device type rather than failing.
#[verifier::external_body]
pub(crate) fn decode_i_am_instance(payload: &[u8]) -> (r: Option<u32>)
    ensures
        (r matches Some(instance) ==> instance < 0x400000),
        (r is Some && payload@.len() >= 5 && payload@[0] == 0xC4 ==> r == Some(
            i_am_instance_of(payload@),
        )),
        canonical_i_am(payload@) ==> r is Some,
{
    match bacnet_rs::service::IAmRequest::decode(payload) {
        Ok(i_am) => Some(i_am.device_identifier.instance),
        Err(_) => None,
    }
}

/// Relies on `bacnet_rs::service::ReadPropertyResponse::decode`: a context-0
/// object identifier (unknown type numbers fall back to the device type), a
/// context-1 property identifier, an optional context-2 array index, then
/// the raw value bytes up to the first closing tag three.
#[verifier::external_body]
pub(crate) fn decode_read_property_ack(payload: &[u8]) -> (r: Option<ReadPropertyAck>)
    ensures
        (r matches Some(a) ==> a.object_type <= 30 && a.instance < 0x400000),
        canonical_rp_ack(payload@) ==> r is Some
            && r->0.object_type == clamp_object_type(rp_raw_type(payload@))
            && r->0.instance == rp_instance(payload@) && r->0.property_id == rp_property(payload@)
            && r->0.value@ == rp_value(payload@),
{
    match bacnet_rs::service::ReadPropertyResponse::decode(payload) {
        Ok(resp) => Some(
            ReadPropertyAck {
                object_type: resp.object_identifier.object_type as u16,
                instance: resp.object_identifier.instance,
                property_id: resp.property_identifier,
                value: resp.property_value,
            },
        ),
        Err(_) => None,
    }
}

/// Relies on `bacnet_rs::encoding::decode_object_identifier`: it reads one
/// application-tagged object identifier from the front of the buffer and
/// reports how many bytes it consumed; in the short form the tag byte is
/// 0xC4 and five bytes are consumed.
#[verifier::external_body]
pub(crate) fn decode_object_id_item(data: &[u8]) -> (r: Option<((u16, u32), usize)>)
    ensures
        (r matches Some(((ot, inst), c)) ==> 5 <= c <= data@.len() && ot <= 0x3FF && inst
            <= 0x3FFFFF),
        (data@.len() >= 5 && (data@[0] >> 4) == 12 && (data@[0] & 0x0F) == 4 ==> r == Some(
            (
                (
                    word_type(be32(data@[1], data@[2], data@[3], data@[4])),
                    word_instance(be32(data@[1], data@[2], data@[3], data@[4])),
                ),
                5usize,
            ),
        )),
        data@.len() >= 1 && (data@[0] >> 4) != 12 ==> r is None,
        data@.len() >= 1 && (data@[0] & 0x0F) < 4 ==> r is None,
        data@.len() == 0 ==> r is None,
{
    match bacnet_rs::encoding::decode_object_identifier(data) {
        Ok(((object_type, instance), consumed)) => Some(((object_type, instance), consumed)),
        Err(_) => None,
    }
}

} // verus!
