//! Turning decoded inbound envelopes into domain values: I-Am announcements
//! into device identities, ReadProperty acknowledgments into object lists.

use vstd::prelude::*;
use vstd::string::StringExecFns;
use crate::codec::{
    be32, canonical_i_am, canonical_rp_ack, clamp_object_type, decode_i_am_instance,
    decode_object_id_item, decode_read_property_ack, frame_payload, frame_service,
    i_am_instance_of, rp_instance, rp_property, rp_raw_type, rp_value, word_instance, word_type,
    ApduFrame, ReadPropertyAck, I_AM_SERVICE, READ_PROPERTY_SERVICE,
};
use crate::text::{device_name, device_name_text, object_name, object_name_text};
use crate::types::{BacnetDevice, BacnetObjectInfo};

verus! {

/// Whether the bytes from `pos` on are a sequence of short-form object
/// identifiers, five bytes each.
pub open spec fn standard_list_from(d: Seq<u8>, pos: int) -> bool
    decreases d.len() - pos,
    when 0 <= pos <= d.len()
{
    pos == d.len() || (pos + 5 <= d.len() && d[pos] == 0xC4 && standard_list_from(d, pos + 5))
}

/// The object type and instance pairs held by a sequence of short-form
/// object identifiers, read from `pos` on.
pub open spec fn items_from(d: Seq<u8>, pos: int) -> Seq<(u16, u32)>
    decreases d.len() - pos,
    when 0 <= pos <= d.len()
{
    if pos + 5 <= d.len() && d[pos] == 0xC4 {
        seq![
            (
                word_type(be32(d[pos + 1], d[pos + 2], d[pos + 3], d[pos + 4])),
                word_instance(be32(d[pos + 1], d[pos + 2], d[pos + 3], d[pos + 4])),
            ),
        ] + items_from(d, pos + 5)
    } else {
        Seq::empty()
    }
}

/// Parses an I-Am announcement into a device identity.  The address is left
/// as a placeholder: the payload's own address field is unreliable, so the
/// caller replaces it with the packet's source endpoint.
pub fn parse_i_am(frame: &ApduFrame) -> (r: Option<BacnetDevice>)
    ensures
        r is Some ==> *frame is Unconfirmed && frame_service(*frame) == I_AM_SERVICE,
        (r matches Some(d) ==> d.instance < 0x400000 && d.address@ == "Unknown"@ && d.name@
            == device_name_text(d.instance as nat)),
        (*frame is Unconfirmed && frame_service(*frame) == I_AM_SERVICE && canonical_i_am(
            frame_payload(*frame),
        ) ==> r is Some),
        (*frame is Unconfirmed && frame_service(*frame) == I_AM_SERVICE && frame_payload(
            *frame,
        ).len() >= 5 && frame_payload(*frame)[0] == 0xC4 && r is Some ==> r->0.instance
            == i_am_instance_of(frame_payload(*frame))),
{
    match frame {
        ApduFrame::Unconfirmed { service, payload } => {
            if *service == I_AM_SERVICE {
                match decode_i_am_instance(payload.as_slice()) {
                    Some(instance) => Some(
                        BacnetDevice {
                            instance,
                            address: String::from_str("Unknown"),
                            name: device_name(instance),
                        },
                    ),
                    None => None,
                }
            } else {
                None
            }
        },
        _ => None,
    }
}

/// Parses a ReadProperty acknowledgment out of a complex-ack envelope.
pub fn parse_read_property_response(frame: &ApduFrame) -> (r: Option<ReadPropertyAck>)
    ensures
        r is Some ==> *frame is ComplexAck && frame_service(*frame) == READ_PROPERTY_SERVICE,
        (r matches Some(a) ==> a.object_type <= 30 && a.instance < 0x400000),
        (*frame is ComplexAck && frame_service(*frame) == READ_PROPERTY_SERVICE && canonical_rp_ack(
            frame_payload(*frame),
        ) ==> r is Some && r->0.object_type == clamp_object_type(rp_raw_type(frame_payload(*frame)))
            && r->0.instance == rp_instance(frame_payload(*frame)) && r->0.property_id
            == rp_property(frame_payload(*frame)) && r->0.value@ == rp_value(
            frame_payload(*frame),
        )),
{
    match frame {
        ApduFrame::ComplexAck { service, payload, .. } => {
            if *service == READ_PROPERTY_SERVICE {
                decode_read_property_ack(payload.as_slice())
            } else {
                None
            }
        },
        _ => None,
    }
}

/// Decodes the object identifiers out of a returned object-list value,
/// stopping at the first byte run that is not one.  On a well-formed list of
/// short-form identifiers the result is exactly the encoded list.
pub fn parse_object_list(data: &[u8]) -> (r: Vec<(u16, u32)>)
    ensures
        forall|i: int|
            0 <= i < r@.len() ==> (#[trigger] r@[i]).0 <= 0x3FF && r@[i].1 <= 0x3FFFFF,
        standard_list_from(data@, 0) ==> r@ == items_from(data@, 0),
{
    let len = data.len();
    let mut out: Vec<(u16, u32)> = Vec::new();
    let mut pos: usize = 0;
    let mut stopped = false;
    while pos < len && !stopped
        invariant
            len == data@.len(),
            pos <= len,
            forall|i: int|
                0 <= i < out@.len() ==> (#[trigger] out@[i]).0 <= 0x3FF && out@[i].1 <= 0x3FFFFF,
            stopped ==> !standard_list_from(data@, 0),
            standard_list_from(data@, 0) ==> standard_list_from(data@, pos as int) && items_from(
                data@,
                0,
            ) == out@ + items_from(data@, pos as int),
        decreases len - pos, (if stopped { 0int } else { 1int }),
    {
        let rest = &data[pos..len];
        match decode_object_id_item(rest) {
            Some(((object_type, instance), consumed)) => {
                proof {
                    if standard_list_from(data@, 0) {
                        assert(standard_list_from(data@, pos as int));
                        assert(rest@ == data@.subrange(pos as int, len as int));
                        assert(rest@[0] == data@[pos as int]);
                        assert((0xC4u8 >> 4) == 12u8 && (0xC4u8 & 0x0F) == 4u8) by (bit_vector);
                        assert(items_from(data@, pos as int) == seq![
                            (object_type, instance),
                        ] + items_from(data@, pos as int + 5));
                    }
                }
                out.push((object_type, instance));
                pos += consumed;
                proof {
                    if standard_list_from(data@, 0) {
                        assert(items_from(data@, 0) =~= out@ + items_from(data@, pos as int));
                    }
                }
            },
            None => {
                proof {
                    if standard_list_from(data@, 0) {
                        assert(standard_list_from(data@, pos as int));
                        assert(rest@[0] == 0xC4);
                        assert((0xC4u8 >> 4) == 12u8 && (0xC4u8 & 0x0F) == 4u8) by (bit_vector);
                        assert(false);
                    }
                }
                stopped = true;
            },
        }
    }
    proof {
        if standard_list_from(data@, 0) {
            assert(pos == len);
            assert(items_from(data@, len as int) == Seq::<(u16, u32)>::empty());
            assert(out@ =~= items_from(data@, 0)) by {
                assert(items_from(data@, 0) == out@ + items_from(data@, len as int));
            }
        }
    }
    out
}

/// Gives each object identifier its display name.
pub fn object_infos(items: &Vec<(u16, u32)>) -> (r: Vec<BacnetObjectInfo>)
    ensures
        r@.len() == items@.len(),
        forall|i: int|
            0 <= i < items@.len() ==> (#[trigger] r@[i]).object_type == items@[i].0 && r@[i].instance
                == items@[i].1 && r@[i].name@ == object_name_text(
                items@[i].0,
                items@[i].1 as nat,
            ),
{
    let mut r: Vec<BacnetObjectInfo> = Vec::new();
    let mut idx: usize = 0;
    while idx < items.len()
        invariant
            idx <= items@.len(),
            r@.len() == idx,
            forall|i: int|
                0 <= i < idx ==> (#[trigger] r@[i]).object_type == items@[i].0 && r@[i].instance
                    == items@[i].1 && r@[i].name@ == object_name_text(
                    items@[i].0,
                    items@[i].1 as nat,
                ),
        decreases items@.len() - idx,
    {
        let (object_type, instance) = items[idx];
        r.push(
            BacnetObjectInfo { object_type, instance, name: object_name(object_type, instance) },
        );
        idx += 1;
    }
    r
}

} // verus!
