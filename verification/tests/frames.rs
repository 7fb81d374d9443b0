//! Outbound frames: the session's bytes match what the protocol crate
//! produces, unsupported writes fail before any frame exists, and the invoke
//! counter wraps.

use rustygate::client::BacnetClient;
use rustygate::types::{PropertyValue, SessionError};

use bacnet_rs::app::{Apdu, MaxApduSize, MaxSegments};
use bacnet_rs::encoding::{encode_context_enumerated, encode_context_object_id, encode_real};
use bacnet_rs::service::WhoIsRequest;

fn confirmed_request(invoke_id: u8, service_choice: u8, service_data: Vec<u8>) -> Vec<u8> {
    let apdu = Apdu::ConfirmedRequest {
        segmented: false,
        more_follows: false,
        segmented_response_accepted: true,
        max_segments: MaxSegments::Unspecified,
        max_response_size: MaxApduSize::Up1476,
        invoke_id,
        sequence_number: None,
        proposed_window_size: None,
        service_choice,
        service_data,
    };
    apdu.encode()
}

#[test]
fn open_who_is_is_two_bytes() {
    let client = BacnetClient::new();
    let frame = client.who_is_frame(None, None);
    assert_eq!(frame, vec![0x10, 0x08]);
}

#[test]
fn who_is_matches_protocol_crate() {
    let client = BacnetClient::new();

    for (low, high) in [
        (None, None),
        (Some(0u32), Some(0u32)),
        (Some(1000), Some(2000)),
        (Some(99999), Some(99999)),
        (Some(0x1000000), Some(0x3FFFFF_u32)),
    ] {
        let mut who_is = WhoIsRequest::new();
        who_is.device_instance_range_low_limit = low;
        who_is.device_instance_range_high_limit = high;
        let mut data = Vec::new();
        who_is.encode(&mut data).unwrap();
        let expected = Apdu::UnconfirmedRequest { service_choice: 8, service_data: data }.encode();

        assert_eq!(client.who_is_frame(low, high), expected);
    }
}

#[test]
fn read_property_matches_protocol_crate() {
    let mut client = BacnetClient::new();
    let (frame, invoke_id) = client.read_property_frame(8, 99999, 76).unwrap();
    assert_eq!(invoke_id, 0);

    let mut data = Vec::new();
    data.extend(encode_context_object_id(8, 99999, 0).unwrap());
    data.extend(encode_context_enumerated(76, 1).unwrap());
    assert_eq!(frame, confirmed_request(0, 12, data));
}

#[test]
fn read_property_rejects_oversized_instance() {
    let mut client = BacnetClient::new();
    let r = client.read_property_frame(8, 0x400000, 76);
    assert_eq!(r.unwrap_err(), SessionError::ValueOutOfRange);
    // Nothing was consumed: the next request still uses invoke id zero.
    let (_, invoke_id) = client.read_property_frame(8, 1, 76).unwrap();
    assert_eq!(invoke_id, 0);
}

#[test]
fn write_real_matches_protocol_crate() {
    let mut client = BacnetClient::new();
    let bits = 22.5_f32.to_bits();
    let (frame, invoke_id) = client
        .write_property_frame(0, 1, 85, &PropertyValue::RealBits(bits))
        .unwrap();
    assert_eq!(invoke_id, 0);

    let mut data = Vec::new();
    data.extend(encode_context_object_id(0, 1, 0).unwrap());
    data.extend(encode_context_enumerated(85, 1).unwrap());
    data.push(0x3E);
    encode_real(&mut data, 22.5).unwrap();
    data.push(0x3F);
    assert_eq!(frame, confirmed_request(0, 15, data));
}

#[test]
fn write_boolean_encodes_in_tag_byte() {
    let mut client = BacnetClient::new();
    let (frame_true, _) = client
        .write_property_frame(3, 1, 85, &PropertyValue::Boolean(true))
        .unwrap();
    let (frame_false, _) = client
        .write_property_frame(3, 1, 85, &PropertyValue::Boolean(false))
        .unwrap();
    // The value lives between the opening and closing tags.
    assert_eq!(&frame_true[frame_true.len() - 2..], &[0x11, 0x3F]);
    assert_eq!(&frame_false[frame_false.len() - 2..], &[0x10, 0x3F]);
}

#[test]
fn write_unsupported_value_fails_before_any_bytes() {
    let mut client = BacnetClient::new();
    let r = client.write_property_frame(
        0,
        1,
        85,
        &PropertyValue::CharacterString("22.5".to_string()),
    );
    assert_eq!(r.unwrap_err(), SessionError::UnsupportedValueType);
    let r = client.write_property_frame(0, 1, 85, &PropertyValue::Null);
    assert_eq!(r.unwrap_err(), SessionError::UnsupportedValueType);
    let r = client.write_property_frame(0, 1, 85, &PropertyValue::UnsignedInteger(7));
    assert_eq!(r.unwrap_err(), SessionError::UnsupportedValueType);

    // No frame was built, so no invoke identifier was consumed.
    let (_, invoke_id) = client
        .write_property_frame(0, 1, 85, &PropertyValue::Boolean(true))
        .unwrap();
    assert_eq!(invoke_id, 0);
}

#[test]
fn write_out_of_range_object_reported_before_value_kind() {
    let mut client = BacnetClient::new();
    let r = client.write_property_frame(0x400, 1, 85, &PropertyValue::Null);
    assert_eq!(r.unwrap_err(), SessionError::ValueOutOfRange);
}

#[test]
fn invoke_id_increments_per_confirmed_request() {
    let mut client = BacnetClient::new();
    let (_, first) = client.read_property_frame(8, 1, 76).unwrap();
    let (_, second) = client.read_property_frame(8, 1, 76).unwrap();
    let (_, third) = client
        .write_property_frame(0, 1, 85, &PropertyValue::Boolean(true))
        .unwrap();
    assert_eq!((first, second, third), (0, 1, 2));
}

#[test]
fn invoke_id_wraps_at_255() {
    let mut client = BacnetClient { invoke_id: 255 };
    let (_, at_boundary) = client.read_property_frame(8, 1, 76).unwrap();
    let (_, wrapped) = client.read_property_frame(8, 1, 76).unwrap();
    assert_eq!(at_boundary, 255);
    assert_eq!(wrapped, 0);
}
