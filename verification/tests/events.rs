//! The event union codec: tag dispatch, variable-width client-message
//! payloads, zero-padded re-encoding, and the data-region accessors.
use xlib::event::{ClientMessageData, ClientMessageEvent, DestroyWindowEvent, Event, ExposeEvent,
    CLIENT_MESSAGE, DESTROY_NOTIFY, EXPOSE};
use xlib::native::{XEvent, EVENT_BYTES};

fn expected_buffer(fields: &[(usize, &[u8])]) -> Vec<u8> {
    let mut bytes = vec![0u8; EVENT_BYTES];
    for (offset, piece) in fields {
        bytes[*offset..*offset + piece.len()].copy_from_slice(piece);
    }
    bytes
}

#[test]
fn destroy_window_encodes_byte_for_byte() {
    let event = DestroyWindowEvent { serial: 7, send_event: true, event: 2, window: 3 };
    let native = event.to_native();
    let expected = expected_buffer(&[
        (0, &17u32.to_le_bytes()),
        (8, &7u32.to_le_bytes()),
        (16, &1u32.to_le_bytes()),
        (32, &2u32.to_le_bytes()),
        (40, &3u32.to_le_bytes()),
    ]);
    assert_eq!(native.as_bytes(), &expected);
}

#[test]
fn expose_encodes_byte_for_byte_with_negative_coordinates() {
    let event = ExposeEvent {
        serial: 9,
        send_event: false,
        window: 5,
        x: -1,
        y: 4,
        width: 640,
        height: 480,
        count: 0,
    };
    let native = event.to_native();
    let expected = expected_buffer(&[
        (0, &12u32.to_le_bytes()),
        (8, &9u32.to_le_bytes()),
        (32, &5u32.to_le_bytes()),
        (40, &(-1i32).to_le_bytes()),
        (44, &4u32.to_le_bytes()),
        (48, &640u32.to_le_bytes()),
        (52, &480u32.to_le_bytes()),
    ]);
    assert_eq!(native.as_bytes(), &expected);
}

#[test]
fn client_message_long_encodes_byte_for_byte() {
    let event = ClientMessageEvent {
        serial: 5,
        send_event: false,
        window: 9,
        message_type: 11,
        data: ClientMessageData::Long([1, 2, 3, 4, 5]),
    };
    let native = event.to_native();
    let expected = expected_buffer(&[
        (0, &33u32.to_le_bytes()),
        (8, &5u32.to_le_bytes()),
        (32, &9u32.to_le_bytes()),
        (40, &11u32.to_le_bytes()),
        (48, &32u32.to_le_bytes()),
        (56, &1u32.to_le_bytes()),
        (64, &2u32.to_le_bytes()),
        (72, &3u32.to_le_bytes()),
        (80, &4u32.to_le_bytes()),
        (88, &5u32.to_le_bytes()),
    ]);
    assert_eq!(native.as_bytes(), &expected);
}

#[test]
fn client_message_word_array_round_trips_with_format_32() {
    let event = ClientMessageEvent {
        serial: 1,
        send_event: true,
        window: 2,
        message_type: 3,
        data: ClientMessageData::Long([1, 2, 3, 4, 5]),
    };
    let native = event.to_native();
    assert_eq!(native.read_u32_at(48), 32);
    let decoded = Event::from_native(&native);
    assert_eq!(decoded, Some(Event::ClientMessage(event)));
}

#[test]
fn client_message_byte_array_round_trips_with_format_8() {
    let mut payload = [0u8; 20];
    for (index, slot) in payload.iter_mut().enumerate() {
        *slot = index as u8 + 100;
    }
    let event = ClientMessageEvent {
        serial: 40,
        send_event: false,
        window: 41,
        message_type: 42,
        data: ClientMessageData::Byte(payload),
    };
    let native = event.to_native();
    assert_eq!(native.read_u32_at(48), 8);
    for index in 0..20 {
        assert_eq!(native.get_byte(index), index as u8 + 100);
    }
    for offset in 76..EVENT_BYTES {
        assert_eq!(native.byte_at(offset), 0);
    }
    assert_eq!(Event::from_native(&native), Some(Event::ClientMessage(event)));
}

#[test]
fn client_message_short_array_round_trips_with_format_16() {
    let event = ClientMessageEvent {
        serial: 50,
        send_event: true,
        window: 51,
        message_type: 52,
        data: ClientMessageData::Short([9, 8, 7, 6, 5, 4, 3, 2, 1, 0xFFFF]),
    };
    let native = event.to_native();
    assert_eq!(native.read_u32_at(48), 16);
    assert_eq!(native.get_short(0), 9);
    assert_eq!(native.get_short(9), 0xFFFF);
    assert_eq!(Event::from_native(&native), Some(Event::ClientMessage(event)));
}

#[test]
fn client_message_with_unknown_format_decodes_to_no_event() {
    let mut buffer = XEvent::zeroed();
    buffer.set_byte_at(0, CLIENT_MESSAGE as u8);
    buffer.set_byte_at(48, 13);
    assert_eq!(Event::from_native(&buffer), None);
}

#[test]
fn every_known_tag_dispatches_with_header_preserved() {
    let mut buffer = XEvent::zeroed();
    buffer.set_byte_at(0, DESTROY_NOTIFY as u8);
    buffer.set_byte_at(8, 0xAA);
    buffer.set_byte_at(9, 0xBB);
    buffer.set_byte_at(16, 1);
    buffer.set_byte_at(32, 6);
    buffer.set_byte_at(40, 7);
    assert_eq!(
        Event::from_native(&buffer),
        Some(Event::DestroyWindow(DestroyWindowEvent {
            serial: 0xBBAA,
            send_event: true,
            event: 6,
            window: 7,
        })),
    );

    let mut buffer = XEvent::zeroed();
    buffer.set_byte_at(0, EXPOSE as u8);
    buffer.set_byte_at(8, 3);
    buffer.set_byte_at(32, 4);
    buffer.set_byte_at(40, 0xFF);
    buffer.set_byte_at(41, 0xFF);
    buffer.set_byte_at(42, 0xFF);
    buffer.set_byte_at(43, 0xFF);
    buffer.set_byte_at(48, 2);
    assert_eq!(
        Event::from_native(&buffer),
        Some(Event::Expose(ExposeEvent {
            serial: 3,
            send_event: false,
            window: 4,
            x: -1,
            y: 0,
            width: 2,
            height: 0,
            count: 0,
        })),
    );

    let mut buffer = XEvent::zeroed();
    buffer.set_byte_at(0, CLIENT_MESSAGE as u8);
    buffer.set_byte_at(8, 1);
    buffer.set_byte_at(32, 2);
    buffer.set_byte_at(40, 3);
    buffer.set_byte_at(48, 8);
    buffer.set_byte(0, 0x5A);
    assert_eq!(
        Event::from_native(&buffer),
        Some(Event::ClientMessage(ClientMessageEvent {
            serial: 1,
            send_event: false,
            window: 2,
            message_type: 3,
            data: ClientMessageData::Byte({
                let mut payload = [0u8; 20];
                payload[0] = 0x5A;
                payload
            }),
        })),
    );
}

#[test]
fn unknown_tags_decode_to_no_event() {
    for tag in [0u8, 2, 19, 34, 255] {
        let mut buffer = XEvent::zeroed();
        buffer.set_byte_at(0, tag);
        assert_eq!(Event::from_native(&buffer), None);
    }
}

#[test]
fn event_union_to_native_dispatches_by_shape() {
    let destroy = DestroyWindowEvent { serial: 1, send_event: false, event: 2, window: 3 };
    let as_union = Event::DestroyWindow(destroy).to_native();
    let direct = destroy.to_native();
    assert_eq!(as_union.as_bytes(), direct.as_bytes());
    assert_eq!(as_union.kind(), DESTROY_NOTIFY);
    assert_eq!(as_union.window(), 2);
}

#[test]
fn data_accessors_share_the_little_endian_region() {
    let mut buffer = XEvent::zeroed();
    buffer.set_long(0, 0x0403_0201);
    assert_eq!(buffer.get_byte(0), 0x01);
    assert_eq!(buffer.get_byte(1), 0x02);
    assert_eq!(buffer.get_byte(2), 0x03);
    assert_eq!(buffer.get_byte(3), 0x04);
    assert_eq!(buffer.get_short(0), 0x0201);
    assert_eq!(buffer.get_short(1), 0x0403);
    assert_eq!(buffer.get_long(0), 0x0403_0201);

    buffer.set_short(1, 0xBEEF);
    assert_eq!(buffer.get_byte(2), 0xEF);
    assert_eq!(buffer.get_byte(3), 0xBE);
    assert_eq!(buffer.get_long(0), 0xBEEF_0201);

    buffer.set_byte(4, 0x7E);
    assert_eq!(buffer.get_short(2), 0x007E);
}

#[test]
fn from_vec_wraps_a_received_buffer() {
    let mut raw = vec![0u8; EVENT_BYTES];
    raw[0] = DESTROY_NOTIFY as u8;
    raw[8] = 5;
    raw[32] = 6;
    raw[40] = 7;
    let buffer = XEvent::from_vec(raw);
    assert_eq!(buffer.kind(), DESTROY_NOTIFY);
    assert_eq!(
        Event::from_native(&buffer),
        Some(Event::DestroyWindow(DestroyWindowEvent {
            serial: 5,
            send_event: false,
            event: 6,
            window: 7,
        })),
    );
}
