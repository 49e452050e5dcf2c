//! The tagged event union and its buffer codecs.  The event-selection
//! mask lives in its own module and is re-exported here beside the
//! event shapes that callers select with it.
use vstd::prelude::*;

use crate::Atom;
use crate::native::{XEvent, le16_at, le32_at, spec_i32_of_u32, spec_u32_of_i32,
    splice_bytes, zero_bytes, i32_of_u32, push_u16_le, push_u32_le, push_zero_bytes, u32_of_i32};
use crate::window::Window;
use vstd::bytes::{spec_u16_from_le_bytes, spec_u16_to_le_bytes, spec_u32_from_le_bytes,
    spec_u32_to_le_bytes, lemma_auto_spec_u16_to_from_le_bytes,
    lemma_auto_spec_u32_to_from_le_bytes, u16_to_le_bytes, u32_to_le_bytes};
use vstd::seq_lib::*;

verus! {

pub use crate::event_mask::EventMask;

/// Native event type tag for a client message.
pub const CLIENT_MESSAGE: u32 = 33;

/// Native event type tag for a window-destroyed notification.
pub const DESTROY_NOTIFY: u32 = 17;

/// Native event type tag for an exposure notification.
pub const EXPOSE: u32 = 12;

/// The native boolean word for a flag: one for true, zero for false.
pub open spec fn flag_word(flag: bool) -> u32 {
    if flag {
        1
    } else {
        0
    }
}

/// The data payload of a client message: the same trailing buffer
/// region interpreted as exactly one of twenty bytes, ten half-words or
/// five words, chosen by the event's format field.
#[derive(Clone, Copy, Debug, PartialEq, Eq)]
pub enum ClientMessageData {
    Byte([u8; 20]),
    Short([u16; 10]),
    Long([u32; 5]),
}

/// The format tag a payload selects: 8, 16 or 32 bits per element.
pub open spec fn format_of(data: ClientMessageData) -> u32 {
    match data {
        ClientMessageData::Byte(_) => 8,
        ClientMessageData::Short(_) => 16,
        ClientMessageData::Long(_) => 32,
    }
}

/// A message sent by another client, carrying an interned message type
/// and a variable-width payload.
#[derive(Clone, Copy, Debug, PartialEq, Eq)]
pub struct ClientMessageEvent {
    pub serial: u32,
    pub send_event: bool,
    pub window: Window,
    pub message_type: Atom,
    pub data: ClientMessageData,
}

/// Notification that a window was destroyed.
#[derive(Clone, Copy, Debug, PartialEq, Eq, Structural)]
pub struct DestroyWindowEvent {
    pub serial: u32,
    pub send_event: bool,
    pub event: Window,
    pub window: Window,
}

/// Notification that a window region must be redrawn.
#[derive(Clone, Copy, Debug, PartialEq, Eq, Structural)]
pub struct ExposeEvent {
    pub serial: u32,
    pub send_event: bool,
    pub window: Window,
    pub x: i32,
    pub y: i32,
    pub width: i32,
    pub height: i32,
    pub count: i32,
}

/// The closed set of event shapes this layer decodes.
#[derive(Clone, Copy, Debug, PartialEq, Eq)]
pub enum Event {
    ClientMessage(ClientMessageEvent),
    DestroyWindow(DestroyWindowEvent),
    Expose(ExposeEvent),
}

/// The 20-element byte array whose view is `s`.
pub open spec fn arr20_of(s: Seq<u8>) -> [u8; 20] {
    choose|a: [u8; 20]| a@ == s
}

/// The 10-element half-word array whose view is `s`.
pub open spec fn arr10_of(s: Seq<u16>) -> [u16; 10] {
    choose|a: [u16; 10]| a@ == s
}

/// The 5-element word array whose view is `s`.
pub open spec fn arr5_of(s: Seq<u32>) -> [u32; 5] {
    choose|a: [u32; 5]| a@ == s
}

proof fn lemma_arr20_of(a: [u8; 20])
    ensures
        arr20_of(a@) == a,
{
    assert(a@ == a@);
    let b = arr20_of(a@);
    assert(b@ == a@);
    assert(forall|i: int| 0 <= i < 20 ==> a[i] == b[i]);
    assert(a =~= b);
}

proof fn lemma_arr10_of(a: [u16; 10])
    ensures
        arr10_of(a@) == a,
{
    assert(a@ == a@);
    let b = arr10_of(a@);
    assert(b@ == a@);
    assert(forall|i: int| 0 <= i < 10 ==> a[i] == b[i]);
    assert(a =~= b);
}

proof fn lemma_arr5_of(a: [u32; 5])
    ensures
        arr5_of(a@) == a,
{
    assert(a@ == a@);
    let b = arr5_of(a@);
    assert(b@ == a@);
    assert(forall|i: int| 0 <= i < 5 ==> a[i] == b[i]);
    assert(a =~= b);
}

impl XEvent {
    /// Reads byte `index` of the client-message data region.
    pub fn get_byte(&self, index: usize) -> (value: u8)
        requires
            self.wf(),
            index < 20,
        ensures
            value == self@[56 + index as int],
    {
        self.byte_at(56 + index)
    }

    /// Reads half-word `index` of the client-message data region.
    pub fn get_short(&self, index: usize) -> (value: u16)
        requires
            self.wf(),
            index < 10,
        ensures
            value == le16_at(self@, 56 + 2 * index as int),
    {
        self.read_u16_at(56 + 2 * index)
    }

    /// Reads word `index` of the client-message data region: the low
    /// half of the 64-bit slot the native layout stores it in.
    pub fn get_long(&self, index: usize) -> (value: u32)
        requires
            self.wf(),
            index < 5,
        ensures
            value == le32_at(self@, 56 + 8 * index as int),
    {
        self.read_u32_at(56 + 8 * index)
    }

    /// Overwrites byte `index` of the client-message data region.
    pub fn set_byte(&mut self, index: usize, value: u8)
        requires
            old(self).wf(),
            index < 20,
        ensures
            final(self)@ == old(self)@.update(56 + index as int, value),
            final(self).wf(),
    {
        self.set_byte_at(56 + index, value);
    }

    /// Overwrites half-word `index` of the client-message data region.
    pub fn set_short(&mut self, index: usize, value: u16)
        requires
            old(self).wf(),
            index < 10,
        ensures
            final(self)@ == splice_bytes(
                old(self)@,
                56 + 2 * index as int,
                spec_u16_to_le_bytes(value),
            ),
            final(self).wf(),
    {
        proof {
            lemma_auto_spec_u16_to_from_le_bytes();
        }
        let piece = u16_to_le_bytes(value);
        self.set_byte_at(56 + 2 * index, piece[0]);
        self.set_byte_at(57 + 2 * index, piece[1]);
        proof {
            assert_seqs_equal!(self@ == splice_bytes(
                old(self)@, 56 + 2 * index as int, spec_u16_to_le_bytes(value)));
        }
    }

    /// Overwrites word `index` of the client-message data region,
    /// zero-extending it over the full 64-bit slot.
    pub fn set_long(&mut self, index: usize, value: u32)
        requires
            old(self).wf(),
            index < 5,
        ensures
            final(self)@ == splice_bytes(
                old(self)@,
                56 + 8 * index as int,
                spec_u32_to_le_bytes(value) + zero_bytes(4),
            ),
            final(self).wf(),
    {
        proof {
            lemma_auto_spec_u32_to_from_le_bytes();
        }
        let piece = u32_to_le_bytes(value);
        self.set_byte_at(56 + 8 * index, piece[0]);
        self.set_byte_at(57 + 8 * index, piece[1]);
        self.set_byte_at(58 + 8 * index, piece[2]);
        self.set_byte_at(59 + 8 * index, piece[3]);
        self.set_byte_at(60 + 8 * index, 0);
        self.set_byte_at(61 + 8 * index, 0);
        self.set_byte_at(62 + 8 * index, 0);
        self.set_byte_at(63 + 8 * index, 0);
        proof {
            assert_seqs_equal!(self@ == splice_bytes(
                old(self)@, 56 + 8 * index as int,
                spec_u32_to_le_bytes(value) + zero_bytes(4)));
        }
    }
}


/// The common 40-byte header every native event shape begins with:
/// type tag, padding, serial number, synthetic-send flag, the null
/// connection slot a re-encoded event carries, and the target resource.
pub open spec fn header_bytes(kind: u32, serial: u32, send_event: bool, target: u32) -> Seq<u8> {
    spec_u32_to_le_bytes(kind) + zero_bytes(4) + spec_u32_to_le_bytes(serial) + zero_bytes(4)
        + spec_u32_to_le_bytes(flag_word(send_event)) + zero_bytes(4) + zero_bytes(8)
        + spec_u32_to_le_bytes(target) + zero_bytes(4)
}

/// The little-endian bytes of a half-word sequence, in order.
pub open spec fn le16_concat(values: Seq<u16>) -> Seq<u8>
    decreases values.len(),
{
    if values.len() == 0 {
        Seq::empty()
    } else {
        le16_concat(values.drop_last()) + spec_u16_to_le_bytes(values.last())
    }
}

/// The bytes of a word sequence stored in 64-bit slots: each word's
/// little-endian bytes followed by four zero bytes.
pub open spec fn le32_slots(values: Seq<u32>) -> Seq<u8>
    decreases values.len(),
{
    if values.len() == 0 {
        Seq::empty()
    } else {
        le32_slots(values.drop_last()) + spec_u32_to_le_bytes(values.last()) + zero_bytes(4)
    }
}

/// The 40-byte encoding of a client-message payload.  Byte and
/// half-word payloads fill the first twenty bytes and leave the second
/// twenty zero; word payloads fill all five 64-bit slots.
pub open spec fn client_data_bytes(data: ClientMessageData) -> Seq<u8> {
    match data {
        ClientMessageData::Byte(a) => a@ + zero_bytes(20),
        ClientMessageData::Short(a) => le16_concat(a@) + zero_bytes(20),
        ClientMessageData::Long(a) => le32_slots(a@),
    }
}

/// The full buffer a client message encodes to: header, message type,
/// format, payload, and zeros in every remaining byte.
pub open spec fn client_message_encode_spec(event: ClientMessageEvent) -> Seq<u8> {
    header_bytes(CLIENT_MESSAGE, event.serial, event.send_event, event.window)
        + spec_u32_to_le_bytes(event.message_type) + zero_bytes(4)
        + spec_u32_to_le_bytes(format_of(event.data)) + zero_bytes(4)
        + client_data_bytes(event.data) + zero_bytes(96)
}

/// The full buffer a destroy notification encodes to.
pub open spec fn destroy_window_encode_spec(event: DestroyWindowEvent) -> Seq<u8> {
    header_bytes(DESTROY_NOTIFY, event.serial, event.send_event, event.event)
        + spec_u32_to_le_bytes(event.window) + zero_bytes(4) + zero_bytes(144)
}

/// The full buffer an exposure notification encodes to.
pub open spec fn expose_encode_spec(event: ExposeEvent) -> Seq<u8> {
    header_bytes(EXPOSE, event.serial, event.send_event, event.window)
        + spec_u32_to_le_bytes(spec_u32_of_i32(event.x))
        + spec_u32_to_le_bytes(spec_u32_of_i32(event.y))
        + spec_u32_to_le_bytes(spec_u32_of_i32(event.width))
        + spec_u32_to_le_bytes(spec_u32_of_i32(event.height))
        + spec_u32_to_le_bytes(spec_u32_of_i32(event.count)) + zero_bytes(132)
}

/// The buffer a typed event encodes to.
pub open spec fn event_encode_spec(event: Event) -> Seq<u8> {
    match event {
        Event::ClientMessage(e) => client_message_encode_spec(e),
        Event::DestroyWindow(e) => destroy_window_encode_spec(e),
        Event::Expose(e) => expose_encode_spec(e),
    }
}

/// The byte payload a buffer's data region holds.
pub open spec fn data_bytes_of(s: Seq<u8>) -> Seq<u8> {
    s.subrange(56, 76)
}

/// The half-word payload a buffer's data region holds.
pub open spec fn data_shorts_of(s: Seq<u8>) -> Seq<u16> {
    Seq::new(10, |j: int| le16_at(s, 56 + 2 * j))
}

/// The word payload a buffer's data region holds: the low half of each
/// 64-bit slot, as the safe model narrows it.
pub open spec fn data_longs_of(s: Seq<u8>) -> Seq<u32> {
    Seq::new(5, |j: int| le32_at(s, 56 + 8 * j))
}

/// The client message a buffer decodes to: `None` exactly when the
/// format field selects no known element width.
pub open spec fn client_message_decode_spec(s: Seq<u8>) -> Option<ClientMessageEvent> {
    let format = le32_at(s, 48);
    if format == 8 || format == 16 || format == 32 {
        Some(
            ClientMessageEvent {
                serial: le32_at(s, 8),
                send_event: le32_at(s, 16) != 0,
                window: le32_at(s, 32),
                message_type: le32_at(s, 40),
                data: if format == 8 {
                    ClientMessageData::Byte(arr20_of(data_bytes_of(s)))
                } else if format == 16 {
                    ClientMessageData::Short(arr10_of(data_shorts_of(s)))
                } else {
                    ClientMessageData::Long(arr5_of(data_longs_of(s)))
                },
            },
        )
    } else {
        None
    }
}

/// The destroy notification a buffer decodes to.
pub open spec fn destroy_window_decode_spec(s: Seq<u8>) -> DestroyWindowEvent {
    DestroyWindowEvent {
        serial: le32_at(s, 8),
        send_event: le32_at(s, 16) != 0,
        event: le32_at(s, 32),
        window: le32_at(s, 40),
    }
}

/// The exposure notification a buffer decodes to.
pub open spec fn expose_decode_spec(s: Seq<u8>) -> ExposeEvent {
    ExposeEvent {
        serial: le32_at(s, 8),
        send_event: le32_at(s, 16) != 0,
        window: le32_at(s, 32),
        x: spec_i32_of_u32(le32_at(s, 40)),
        y: spec_i32_of_u32(le32_at(s, 44)),
        width: spec_i32_of_u32(le32_at(s, 48)),
        height: spec_i32_of_u32(le32_at(s, 52)),
        count: spec_i32_of_u32(le32_at(s, 56)),
    }
}

/// The event a buffer decodes to.  A tag outside the known set, or a
/// client message with an unknown format, decodes to `None`: the caller
/// skips the buffer and fetches the next event rather than failing.
pub open spec fn event_decode_spec(s: Seq<u8>) -> Option<Event> {
    let kind = le32_at(s, 0);
    if kind == CLIENT_MESSAGE {
        match client_message_decode_spec(s) {
            Some(e) => Some(Event::ClientMessage(e)),
            None => None,
        }
    } else if kind == DESTROY_NOTIFY {
        Some(Event::DestroyWindow(destroy_window_decode_spec(s)))
    } else if kind == EXPOSE {
        Some(Event::Expose(expose_decode_spec(s)))
    } else {
        None
    }
}


proof fn lemma_le16_concat_len(values: Seq<u16>)
    ensures
        le16_concat(values).len() == 2 * values.len(),
    decreases values.len(),
{
    lemma_auto_spec_u16_to_from_le_bytes();
    if values.len() != 0 {
        lemma_le16_concat_len(values.drop_last());
    }
}

proof fn lemma_le32_slots_len(values: Seq<u32>)
    ensures
        le32_slots(values).len() == 8 * values.len(),
    decreases values.len(),
{
    lemma_auto_spec_u32_to_from_le_bytes();
    if values.len() != 0 {
        lemma_le32_slots_len(values.drop_last());
    }
}

proof fn lemma_client_data_len(data: ClientMessageData)
    ensures
        client_data_bytes(data).len() == 40,
{
    match data {
        ClientMessageData::Byte(_) => {},
        ClientMessageData::Short(a) => {
            lemma_le16_concat_len(a@);
        },
        ClientMessageData::Long(a) => {
            lemma_le32_slots_len(a@);
        },
    }
}

/// The native format word of a payload.
fn data_format(data: &ClientMessageData) -> (format: u32)
    ensures
        format == format_of(*data),
{
    match data {
        ClientMessageData::Byte(_) => 8,
        ClientMessageData::Short(_) => 16,
        ClientMessageData::Long(_) => 32,
    }
}

/// Encodes a payload into its 40-byte native data region.
fn client_data_native(data: &ClientMessageData) -> (bytes: Vec<u8>)
    ensures
        bytes@ == client_data_bytes(*data),
{
    let mut bytes: Vec<u8> = Vec::new();
    match data {
        ClientMessageData::Byte(a) => {
            let mut i: usize = 0;
            while i < 20
                invariant
                    i <= 20,
                    bytes@ == a@.subrange(0, i as int),
                decreases 20 - i,
            {
                bytes.push(a[i]);
                i = i + 1;
                proof {
                    assert_seqs_equal!(bytes@ == a@.subrange(0, i as int));
                }
            }
            proof {
                assert_seqs_equal!(bytes@ == a@);
            }
            push_zero_bytes(&mut bytes, 20);
        },
        ClientMessageData::Short(a) => {
            proof {
                lemma_auto_spec_u16_to_from_le_bytes();
            }
            let mut i: usize = 0;
            while i < 10
                invariant
                    i <= 10,
                    bytes@ == le16_concat(a@.subrange(0, i as int)),
                decreases 10 - i,
            {
                push_u16_le(&mut bytes, a[i]);
                i = i + 1;
                proof {
                    lemma_auto_spec_u16_to_from_le_bytes();
                    let prefix = a@.subrange(0, i as int);
                    assert_seqs_equal!(prefix.drop_last() == a@.subrange(0, i - 1));
                    assert(prefix.last() == a@[i - 1]);
                    assert(bytes@ == le16_concat(prefix));
                }
            }
            proof {
                assert_seqs_equal!(a@.subrange(0, 10) == a@);
            }
            push_zero_bytes(&mut bytes, 20);
        },
        ClientMessageData::Long(a) => {
            proof {
                lemma_auto_spec_u32_to_from_le_bytes();
            }
            let mut i: usize = 0;
            while i < 5
                invariant
                    i <= 5,
                    bytes@ == le32_slots(a@.subrange(0, i as int)),
                decreases 5 - i,
            {
                push_u32_le(&mut bytes, a[i]);
                push_zero_bytes(&mut bytes, 4);
                i = i + 1;
                proof {
                    lemma_auto_spec_u32_to_from_le_bytes();
                    let prefix = a@.subrange(0, i as int);
                    assert_seqs_equal!(prefix.drop_last() == a@.subrange(0, i - 1));
                    assert(prefix.last() == a@[i - 1]);
                    assert(bytes@ == le32_slots(prefix));
                }
            }
            proof {
                assert_seqs_equal!(a@.subrange(0, 5) == a@);
            }
        },
    }
    bytes
}

/// Appends the common 40-byte event header.
fn push_header(bytes: &mut Vec<u8>, kind: u32, serial: u32, send_event: bool, target: u32)
    ensures
        final(bytes)@ == old(bytes)@ + header_bytes(kind, serial, send_event, target),
{
    push_u32_le(bytes, kind);
    push_zero_bytes(bytes, 4);
    push_u32_le(bytes, serial);
    push_zero_bytes(bytes, 4);
    push_u32_le(bytes, if send_event { 1 } else { 0 });
    push_zero_bytes(bytes, 4);
    push_zero_bytes(bytes, 8);
    push_u32_le(bytes, target);
    push_zero_bytes(bytes, 4);
    proof {
        assert_seqs_equal!(bytes@ ==
            old(bytes)@ + header_bytes(kind, serial, send_event, target));
    }
}

impl ClientMessageEvent {
    /// Decodes a client message from a native buffer; `None` exactly
    /// when the format field selects no known element width.
    pub fn from_native(native: &XEvent) -> (decoded: Option<ClientMessageEvent>)
        requires
            native.wf(),
        ensures
            decoded == client_message_decode_spec(native@),
    {
        let format = native.read_u32_at(48);
        let data: ClientMessageData;
        if format == 8 {
            let mut a: [u8; 20] = [0; 20];
            let mut i: usize = 0;
            while i < 20
                invariant
                    i <= 20,
                    native.wf(),
                    forall|j: int| 0 <= j < i ==> a@[j] == native@[56 + j],
                decreases 20 - i,
            {
                a[i] = native.get_byte(i);
                i = i + 1;
            }
            proof {
                assert_seqs_equal!(a@ == data_bytes_of(native@));
                lemma_arr20_of(a);
            }
            data = ClientMessageData::Byte(a);
        } else if format == 16 {
            let mut a: [u16; 10] = [0; 10];
            let mut i: usize = 0;
            while i < 10
                invariant
                    i <= 10,
                    native.wf(),
                    forall|j: int| 0 <= j < i ==> a@[j] == le16_at(native@, 56 + 2 * j),
                decreases 10 - i,
            {
                a[i] = native.get_short(i);
                i = i + 1;
            }
            proof {
                assert_seqs_equal!(a@ == data_shorts_of(native@));
                lemma_arr10_of(a);
            }
            data = ClientMessageData::Short(a);
        } else if format == 32 {
            let mut a: [u32; 5] = [0; 5];
            let mut i: usize = 0;
            while i < 5
                invariant
                    i <= 5,
                    native.wf(),
                    forall|j: int| 0 <= j < i ==> a@[j] == le32_at(native@, 56 + 8 * j),
                decreases 5 - i,
            {
                a[i] = native.get_long(i);
                i = i + 1;
            }
            proof {
                assert_seqs_equal!(a@ == data_longs_of(native@));
                lemma_arr5_of(a);
            }
            data = ClientMessageData::Long(a);
        } else {
            return None;
        }
        Some(
            ClientMessageEvent {
                serial: native.read_u32_at(8),
                send_event: native.read_u32_at(16) != 0,
                window: native.read_u32_at(32),
                message_type: native.read_u32_at(40),
                data,
            },
        )
    }

    /// Encodes this client message into a fresh native buffer; every
    /// byte outside the shape's fields is zero.
    pub fn to_native(&self) -> (native: XEvent)
        ensures
            native@ == client_message_encode_spec(*self),
            native.wf(),
    {
        let mut bytes: Vec<u8> = Vec::new();
        push_header(&mut bytes, CLIENT_MESSAGE, self.serial, self.send_event, self.window);
        push_u32_le(&mut bytes, self.message_type);
        push_zero_bytes(&mut bytes, 4);
        push_u32_le(&mut bytes, data_format(&self.data));
        push_zero_bytes(&mut bytes, 4);
        let mut data = client_data_native(&self.data);
        bytes.append(&mut data);
        push_zero_bytes(&mut bytes, 96);
        proof {
            lemma_auto_spec_u32_to_from_le_bytes();
            lemma_client_data_len(self.data);
            assert_seqs_equal!(bytes@ == client_message_encode_spec(*self));
        }
        XEvent::from_vec(bytes)
    }
}

impl DestroyWindowEvent {
    /// Decodes a destroy notification from a native buffer.
    pub fn from_native(native: &XEvent) -> (decoded: DestroyWindowEvent)
        requires
            native.wf(),
        ensures
            decoded == destroy_window_decode_spec(native@),
    {
        DestroyWindowEvent {
            serial: native.read_u32_at(8),
            send_event: native.read_u32_at(16) != 0,
            event: native.read_u32_at(32),
            window: native.read_u32_at(40),
        }
    }

    /// Encodes this destroy notification into a fresh native buffer;
    /// every byte outside the shape's fields is zero.
    pub fn to_native(&self) -> (native: XEvent)
        ensures
            native@ == destroy_window_encode_spec(*self),
            native.wf(),
    {
        let mut bytes: Vec<u8> = Vec::new();
        push_header(&mut bytes, DESTROY_NOTIFY, self.serial, self.send_event, self.event);
        push_u32_le(&mut bytes, self.window);
        push_zero_bytes(&mut bytes, 4);
        push_zero_bytes(&mut bytes, 144);
        proof {
            lemma_auto_spec_u32_to_from_le_bytes();
            assert_seqs_equal!(bytes@ == destroy_window_encode_spec(*self));
        }
        XEvent::from_vec(bytes)
    }
}

impl ExposeEvent {
    /// Decodes an exposure notification from a native buffer.
    pub fn from_native(native: &XEvent) -> (decoded: ExposeEvent)
        requires
            native.wf(),
        ensures
            decoded == expose_decode_spec(native@),
    {
        ExposeEvent {
            serial: native.read_u32_at(8),
            send_event: native.read_u32_at(16) != 0,
            window: native.read_u32_at(32),
            x: i32_of_u32(native.read_u32_at(40)),
            y: i32_of_u32(native.read_u32_at(44)),
            width: i32_of_u32(native.read_u32_at(48)),
            height: i32_of_u32(native.read_u32_at(52)),
            count: i32_of_u32(native.read_u32_at(56)),
        }
    }

    /// Encodes this exposure notification into a fresh native buffer;
    /// every byte outside the shape's fields is zero.
    pub fn to_native(&self) -> (native: XEvent)
        ensures
            native@ == expose_encode_spec(*self),
            native.wf(),
    {
        let mut bytes: Vec<u8> = Vec::new();
        push_header(&mut bytes, EXPOSE, self.serial, self.send_event, self.window);
        push_u32_le(&mut bytes, u32_of_i32(self.x));
        push_u32_le(&mut bytes, u32_of_i32(self.y));
        push_u32_le(&mut bytes, u32_of_i32(self.width));
        push_u32_le(&mut bytes, u32_of_i32(self.height));
        push_u32_le(&mut bytes, u32_of_i32(self.count));
        push_zero_bytes(&mut bytes, 132);
        proof {
            lemma_auto_spec_u32_to_from_le_bytes();
            assert_seqs_equal!(bytes@ == expose_encode_spec(*self));
        }
        XEvent::from_vec(bytes)
    }
}

impl Event {
    /// Decodes a native event buffer by its leading type tag.  An
    /// unknown tag, or a client message with an unknown format, yields
    /// `None`: the caller skips the buffer and fetches the next event.
    pub fn from_native(native: &XEvent) -> (decoded: Option<Event>)
        requires
            native.wf(),
        ensures
            decoded == event_decode_spec(native@),
    {
        let kind = native.kind();
        if kind == CLIENT_MESSAGE {
            match ClientMessageEvent::from_native(native) {
                Some(event) => Some(Event::ClientMessage(event)),
                None => None,
            }
        } else if kind == DESTROY_NOTIFY {
            Some(Event::DestroyWindow(DestroyWindowEvent::from_native(native)))
        } else if kind == EXPOSE {
            Some(Event::Expose(ExposeEvent::from_native(native)))
        } else {
            None
        }
    }

    /// Encodes this event into a fresh, fully-determined native
    /// buffer: every byte is either a field of the shape or zero.
    pub fn to_native(&self) -> (native: XEvent)
        ensures
            native@ == event_encode_spec(*self),
            native.wf(),
    {
        match self {
            Event::ClientMessage(event) => event.to_native(),
            Event::DestroyWindow(event) => event.to_native(),
            Event::Expose(event) => event.to_native(),
        }
    }
}


proof fn lemma_le16_concat_extract(values: Seq<u16>, j: int)
    requires
        0 <= j < values.len(),
    ensures
        le16_concat(values).subrange(2 * j, 2 * j + 2) == spec_u16_to_le_bytes(values[j]),
    decreases values.len(),
{
    lemma_auto_spec_u16_to_from_le_bytes();
    lemma_le16_concat_len(values);
    lemma_le16_concat_len(values.drop_last());
    if j == values.len() - 1 {
        assert_seqs_equal!(le16_concat(values).subrange(2 * j, 2 * j + 2)
            == spec_u16_to_le_bytes(values[j]));
    } else {
        lemma_le16_concat_extract(values.drop_last(), j);
        assert(values.drop_last()[j] == values[j]);
        assert_seqs_equal!(le16_concat(values).subrange(2 * j, 2 * j + 2)
            == le16_concat(values.drop_last()).subrange(2 * j, 2 * j + 2));
    }
}

proof fn lemma_le32_slots_extract(values: Seq<u32>, j: int)
    requires
        0 <= j < values.len(),
    ensures
        le32_slots(values).subrange(8 * j, 8 * j + 4) == spec_u32_to_le_bytes(values[j]),
    decreases values.len(),
{
    lemma_auto_spec_u32_to_from_le_bytes();
    lemma_le32_slots_len(values);
    lemma_le32_slots_len(values.drop_last());
    if j == values.len() - 1 {
        assert_seqs_equal!(le32_slots(values).subrange(8 * j, 8 * j + 4)
            == spec_u32_to_le_bytes(values[j]));
    } else {
        lemma_le32_slots_extract(values.drop_last(), j);
        assert(values.drop_last()[j] == values[j]);
        assert_seqs_equal!(le32_slots(values).subrange(8 * j, 8 * j + 4)
            == le32_slots(values.drop_last()).subrange(8 * j, 8 * j + 4));
    }
}

proof fn lemma_header_round_trip(kind: u32, serial: u32, send_event: bool, target: u32)
    ensures
        header_bytes(kind, serial, send_event, target).len() == 40,
        le32_at(header_bytes(kind, serial, send_event, target), 0) == kind,
        le32_at(header_bytes(kind, serial, send_event, target), 8) == serial,
        le32_at(header_bytes(kind, serial, send_event, target), 16) == flag_word(send_event),
        le32_at(header_bytes(kind, serial, send_event, target), 32) == target,
{
    lemma_auto_spec_u32_to_from_le_bytes();
    let s = header_bytes(kind, serial, send_event, target);
    assert_seqs_equal!(s.subrange(0, 4) == spec_u32_to_le_bytes(kind));
    assert_seqs_equal!(s.subrange(8, 12) == spec_u32_to_le_bytes(serial));
    assert_seqs_equal!(s.subrange(16, 20) == spec_u32_to_le_bytes(flag_word(send_event)));
    assert_seqs_equal!(s.subrange(32, 36) == spec_u32_to_le_bytes(target));
}

/// Round trip of a destroy notification: re-encoding it and decoding
/// the resulting buffer yields the identical event, and the buffer's
/// tag dispatches to the destroy shape.
pub proof fn lemma_destroy_window_round_trip(event: DestroyWindowEvent)
    ensures
        event_decode_spec(destroy_window_encode_spec(event)) == Some(
            Event::DestroyWindow(event),
        ),
{
    lemma_auto_spec_u32_to_from_le_bytes();
    let s = destroy_window_encode_spec(event);
    lemma_header_round_trip(DESTROY_NOTIFY, event.serial, event.send_event, event.event);
    let h = header_bytes(DESTROY_NOTIFY, event.serial, event.send_event, event.event);
    assert_seqs_equal!(s.subrange(0, 4) == h.subrange(0, 4));
    assert_seqs_equal!(s.subrange(8, 12) == h.subrange(8, 12));
    assert_seqs_equal!(s.subrange(16, 20) == h.subrange(16, 20));
    assert_seqs_equal!(s.subrange(32, 36) == h.subrange(32, 36));
    assert_seqs_equal!(s.subrange(40, 44) == spec_u32_to_le_bytes(event.window));
}

/// Round trip of an exposure notification: re-encoding it and decoding
/// the resulting buffer yields the identical event, and the buffer's
/// tag dispatches to the expose shape.
pub proof fn lemma_expose_round_trip(event: ExposeEvent)
    ensures
        event_decode_spec(expose_encode_spec(event)) == Some(Event::Expose(event)),
{
    lemma_auto_spec_u32_to_from_le_bytes();
    let s = expose_encode_spec(event);
    lemma_header_round_trip(EXPOSE, event.serial, event.send_event, event.window);
    let h = header_bytes(EXPOSE, event.serial, event.send_event, event.window);
    assert_seqs_equal!(s.subrange(0, 4) == h.subrange(0, 4));
    assert_seqs_equal!(s.subrange(8, 12) == h.subrange(8, 12));
    assert_seqs_equal!(s.subrange(16, 20) == h.subrange(16, 20));
    assert_seqs_equal!(s.subrange(32, 36) == h.subrange(32, 36));
    assert_seqs_equal!(s.subrange(40, 44) == spec_u32_to_le_bytes(spec_u32_of_i32(event.x)));
    assert_seqs_equal!(s.subrange(44, 48) == spec_u32_to_le_bytes(spec_u32_of_i32(event.y)));
    assert_seqs_equal!(s.subrange(48, 52) == spec_u32_to_le_bytes(spec_u32_of_i32(event.width)));
    assert_seqs_equal!(s.subrange(52, 56) == spec_u32_to_le_bytes(spec_u32_of_i32(event.height)));
    assert_seqs_equal!(s.subrange(56, 60) == spec_u32_to_le_bytes(spec_u32_of_i32(event.count)));
}

/// Round trip of a client message: re-encoding it and decoding the
/// resulting buffer yields the identical event.  In particular each
/// format keeps exactly its own element count and values: twenty bytes,
/// ten half-words or five words.
pub proof fn lemma_client_message_round_trip(event: ClientMessageEvent)
    ensures
        event_decode_spec(client_message_encode_spec(event)) == Some(
            Event::ClientMessage(event),
        ),
{
    lemma_auto_spec_u16_to_from_le_bytes();
    lemma_auto_spec_u32_to_from_le_bytes();
    lemma_client_data_len(event.data);
    let s = client_message_encode_spec(event);
    lemma_header_round_trip(CLIENT_MESSAGE, event.serial, event.send_event, event.window);
    let h = header_bytes(CLIENT_MESSAGE, event.serial, event.send_event, event.window);
    assert_seqs_equal!(s.subrange(0, 4) == h.subrange(0, 4));
    assert_seqs_equal!(s.subrange(8, 12) == h.subrange(8, 12));
    assert_seqs_equal!(s.subrange(16, 20) == h.subrange(16, 20));
    assert_seqs_equal!(s.subrange(32, 36) == h.subrange(32, 36));
    assert_seqs_equal!(s.subrange(40, 44) == spec_u32_to_le_bytes(event.message_type));
    assert_seqs_equal!(s.subrange(48, 52) == spec_u32_to_le_bytes(format_of(event.data)));
    match event.data {
        ClientMessageData::Byte(a) => {
            assert_seqs_equal!(data_bytes_of(s) == a@);
            lemma_arr20_of(a);
        },
        ClientMessageData::Short(a) => {
            lemma_le16_concat_len(a@);
            assert forall|j: int| 0 <= j < 10 implies data_shorts_of(s)[j] == a@[j] by {
                lemma_le16_concat_extract(a@, j);
                assert_seqs_equal!(s.subrange(56 + 2 * j, 56 + 2 * j + 2)
                    == le16_concat(a@).subrange(2 * j, 2 * j + 2));
                assert(data_shorts_of(s)[j] == spec_u16_from_le_bytes(
                    s.subrange(56 + 2 * j, 56 + 2 * j + 2)));
            }
            assert_seqs_equal!(data_shorts_of(s) == a@);
            lemma_arr10_of(a);
        },
        ClientMessageData::Long(a) => {
            lemma_le32_slots_len(a@);
            assert forall|j: int| 0 <= j < 5 implies data_longs_of(s)[j] == a@[j] by {
                lemma_le32_slots_extract(a@, j);
                assert_seqs_equal!(s.subrange(56 + 8 * j, 56 + 8 * j + 4)
                    == le32_slots(a@).subrange(8 * j, 8 * j + 4));
                assert(data_longs_of(s)[j] == spec_u32_from_le_bytes(
                    s.subrange(56 + 8 * j, 56 + 8 * j + 4)));
            }
            assert_seqs_equal!(data_longs_of(s) == a@);
            lemma_arr5_of(a);
        },
    }
}

/// Round trip of the whole event union: re-encoding any typed event and
/// decoding the resulting buffer yields the identical event.
pub proof fn lemma_event_round_trip(event: Event)
    ensures
        event_decode_spec(event_encode_spec(event)) == Some(event),
{
    match event {
        Event::ClientMessage(e) => lemma_client_message_round_trip(e),
        Event::DestroyWindow(e) => lemma_destroy_window_round_trip(e),
        Event::Expose(e) => lemma_expose_round_trip(e),
    }
}

} // verus!
