//! Fixed-layout native records.
//!
//! Field order and widths mirror the protocol library's published
//! structure declarations for an LP64 platform: identifier and mask
//! fields are 64 bits wide, ordinary integer fields 32 bits, color
//! channels 16 bits.  Fields that carry a presence bitmask are modeled
//! with the unsigned type of the native width; boolean fields use the
//! native 32-bit integer convention (zero is false).  Opaque pointers
//! (visual, screen) are carried as 64-bit addresses and never
//! dereferenced here.  The connection layer converts these records
//! field-for-field into the library's own declarations.
use vstd::prelude::*;

use vstd::bytes::{spec_u16_from_le_bytes, spec_u16_to_le_bytes, spec_u32_from_le_bytes,
    spec_u32_to_le_bytes, spec_u64_from_le_bytes, lemma_auto_spec_u16_to_from_le_bytes,
    lemma_auto_spec_u32_to_from_le_bytes, u16_from_le_bytes, u16_to_le_bytes, u32_from_le_bytes,
    u32_to_le_bytes, u64_from_le_bytes};
use vstd::seq_lib::*;
use vstd::slice::slice_subrange;

verus! {

/// The value of `x` reduced to the low 32 bits, as when a 64-bit native
/// identifier is narrowed to the identifier width of the safe model.
pub open spec fn spec_low32(x: u64) -> u32 {
    (x % 0x1_0000_0000) as u32
}

/// Narrows a 64-bit native value to its low 32 bits.
pub fn low32(x: u64) -> (narrowed: u32)
    ensures
        narrowed == spec_low32(x),
{
    (x % 0x1_0000_0000) as u32
}

/// The unsigned 32-bit value with the same two's-complement bit pattern
/// as `x`.
pub open spec fn spec_u32_of_i32(x: i32) -> u32 {
    if x >= 0 {
        x as u32
    } else {
        (x + 0x1_0000_0000) as u32
    }
}

/// Reinterprets a signed 32-bit value as unsigned, two's complement.
pub fn u32_of_i32(x: i32) -> (reinterpreted: u32)
    ensures
        reinterpreted == spec_u32_of_i32(x),
{
    if x >= 0 {
        x as u32
    } else {
        ((x as i64) + 0x1_0000_0000) as u32
    }
}

/// The signed 32-bit value with the same two's-complement bit pattern
/// as `x`.
pub open spec fn spec_i32_of_u32(x: u32) -> i32 {
    if x < 0x8000_0000 {
        x as i32
    } else {
        (x - 0x1_0000_0000) as i32
    }
}

/// Reinterprets an unsigned 32-bit value as signed, two's complement.
pub fn i32_of_u32(x: u32) -> (reinterpreted: i32)
    ensures
        reinterpreted == spec_i32_of_u32(x),
{
    if x < 0x8000_0000 {
        x as i32
    } else {
        ((x as i64) - 0x1_0000_0000) as i32
    }
}

/// The value of `x` reduced to the low 16 bits, as when a 32-bit
/// coordinate is narrowed to a 16-bit native field.
pub open spec fn spec_u16_wrap_of_i32(x: i32) -> u16 {
    (spec_u32_of_i32(x) % 0x1_0000) as u16
}

/// Narrows a signed 32-bit value to an unsigned 16-bit native field,
/// keeping the low 16 bits.
pub fn u16_wrap_of_i32(x: i32) -> (narrowed: u16)
    ensures
        narrowed == spec_u16_wrap_of_i32(x),
{
    (u32_of_i32(x) % 0x1_0000) as u16
}

/// The signed 16-bit value whose two's-complement bit pattern is the low
/// 16 bits of `x`.
pub open spec fn spec_i16_wrap_of_i32(x: i32) -> i16 {
    let low: u16 = spec_u16_wrap_of_i32(x);
    if low < 0x8000 {
        low as i16
    } else {
        (low - 0x1_0000) as i16
    }
}

/// Narrows a signed 32-bit value to a signed 16-bit native field,
/// keeping the low 16 bits.
pub fn i16_wrap_of_i32(x: i32) -> (narrowed: i16)
    ensures
        narrowed == spec_i16_wrap_of_i32(x),
{
    let low: u16 = u16_wrap_of_i32(x);
    if low < 0x8000 {
        low as i16
    } else {
        ((low as i32) - 0x1_0000) as i16
    }
}

/// A pair of 32-bit coordinates, used for the aspect-ratio fields of the
/// size-hints record.
#[derive(Clone, Copy, Debug, PartialEq, Eq, Structural)]
pub struct Point {
    pub x: i32,
    pub y: i32,
}

/// Native color record.  `flags` holds the per-channel presence bits.
#[derive(Clone, Copy, Debug, PartialEq, Eq, Structural)]
pub struct XColor {
    pub pixel: u64,
    pub red: u16,
    pub green: u16,
    pub blue: u16,
    pub flags: u8,
    pub pad: u8,
}

/// Native graphics-context values record.  Every field is populated on
/// encode; the companion presence bitmask says which ones are meaningful.
#[derive(Clone, Copy, Debug, PartialEq, Eq, Structural)]
pub struct XGCValues {
    pub function: i32,
    pub plane_mask: u64,
    pub foreground: u64,
    pub background: u64,
    pub line_width: i32,
    pub line_style: i32,
    pub cap_style: i32,
    pub join_style: i32,
    pub fill_style: i32,
    pub fill_rule: i32,
    pub arc_mode: i32,
    pub tile: u64,
    pub stipple: u64,
    pub ts_x_origin: i32,
    pub ts_y_origin: i32,
    pub font: u64,
    pub subwindow_mode: i32,
    pub graphics_exposures: i32,
    pub clip_x_origin: i32,
    pub clip_y_origin: i32,
    pub clip_mask: u64,
    pub dash_offset: i32,
    pub dashes: u8,
}

/// Native clip rectangle: 16-bit position and extent.
#[derive(Clone, Copy, Debug, PartialEq, Eq, Structural)]
pub struct XRectangle {
    pub x: i16,
    pub y: i16,
    pub width: u16,
    pub height: u16,
}

/// Native window-attributes record used when creating or changing a
/// window, paired with a presence bitmask.
#[derive(Clone, Copy, Debug, PartialEq, Eq, Structural)]
pub struct XSetWindowAttributes {
    pub background_pixmap: u64,
    pub background_pixel: u64,
    pub border_pixmap: u64,
    pub border_pixel: u64,
    pub bit_gravity: i32,
    pub win_gravity: i32,
    pub backing_store: i32,
    pub backing_planes: u64,
    pub backing_pixel: u64,
    pub save_under: i32,
    pub event_mask: u64,
    pub do_not_propagate_mask: u64,
    pub override_redirect: i32,
    pub colormap: u64,
    pub cursor: u64,
}

/// Native size-hints record.  Unlike the other optional records, its
/// presence bitmask travels inside the record, in `flags`.
#[derive(Clone, Copy, Debug, PartialEq, Eq, Structural)]
pub struct XSizeHints {
    pub flags: u64,
    pub x: i32,
    pub y: i32,
    pub width: i32,
    pub height: i32,
    pub min_width: i32,
    pub min_height: i32,
    pub max_width: i32,
    pub max_height: i32,
    pub width_inc: i32,
    pub height_inc: i32,
    pub min_aspect: Point,
    pub max_aspect: Point,
    pub base_width: i32,
    pub base_height: i32,
    pub win_gravity: i32,
}

/// Native visual-descriptor record, used both as the result of a visual
/// query and (paired with a presence bitmask) as its search template.
#[derive(Clone, Copy, Debug, PartialEq, Eq, Structural)]
pub struct XVisualInfo {
    pub visual: u64,
    pub visualid: u64,
    pub screen: i32,
    pub depth: u32,
    pub class: i32,
    pub red_mask: u64,
    pub green_mask: u64,
    pub blue_mask: u64,
    pub colormap_size: i32,
    pub bits_per_rgb: i32,
}

/// Native record returned by a window-attributes query.
#[derive(Clone, Copy, Debug, PartialEq, Eq, Structural)]
pub struct XWindowAttributes {
    pub x: i32,
    pub y: i32,
    pub width: i32,
    pub height: i32,
    pub border_width: i32,
    pub depth: i32,
    pub visual: u64,
    pub root: u64,
    pub class: i32,
    pub bit_gravity: i32,
    pub win_gravity: i32,
    pub backing_store: i32,
    pub backing_planes: u64,
    pub backing_pixel: u64,
    pub save_under: i32,
    pub colormap: u64,
    pub map_installed: i32,
    pub map_state: i32,
    pub all_event_masks: u64,
    pub your_event_mask: u64,
    pub do_not_propagate_mask: u64,
    pub override_redirect: i32,
    pub screen: u64,
}


/// The size in bytes of the native event buffer: the protocol's
/// conventional 24 machine words of 8 bytes each, large enough for the
/// widest event shape.
pub const EVENT_BYTES: usize = 192;

/// A sequence of `n` zero bytes.
pub open spec fn zero_bytes(n: nat) -> Seq<u8> {
    Seq::new(n, |i: int| 0u8)
}

/// The 32-bit little-endian value stored at byte offset `off`.
pub open spec fn le32_at(s: Seq<u8>, off: int) -> u32 {
    spec_u32_from_le_bytes(s.subrange(off, off + 4))
}

/// The 16-bit little-endian value stored at byte offset `off`.
pub open spec fn le16_at(s: Seq<u8>, off: int) -> u16 {
    spec_u16_from_le_bytes(s.subrange(off, off + 2))
}

/// The 64-bit little-endian value stored at byte offset `off`.
pub open spec fn le64_at(s: Seq<u8>, off: int) -> u64 {
    spec_u64_from_le_bytes(s.subrange(off, off + 8))
}

/// `s` with the bytes at `off .. off + piece.len()` replaced by `piece`.
pub open spec fn splice_bytes(s: Seq<u8>, off: int, piece: Seq<u8>) -> Seq<u8> {
    s.subrange(0, off) + piece + s.subrange(off + piece.len(), s.len() as int)
}

/// Appends the two little-endian bytes of `x`.
pub fn push_u16_le(bytes: &mut Vec<u8>, x: u16)
    ensures
        final(bytes)@ == old(bytes)@ + spec_u16_to_le_bytes(x),
{
    proof {
        lemma_auto_spec_u16_to_from_le_bytes();
    }
    let piece = u16_to_le_bytes(x);
    bytes.push(piece[0]);
    bytes.push(piece[1]);
    proof {
        assert_seqs_equal!(bytes@ == old(bytes)@ + spec_u16_to_le_bytes(x));
    }
}

/// Appends the four little-endian bytes of `x`.
pub fn push_u32_le(bytes: &mut Vec<u8>, x: u32)
    ensures
        final(bytes)@ == old(bytes)@ + spec_u32_to_le_bytes(x),
{
    proof {
        lemma_auto_spec_u32_to_from_le_bytes();
    }
    let piece = u32_to_le_bytes(x);
    bytes.push(piece[0]);
    bytes.push(piece[1]);
    bytes.push(piece[2]);
    bytes.push(piece[3]);
    proof {
        assert_seqs_equal!(bytes@ == old(bytes)@ + spec_u32_to_le_bytes(x));
    }
}

/// Appends `n` zero bytes.
pub fn push_zero_bytes(bytes: &mut Vec<u8>, n: usize)
    ensures
        final(bytes)@ == old(bytes)@ + zero_bytes(n as nat),
{
    let mut pushed: usize = 0;
    while pushed < n
        invariant
            pushed <= n,
            bytes@ == old(bytes)@ + zero_bytes(pushed as nat),
        decreases n - pushed,
    {
        bytes.push(0);
        pushed = pushed + 1;
        proof {
            assert_seqs_equal!(bytes@ == old(bytes)@ + zero_bytes(pushed as nat));
        }
    }
    proof {
        assert_seqs_equal!(bytes@ == old(bytes)@ + zero_bytes(n as nat));
    }
}

/// The fixed-size opaque native event buffer.  The protocol's client
/// library declares the event as a union of per-shape records sharing a
/// common header; this type carries those bytes in the machine's own
/// little-endian layout, and the event codec interprets them through
/// each shape's published byte offsets.
pub struct XEvent {
    bytes: Vec<u8>,
}

impl View for XEvent {
    type V = Seq<u8>;

    closed spec fn view(&self) -> Seq<u8> {
        self.bytes@
    }
}

impl XEvent {
    /// A well-formed event buffer holds exactly [`EVENT_BYTES`] bytes.
    pub open spec fn wf(&self) -> bool {
        self@.len() == EVENT_BYTES
    }

    /// Returns an all-zero event buffer.
    pub fn zeroed() -> (event: XEvent)
        ensures
            event@ == zero_bytes(EVENT_BYTES as nat),
            event.wf(),
    {
        let mut bytes: Vec<u8> = Vec::new();
        push_zero_bytes(&mut bytes, EVENT_BYTES);
        proof {
            assert_seqs_equal!(bytes@ == zero_bytes(EVENT_BYTES as nat));
        }
        XEvent { bytes }
    }

    /// Wraps a raw buffer of exactly [`EVENT_BYTES`] bytes, as received
    /// from the native library.
    pub fn from_vec(bytes: Vec<u8>) -> (event: XEvent)
        requires
            bytes@.len() == EVENT_BYTES,
        ensures
            event@ == bytes@,
            event.wf(),
    {
        XEvent { bytes }
    }

    /// Borrows the underlying bytes.
    pub fn as_bytes(&self) -> (bytes: &Vec<u8>)
        ensures
            bytes@ == self@,
    {
        &self.bytes
    }

    /// Reads the byte at `index`.
    pub fn byte_at(&self, index: usize) -> (value: u8)
        requires
            self.wf(),
            index < EVENT_BYTES,
        ensures
            value == self@[index as int],
    {
        self.bytes[index]
    }

    /// Overwrites the byte at `index`.
    pub fn set_byte_at(&mut self, index: usize, value: u8)
        requires
            old(self).wf(),
            index < EVENT_BYTES,
        ensures
            final(self)@ == old(self)@.update(index as int, value),
            final(self).wf(),
    {
        self.bytes.set(index, value);
    }

    /// Reads the 32-bit little-endian word at byte offset `off`.
    pub fn read_u32_at(&self, off: usize) -> (value: u32)
        requires
            self.wf(),
            off + 4 <= EVENT_BYTES,
        ensures
            value == le32_at(self@, off as int),
    {
        u32_from_le_bytes(slice_subrange(self.bytes.as_slice(), off, off + 4))
    }

    /// Reads the 16-bit little-endian word at byte offset `off`.
    pub fn read_u16_at(&self, off: usize) -> (value: u16)
        requires
            self.wf(),
            off + 2 <= EVENT_BYTES,
        ensures
            value == le16_at(self@, off as int),
    {
        u16_from_le_bytes(slice_subrange(self.bytes.as_slice(), off, off + 2))
    }

    /// Reads the 64-bit little-endian word at byte offset `off`.
    pub fn read_u64_at(&self, off: usize) -> (value: u64)
        requires
            self.wf(),
            off + 8 <= EVENT_BYTES,
        ensures
            value == le64_at(self@, off as int),
    {
        u64_from_le_bytes(slice_subrange(self.bytes.as_slice(), off, off + 8))
    }

    /// The type tag of the event: the first 32-bit word of the buffer.
    pub fn kind(&self) -> (tag: u32)
        requires
            self.wf(),
        ensures
            tag == le32_at(self@, 0),
    {
        self.read_u32_at(0)
    }

    /// The target resource of the common event header: the 64-bit
    /// identifier word every shape stores at the same offset.
    pub fn window(&self) -> (id: u64)
        requires
            self.wf(),
        ensures
            id == le64_at(self@, 32),
    {
        self.read_u64_at(32)
    }
}

} // verus!
