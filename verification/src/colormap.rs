//! Colormaps and the optional-channel color value.
use vstd::prelude::*;

use crate::Xid;
use crate::internal::{FieldMask, FromNative, ToNative, bit_if8, chan_or_zero, has_bit8, mask_bit8,
    mask_test8};
use crate::native::{XColor, spec_low32, low32};

verus! {

/// Colormap identifier type.
pub type Colormap = Xid;

/// A color cell: a pixel value and three independently-optional
/// channels.  The native record's `flags` byte records which channels
/// are meaningful.
#[derive(Clone, Copy, Debug, Default, Eq, Hash, PartialEq)]
pub struct Color {
    pub pixel: u32,
    pub red: Option<u16>,
    pub green: Option<u16>,
    pub blue: Option<u16>,
}

impl FieldMask<u8> for Color {
    open spec fn field_mask_spec(&self) -> u8 {
        (bit_if8(self.red is Some, 0x01) + bit_if8(self.green is Some, 0x02) + bit_if8(
            self.blue is Some,
            0x04,
        )) as u8
    }

    fn field_mask(&self) -> (mask: u8) {
        let mask: u8 = mask_bit8(&self.red, 0x01);
        let mask: u8 = mask + mask_bit8(&self.green, 0x02);
        let mask: u8 = mask + mask_bit8(&self.blue, 0x04);
        mask
    }
}

/// The channel-presence mask is the bitwise OR of exactly the published
/// channel bits of the present channels.
pub proof fn lemma_color_mask_is_bit_or(color: Color)
    ensures
        color.field_mask_spec() == (bit_if8(color.red is Some, 0x01) | bit_if8(
            color.green is Some,
            0x02,
        ) | bit_if8(color.blue is Some, 0x04)),
{
    lemma_color_mask_sum_is_or(color.red is Some, color.green is Some, color.blue is Some);
}

proof fn lemma_color_mask_sum_is_or(c0: bool, c1: bool, c2: bool)
    by (bit_vector)
    ensures
        (bit_if8(c0, 0x01) + bit_if8(c1, 0x02) + bit_if8(c2, 0x04)) as u8 == bit_if8(c0, 0x01)
            | bit_if8(c1, 0x02) | bit_if8(c2, 0x04),
{
}

impl FromNative<XColor> for Color {
    open spec fn from_native_spec(native: XColor) -> Color {
        Color {
            pixel: spec_low32(native.pixel),
            red: if mask_test8(native.flags, 0x01) {
                Some(native.red)
            } else {
                None
            },
            green: if mask_test8(native.flags, 0x02) {
                Some(native.green)
            } else {
                None
            },
            blue: if mask_test8(native.flags, 0x04) {
                Some(native.blue)
            } else {
                None
            },
        }
    }

    fn from_native(native: XColor) -> (color: Color) {
        Color {
            pixel: low32(native.pixel),
            red: if has_bit8(native.flags, 0x01) {
                Some(native.red)
            } else {
                None
            },
            green: if has_bit8(native.flags, 0x02) {
                Some(native.green)
            } else {
                None
            },
            blue: if has_bit8(native.flags, 0x04) {
                Some(native.blue)
            } else {
                None
            },
        }
    }
}

impl ToNative<XColor> for Color {
    open spec fn to_native_spec(&self) -> XColor {
        XColor {
            pixel: self.pixel as u64,
            red: if let Some(n) = self.red { n } else { 0 },
            green: if let Some(n) = self.green { n } else { 0 },
            blue: if let Some(n) = self.blue { n } else { 0 },
            flags: self.field_mask_spec(),
            pad: 0,
        }
    }

    fn to_native(&self) -> (native: XColor) {
        XColor {
            pixel: self.pixel as u64,
            red: chan_or_zero(&self.red),
            green: chan_or_zero(&self.green),
            blue: chan_or_zero(&self.blue),
            flags: self.field_mask(),
            pad: 0,
        }
    }
}

/// Encoding a color and decoding the result reproduces exactly the
/// present channels and their values; absent channels decode as absent,
/// never as a spuriously present value.
pub proof fn lemma_color_round_trip(color: Color)
    ensures
        Color::from_native_spec(color.to_native_spec()) == color,
{
    lemma_color_mask_bits(
        color.red is Some,
        color.green is Some,
        color.blue is Some,
        color.field_mask_spec(),
    );
}

proof fn lemma_color_mask_bits(c0: bool, c1: bool, c2: bool, mask: u8)
    by (bit_vector)
    requires
        mask == (bit_if8(c0, 0x01) + bit_if8(c1, 0x02) + bit_if8(c2, 0x04)) as u8,
    ensures
        mask_test8(mask, 0x01) == c0,
        mask_test8(mask, 0x02) == c1,
        mask_test8(mask, 0x04) == c2,
{
}

} // verus!
