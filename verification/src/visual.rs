//! Visual descriptors: the opaque visual handle, the visual class
//! constants, the decoded visual-information record and the optional
//! search template.
use vstd::prelude::*;

use crate::Xid;
use crate::internal::{FieldMask, FromNative, ToNative, bit_if, mask_bit};
use crate::native::{XVisualInfo, spec_i32_of_u32, spec_low32, spec_u32_of_i32, i32_of_u32, low32,
    u32_of_i32};

verus! {

/// Visual resource identifier type.
pub type VisualId = Xid;

/// A locally-held opaque address of an immutable, library-owned visual
/// record.  Identity comparison only; never dereferenced in this crate.
/// Zero is the valid "no visual" sentinel.
#[derive(Clone, Copy, Debug, PartialEq, Eq, Structural, Hash)]
pub struct Visual {
    addr: u64,
}

impl FromNative<u64> for Visual {
    closed spec fn from_native_spec(addr: u64) -> Visual {
        Visual { addr }
    }

    fn from_native(addr: u64) -> (visual: Visual) {
        Visual { addr }
    }
}

impl ToNative<u64> for Visual {
    closed spec fn to_native_spec(&self) -> u64 {
        self.addr
    }

    fn to_native(&self) -> (addr: u64) {
        self.addr
    }
}

/// A visual handle is exactly its address: wrapping an address and
/// reading it back is the identity, in both directions.
pub proof fn lemma_visual_handle_identity(visual: Visual, addr: u64)
    ensures
        Visual::from_native_spec(addr).to_native_spec() == addr,
        Visual::from_native_spec(visual.to_native_spec()) == visual,
{
}

/// The six visual classes the protocol defines.
#[derive(Clone, Copy, Debug, Eq, Hash, PartialEq, Structural)]
pub enum VisualClass {
    StaticGray,
    GrayScale,
    StaticColor,
    PseudoColor,
    TrueColor,
    DirectColor,
}

impl FromNative<i32> for Option<VisualClass> {
    open spec fn from_native_spec(num: i32) -> Option<VisualClass> {
        match num {
            0 => Some(VisualClass::StaticGray),
            1 => Some(VisualClass::GrayScale),
            2 => Some(VisualClass::StaticColor),
            3 => Some(VisualClass::PseudoColor),
            4 => Some(VisualClass::TrueColor),
            5 => Some(VisualClass::DirectColor),
            _ => None,
        }
    }

    fn from_native(num: i32) -> (class: Self) {
        match num {
            0 => Some(VisualClass::StaticGray),
            1 => Some(VisualClass::GrayScale),
            2 => Some(VisualClass::StaticColor),
            3 => Some(VisualClass::PseudoColor),
            4 => Some(VisualClass::TrueColor),
            5 => Some(VisualClass::DirectColor),
            _ => None,
        }
    }
}

impl ToNative<i32> for VisualClass {
    open spec fn to_native_spec(&self) -> i32 {
        match *self {
            VisualClass::StaticGray => 0,
            VisualClass::GrayScale => 1,
            VisualClass::StaticColor => 2,
            VisualClass::PseudoColor => 3,
            VisualClass::TrueColor => 4,
            VisualClass::DirectColor => 5,
        }
    }

    fn to_native(&self) -> (num: i32) {
        match *self {
            VisualClass::StaticGray => 0,
            VisualClass::GrayScale => 1,
            VisualClass::StaticColor => 2,
            VisualClass::PseudoColor => 3,
            VisualClass::TrueColor => 4,
            VisualClass::DirectColor => 5,
        }
    }
}

/// Encoding a visual class and decoding the result is the identity, for
/// every named class; so no two classes share a native constant.
pub proof fn lemma_visual_class_round_trip(class: VisualClass)
    ensures
        <Option<VisualClass> as FromNative<i32>>::from_native_spec(class.to_native_spec())
            == Some(class),
{
}

/// Decoded visual information, the safe counterpart of [`XVisualInfo`].
#[derive(Clone, Copy, Debug, PartialEq)]
pub struct VisualInfo {
    pub visual: Visual,
    pub visual_id: VisualId,
    pub screen: i32,
    pub depth: i32,
    pub class: VisualClass,
    pub red_mask: u32,
    pub green_mask: u32,
    pub blue_mask: u32,
    pub colormap_size: i32,
    pub bits_per_rgb: i32,
}

impl FromNative<XVisualInfo> for Option<VisualInfo> {
    open spec fn from_native_spec(native: XVisualInfo) -> Option<VisualInfo> {
        match <Option<VisualClass> as FromNative<i32>>::from_native_spec(native.class) {
            Some(class) => Some(
                VisualInfo {
                    visual: <Visual as FromNative<u64>>::from_native_spec(native.visual),
                    visual_id: spec_low32(native.visualid),
                    screen: native.screen,
                    depth: spec_i32_of_u32(native.depth),
                    class,
                    red_mask: spec_low32(native.red_mask),
                    green_mask: spec_low32(native.green_mask),
                    blue_mask: spec_low32(native.blue_mask),
                    colormap_size: native.colormap_size,
                    bits_per_rgb: native.bits_per_rgb,
                },
            ),
            None => None,
        }
    }

    fn from_native(native: XVisualInfo) -> (info: Self) {
        let class = if let Some(class) = <Option<VisualClass> as FromNative<i32>>::from_native(
            native.class,
        ) {
            class
        } else {
            return None;
        };
        Some(
            VisualInfo {
                visual: Visual::from_native(native.visual),
                visual_id: low32(native.visualid),
                screen: native.screen,
                depth: i32_of_u32(native.depth),
                class,
                red_mask: low32(native.red_mask),
                green_mask: low32(native.green_mask),
                blue_mask: low32(native.blue_mask),
                colormap_size: native.colormap_size,
                bits_per_rgb: native.bits_per_rgb,
            },
        )
    }
}

/// Optional search template for visual queries: each field narrows the
/// search only when present.
#[derive(Clone, Copy, Debug, Default, PartialEq)]
pub struct VisualTemplate {
    pub visual_id: Option<VisualId>,
    pub screen: Option<i32>,
    pub depth: Option<i32>,
    pub class: Option<VisualClass>,
    pub red_mask: Option<u32>,
    pub green_mask: Option<u32>,
    pub blue_mask: Option<u32>,
    pub colormap_size: Option<i32>,
    pub bits_per_rgb: Option<i32>,
}

impl FieldMask<u64> for VisualTemplate {
    open spec fn field_mask_spec(&self) -> u64 {
        (
            bit_if(self.visual_id is Some, 0x0001) +
            bit_if(self.screen is Some, 0x0002) +
            bit_if(self.depth is Some, 0x0004) +
            bit_if(self.class is Some, 0x0008) +
            bit_if(self.red_mask is Some, 0x0010) +
            bit_if(self.green_mask is Some, 0x0020) +
            bit_if(self.blue_mask is Some, 0x0040) +
            bit_if(self.colormap_size is Some, 0x0080) +
            bit_if(self.bits_per_rgb is Some, 0x0100)
        ) as u64
    }

    fn field_mask(&self) -> (mask: u64) {
        let mask: u64 = mask_bit(&self.visual_id, 0x0001);
        let mask: u64 = mask + mask_bit(&self.screen, 0x0002);
        let mask: u64 = mask + mask_bit(&self.depth, 0x0004);
        let mask: u64 = mask + mask_bit(&self.class, 0x0008);
        let mask: u64 = mask + mask_bit(&self.red_mask, 0x0010);
        let mask: u64 = mask + mask_bit(&self.green_mask, 0x0020);
        let mask: u64 = mask + mask_bit(&self.blue_mask, 0x0040);
        let mask: u64 = mask + mask_bit(&self.colormap_size, 0x0080);
        let mask: u64 = mask + mask_bit(&self.bits_per_rgb, 0x0100);
        mask
    }
}

proof fn lemma_visual_template_mask_sum_is_or(
    c0: bool,
    c1: bool,
    c2: bool,
    c3: bool,
    c4: bool,
    c5: bool,
    c6: bool,
    c7: bool,
    c8: bool,
)
    by (bit_vector)
    ensures
        (bit_if(c0, 0x0001) + bit_if(c1, 0x0002) + bit_if(c2, 0x0004) + bit_if(c3, 0x0008) + bit_if(c4, 0x0010) + bit_if(c5, 0x0020) + bit_if(c6, 0x0040) + bit_if(c7, 0x0080) + bit_if(c8, 0x0100)) as u64
            == bit_if(c0, 0x0001) | bit_if(c1, 0x0002) | bit_if(c2, 0x0004) | bit_if(c3, 0x0008) | bit_if(c4, 0x0010) | bit_if(c5, 0x0020) | bit_if(c6, 0x0040) | bit_if(c7, 0x0080) | bit_if(c8, 0x0100),
{
}

/// The presence bitmask of a template is the bitwise OR of exactly the
/// published bit constants of its present fields.
pub proof fn lemma_visual_template_mask_is_bit_or(values: VisualTemplate)
    ensures
        values.field_mask_spec() == (bit_if(values.visual_id is Some, 0x0001)
            | bit_if(values.screen is Some, 0x0002)
            | bit_if(values.depth is Some, 0x0004)
            | bit_if(values.class is Some, 0x0008)
            | bit_if(values.red_mask is Some, 0x0010)
            | bit_if(values.green_mask is Some, 0x0020)
            | bit_if(values.blue_mask is Some, 0x0040)
            | bit_if(values.colormap_size is Some, 0x0080)
            | bit_if(values.bits_per_rgb is Some, 0x0100)),
{
    lemma_visual_template_mask_sum_is_or(
        values.visual_id is Some,
        values.screen is Some,
        values.depth is Some,
        values.class is Some,
        values.red_mask is Some,
        values.green_mask is Some,
        values.blue_mask is Some,
        values.colormap_size is Some,
        values.bits_per_rgb is Some,
    );
}

impl ToNative<XVisualInfo> for VisualTemplate {
    open spec fn to_native_spec(&self) -> XVisualInfo {
        XVisualInfo {
            visual: 0,
            visualid: if let Some(id) = self.visual_id { id as u64 } else { 0 },
            screen: if let Some(n) = self.screen { n } else { 0 },
            depth: if let Some(d) = self.depth { spec_u32_of_i32(d) } else { 0 },
            class: if let Some(c) = self.class { c.to_native_spec() } else { 0 },
            red_mask: if let Some(m) = self.red_mask { m as u64 } else { 0 },
            green_mask: if let Some(m) = self.green_mask { m as u64 } else { 0 },
            blue_mask: if let Some(m) = self.blue_mask { m as u64 } else { 0 },
            colormap_size: if let Some(n) = self.colormap_size { n } else { 0 },
            bits_per_rgb: if let Some(n) = self.bits_per_rgb { n } else { 0 },
        }
    }

    fn to_native(&self) -> (native: XVisualInfo) {
        XVisualInfo {
            visual: 0,
            visualid: if let Some(id) = self.visual_id { id as u64 } else { 0 },
            screen: if let Some(n) = self.screen { n } else { 0 },
            depth: if let Some(d) = self.depth { u32_of_i32(d) } else { 0 },
            class: if let Some(c) = self.class { c.to_native() } else { 0 },
            red_mask: if let Some(m) = self.red_mask { m as u64 } else { 0 },
            green_mask: if let Some(m) = self.green_mask { m as u64 } else { 0 },
            blue_mask: if let Some(m) = self.blue_mask { m as u64 } else { 0 },
            colormap_size: if let Some(n) = self.colormap_size { n } else { 0 },
            bits_per_rgb: if let Some(n) = self.bits_per_rgb { n } else { 0 },
        }
    }
}

} // verus!
