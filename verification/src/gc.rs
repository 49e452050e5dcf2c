//! Graphics-context values: the enumerated drawing constants and the
//! optional value set handed to context creation.
use vstd::prelude::*;

use crate::Xid;
use crate::font::Font;
use crate::internal::{FieldMask, ToNative, flag_or_zero, int_or_zero, bit_if, mask_bit, to_native_or,
    wide_or_zero};
use crate::native::{XGCValues, XRectangle, spec_i16_wrap_of_i32, spec_u16_wrap_of_i32,
    i16_wrap_of_i32, u16_wrap_of_i32};
use crate::pixmap::Pixmap;

verus! {

/// Graphics context resource identifier type.
pub type Gcid = Xid;

/// How arcs are closed when filled.
#[derive(Clone, Copy, Debug, Eq, Hash, PartialEq, Structural)]
pub enum ArcMode {
    Chord,
    PieSlice,
}

impl ToNative<i32> for ArcMode {
    open spec fn to_native_spec(&self) -> i32 {
        match *self {
            ArcMode::Chord => 0,
            ArcMode::PieSlice => 1,
        }
    }

    fn to_native(&self) -> (num: i32) {
        match *self {
            ArcMode::Chord => 0,
            ArcMode::PieSlice => 1,
        }
    }
}

/// How line ends are drawn.
#[derive(Clone, Copy, Debug, Eq, Hash, PartialEq, Structural)]
pub enum CapStyle {
    NotLast,
    Butt,
    Round,
    Projecting,
}

impl ToNative<i32> for CapStyle {
    open spec fn to_native_spec(&self) -> i32 {
        match *self {
            CapStyle::NotLast => 0,
            CapStyle::Butt => 1,
            CapStyle::Round => 2,
            CapStyle::Projecting => 3,
        }
    }

    fn to_native(&self) -> (num: i32) {
        match *self {
            CapStyle::NotLast => 0,
            CapStyle::Butt => 1,
            CapStyle::Round => 2,
            CapStyle::Projecting => 3,
        }
    }
}

/// Ordering promise for a list of clip rectangles.
#[derive(Clone, Copy, Debug, Eq, Hash, PartialEq, Structural)]
pub enum ClipOrdering {
    Unsorted,
    YSorted,
    YXSorted,
    YXBanded,
}

impl ToNative<i32> for ClipOrdering {
    open spec fn to_native_spec(&self) -> i32 {
        match *self {
            ClipOrdering::Unsorted => 0,
            ClipOrdering::YSorted => 1,
            ClipOrdering::YXSorted => 2,
            ClipOrdering::YXBanded => 3,
        }
    }

    fn to_native(&self) -> (num: i32) {
        match *self {
            ClipOrdering::Unsorted => 0,
            ClipOrdering::YSorted => 1,
            ClipOrdering::YXSorted => 2,
            ClipOrdering::YXBanded => 3,
        }
    }
}

/// Which interior points a filled polygon includes.
#[derive(Clone, Copy, Debug, Eq, Hash, PartialEq, Structural)]
pub enum FillRule {
    EvenOdd,
    Winding,
}

impl ToNative<i32> for FillRule {
    open spec fn to_native_spec(&self) -> i32 {
        match *self {
            FillRule::EvenOdd => 0,
            FillRule::Winding => 1,
        }
    }

    fn to_native(&self) -> (num: i32) {
        match *self {
            FillRule::EvenOdd => 0,
            FillRule::Winding => 1,
        }
    }
}

/// Source of pixels when filling.
#[derive(Clone, Copy, Debug, Eq, Hash, PartialEq, Structural)]
pub enum FillStyle {
    Solid,
    Tiled,
    Stippled,
    OpaqueStippled,
}

impl ToNative<i32> for FillStyle {
    open spec fn to_native_spec(&self) -> i32 {
        match *self {
            FillStyle::Solid => 0,
            FillStyle::Tiled => 1,
            FillStyle::Stippled => 2,
            FillStyle::OpaqueStippled => 3,
        }
    }

    fn to_native(&self) -> (num: i32) {
        match *self {
            FillStyle::Solid => 0,
            FillStyle::Tiled => 1,
            FillStyle::Stippled => 2,
            FillStyle::OpaqueStippled => 3,
        }
    }
}

/// The sixteen raster operations a graphics context can apply.
#[derive(Clone, Copy, Debug, Eq, Hash, PartialEq, Structural)]
pub enum GcFunction {
    Clear,
    And,
    AndReverse,
    Copy,
    AndInverted,
    Noop,
    Xor,
    Or,
    Nor,
    Equiv,
    Invert,
    OrReverse,
    CopyInverted,
    OrInverted,
    Nand,
    SetAll,
}

impl ToNative<i32> for GcFunction {
    open spec fn to_native_spec(&self) -> i32 {
        match *self {
            GcFunction::Clear => 0,
            GcFunction::And => 1,
            GcFunction::AndReverse => 2,
            GcFunction::Copy => 3,
            GcFunction::AndInverted => 4,
            GcFunction::Noop => 5,
            GcFunction::Xor => 6,
            GcFunction::Or => 7,
            GcFunction::Nor => 8,
            GcFunction::Equiv => 9,
            GcFunction::Invert => 10,
            GcFunction::OrReverse => 11,
            GcFunction::CopyInverted => 12,
            GcFunction::OrInverted => 13,
            GcFunction::Nand => 14,
            GcFunction::SetAll => 15,
        }
    }

    fn to_native(&self) -> (num: i32) {
        match *self {
            GcFunction::Clear => 0,
            GcFunction::And => 1,
            GcFunction::AndReverse => 2,
            GcFunction::Copy => 3,
            GcFunction::AndInverted => 4,
            GcFunction::Noop => 5,
            GcFunction::Xor => 6,
            GcFunction::Or => 7,
            GcFunction::Nor => 8,
            GcFunction::Equiv => 9,
            GcFunction::Invert => 10,
            GcFunction::OrReverse => 11,
            GcFunction::CopyInverted => 12,
            GcFunction::OrInverted => 13,
            GcFunction::Nand => 14,
            GcFunction::SetAll => 15,
        }
    }
}

/// How line segments are joined.
#[derive(Clone, Copy, Debug, Eq, Hash, PartialEq, Structural)]
pub enum JoinStyle {
    Miter,
    Round,
    Bevel,
}

impl ToNative<i32> for JoinStyle {
    open spec fn to_native_spec(&self) -> i32 {
        match *self {
            JoinStyle::Miter => 0,
            JoinStyle::Round => 1,
            JoinStyle::Bevel => 2,
        }
    }

    fn to_native(&self) -> (num: i32) {
        match *self {
            JoinStyle::Miter => 0,
            JoinStyle::Round => 1,
            JoinStyle::Bevel => 2,
        }
    }
}

/// Dash pattern selection for lines.
#[derive(Clone, Copy, Debug, Eq, Hash, PartialEq, Structural)]
pub enum LineStyle {
    Solid,
    OnOffDash,
    DoubleDash,
}

impl ToNative<i32> for LineStyle {
    open spec fn to_native_spec(&self) -> i32 {
        match *self {
            LineStyle::Solid => 0,
            LineStyle::OnOffDash => 1,
            LineStyle::DoubleDash => 2,
        }
    }

    fn to_native(&self) -> (num: i32) {
        match *self {
            LineStyle::Solid => 0,
            LineStyle::OnOffDash => 1,
            LineStyle::DoubleDash => 2,
        }
    }
}

/// Whether drawing is clipped by child windows.
#[derive(Clone, Copy, Debug, Eq, Hash, PartialEq, Structural)]
pub enum SubwindowMode {
    ClipByChildren,
    IncludeInferiors,
}

impl ToNative<i32> for SubwindowMode {
    open spec fn to_native_spec(&self) -> i32 {
        match *self {
            SubwindowMode::ClipByChildren => 0,
            SubwindowMode::IncludeInferiors => 1,
        }
    }

    fn to_native(&self) -> (num: i32) {
        match *self {
            SubwindowMode::ClipByChildren => 0,
            SubwindowMode::IncludeInferiors => 1,
        }
    }
}

/// A clip rectangle in 32-bit coordinates; encoding narrows each field
/// to the native 16-bit width, keeping the low bits.
#[derive(Clone, Copy, Debug, PartialEq, Eq, Structural)]
pub struct Rectangle {
    pub x: i32,
    pub y: i32,
    pub width: i32,
    pub height: i32,
}

impl ToNative<XRectangle> for Rectangle {
    open spec fn to_native_spec(&self) -> XRectangle {
        XRectangle {
            x: spec_i16_wrap_of_i32(self.x),
            y: spec_i16_wrap_of_i32(self.y),
            width: spec_u16_wrap_of_i32(self.width),
            height: spec_u16_wrap_of_i32(self.height),
        }
    }

    fn to_native(&self) -> (native: XRectangle) {
        XRectangle {
            x: i16_wrap_of_i32(self.x),
            y: i16_wrap_of_i32(self.y),
            width: u16_wrap_of_i32(self.width),
            height: u16_wrap_of_i32(self.height),
        }
    }
}

/// Optional graphics-context value set.  Every field may independently
/// be absent; encoding writes the all-zero default for absent fields and
/// the presence bitmask says which fields count.
///
/// The native record also carries a variable-length dash pattern
/// (`dashes`).  This set deliberately does not model it: the encoder
/// always writes zero there and the presence bitmask never names it,
/// so the native library keeps its own dash setting.
#[derive(Clone, Copy, Debug, Default, PartialEq)]
pub struct GcValues {
    pub function: Option<GcFunction>,
    pub plane_mask: Option<u32>,
    pub foreground: Option<u32>,
    pub background: Option<u32>,
    pub line_width: Option<i32>,
    pub line_style: Option<LineStyle>,
    pub cap_style: Option<CapStyle>,
    pub join_style: Option<JoinStyle>,
    pub fill_style: Option<FillStyle>,
    pub fill_rule: Option<FillRule>,
    pub arc_mode: Option<ArcMode>,
    pub tile: Option<Pixmap>,
    pub stipple: Option<Pixmap>,
    pub ts_x_origin: Option<i32>,
    pub ts_y_origin: Option<i32>,
    pub font: Option<Font>,
    pub subwindow_mode: Option<SubwindowMode>,
    pub graphics_exposures: Option<bool>,
    pub clip_x_origin: Option<i32>,
    pub clip_y_origin: Option<i32>,
    pub clip_mask: Option<Pixmap>,
    pub dash_offset: Option<i32>,
}

impl FieldMask<u64> for GcValues {
    open spec fn field_mask_spec(&self) -> u64 {
        (
            bit_if(self.function is Some, 0x0000_0001) +
            bit_if(self.plane_mask is Some, 0x0000_0002) +
            bit_if(self.foreground is Some, 0x0000_0004) +
            bit_if(self.background is Some, 0x0000_0008) +
            bit_if(self.line_width is Some, 0x0000_0010) +
            bit_if(self.line_style is Some, 0x0000_0020) +
            bit_if(self.cap_style is Some, 0x0000_0040) +
            bit_if(self.join_style is Some, 0x0000_0080) +
            bit_if(self.fill_style is Some, 0x0000_0100) +
            bit_if(self.fill_rule is Some, 0x0000_0200) +
            bit_if(self.tile is Some, 0x0000_0400) +
            bit_if(self.stipple is Some, 0x0000_0800) +
            bit_if(self.ts_x_origin is Some, 0x0000_1000) +
            bit_if(self.ts_y_origin is Some, 0x0000_2000) +
            bit_if(self.font is Some, 0x0000_4000) +
            bit_if(self.subwindow_mode is Some, 0x0000_8000) +
            bit_if(self.graphics_exposures is Some, 0x0001_0000) +
            bit_if(self.clip_x_origin is Some, 0x0002_0000) +
            bit_if(self.clip_y_origin is Some, 0x0004_0000) +
            bit_if(self.clip_mask is Some, 0x0008_0000) +
            bit_if(self.dash_offset is Some, 0x0010_0000) +
            bit_if(self.arc_mode is Some, 0x0040_0000)
        ) as u64
    }

    fn field_mask(&self) -> (mask: u64) {
        let mask: u64 = mask_bit(&self.function, 0x0000_0001);
        let mask: u64 = mask + mask_bit(&self.plane_mask, 0x0000_0002);
        let mask: u64 = mask + mask_bit(&self.foreground, 0x0000_0004);
        let mask: u64 = mask + mask_bit(&self.background, 0x0000_0008);
        let mask: u64 = mask + mask_bit(&self.line_width, 0x0000_0010);
        let mask: u64 = mask + mask_bit(&self.line_style, 0x0000_0020);
        let mask: u64 = mask + mask_bit(&self.cap_style, 0x0000_0040);
        let mask: u64 = mask + mask_bit(&self.join_style, 0x0000_0080);
        let mask: u64 = mask + mask_bit(&self.fill_style, 0x0000_0100);
        let mask: u64 = mask + mask_bit(&self.fill_rule, 0x0000_0200);
        let mask: u64 = mask + mask_bit(&self.tile, 0x0000_0400);
        let mask: u64 = mask + mask_bit(&self.stipple, 0x0000_0800);
        let mask: u64 = mask + mask_bit(&self.ts_x_origin, 0x0000_1000);
        let mask: u64 = mask + mask_bit(&self.ts_y_origin, 0x0000_2000);
        let mask: u64 = mask + mask_bit(&self.font, 0x0000_4000);
        let mask: u64 = mask + mask_bit(&self.subwindow_mode, 0x0000_8000);
        let mask: u64 = mask + mask_bit(&self.graphics_exposures, 0x0001_0000);
        let mask: u64 = mask + mask_bit(&self.clip_x_origin, 0x0002_0000);
        let mask: u64 = mask + mask_bit(&self.clip_y_origin, 0x0004_0000);
        let mask: u64 = mask + mask_bit(&self.clip_mask, 0x0008_0000);
        let mask: u64 = mask + mask_bit(&self.dash_offset, 0x0010_0000);
        let mask: u64 = mask + mask_bit(&self.arc_mode, 0x0040_0000);
        mask
    }
}

proof fn lemma_gc_values_mask_sum_is_or(
    c0: bool,
    c1: bool,
    c2: bool,
    c3: bool,
    c4: bool,
    c5: bool,
    c6: bool,
    c7: bool,
    c8: bool,
    c9: bool,
    c10: bool,
    c11: bool,
    c12: bool,
    c13: bool,
    c14: bool,
    c15: bool,
    c16: bool,
    c17: bool,
    c18: bool,
    c19: bool,
    c20: bool,
    c21: bool,
)
    by (bit_vector)
    ensures
        (bit_if(c0, 0x0000_0001) + bit_if(c1, 0x0000_0002) + bit_if(c2, 0x0000_0004) + bit_if(c3, 0x0000_0008) + bit_if(c4, 0x0000_0010) + bit_if(c5, 0x0000_0020) + bit_if(c6, 0x0000_0040) + bit_if(c7, 0x0000_0080) + bit_if(c8, 0x0000_0100) + bit_if(c9, 0x0000_0200) + bit_if(c10, 0x0000_0400) + bit_if(c11, 0x0000_0800) + bit_if(c12, 0x0000_1000) + bit_if(c13, 0x0000_2000) + bit_if(c14, 0x0000_4000) + bit_if(c15, 0x0000_8000) + bit_if(c16, 0x0001_0000) + bit_if(c17, 0x0002_0000) + bit_if(c18, 0x0004_0000) + bit_if(c19, 0x0008_0000) + bit_if(c20, 0x0010_0000) + bit_if(c21, 0x0040_0000)) as u64
            == bit_if(c0, 0x0000_0001) | bit_if(c1, 0x0000_0002) | bit_if(c2, 0x0000_0004) | bit_if(c3, 0x0000_0008) | bit_if(c4, 0x0000_0010) | bit_if(c5, 0x0000_0020) | bit_if(c6, 0x0000_0040) | bit_if(c7, 0x0000_0080) | bit_if(c8, 0x0000_0100) | bit_if(c9, 0x0000_0200) | bit_if(c10, 0x0000_0400) | bit_if(c11, 0x0000_0800) | bit_if(c12, 0x0000_1000) | bit_if(c13, 0x0000_2000) | bit_if(c14, 0x0000_4000) | bit_if(c15, 0x0000_8000) | bit_if(c16, 0x0001_0000) | bit_if(c17, 0x0002_0000) | bit_if(c18, 0x0004_0000) | bit_if(c19, 0x0008_0000) | bit_if(c20, 0x0010_0000) | bit_if(c21, 0x0040_0000),
{
}

/// The presence bitmask of a value set is the bitwise OR of exactly the
/// published bit constants of its present fields.
pub proof fn lemma_gc_values_mask_is_bit_or(values: GcValues)
    ensures
        values.field_mask_spec() == (bit_if(values.function is Some, 0x0000_0001)
            | bit_if(values.plane_mask is Some, 0x0000_0002)
            | bit_if(values.foreground is Some, 0x0000_0004)
            | bit_if(values.background is Some, 0x0000_0008)
            | bit_if(values.line_width is Some, 0x0000_0010)
            | bit_if(values.line_style is Some, 0x0000_0020)
            | bit_if(values.cap_style is Some, 0x0000_0040)
            | bit_if(values.join_style is Some, 0x0000_0080)
            | bit_if(values.fill_style is Some, 0x0000_0100)
            | bit_if(values.fill_rule is Some, 0x0000_0200)
            | bit_if(values.tile is Some, 0x0000_0400)
            | bit_if(values.stipple is Some, 0x0000_0800)
            | bit_if(values.ts_x_origin is Some, 0x0000_1000)
            | bit_if(values.ts_y_origin is Some, 0x0000_2000)
            | bit_if(values.font is Some, 0x0000_4000)
            | bit_if(values.subwindow_mode is Some, 0x0000_8000)
            | bit_if(values.graphics_exposures is Some, 0x0001_0000)
            | bit_if(values.clip_x_origin is Some, 0x0002_0000)
            | bit_if(values.clip_y_origin is Some, 0x0004_0000)
            | bit_if(values.clip_mask is Some, 0x0008_0000)
            | bit_if(values.dash_offset is Some, 0x0010_0000)
            | bit_if(values.arc_mode is Some, 0x0040_0000)),
{
    lemma_gc_values_mask_sum_is_or(
        values.function is Some,
        values.plane_mask is Some,
        values.foreground is Some,
        values.background is Some,
        values.line_width is Some,
        values.line_style is Some,
        values.cap_style is Some,
        values.join_style is Some,
        values.fill_style is Some,
        values.fill_rule is Some,
        values.tile is Some,
        values.stipple is Some,
        values.ts_x_origin is Some,
        values.ts_y_origin is Some,
        values.font is Some,
        values.subwindow_mode is Some,
        values.graphics_exposures is Some,
        values.clip_x_origin is Some,
        values.clip_y_origin is Some,
        values.clip_mask is Some,
        values.dash_offset is Some,
        values.arc_mode is Some,
    );
}

impl ToNative<XGCValues> for GcValues {
    open spec fn to_native_spec(&self) -> XGCValues {
        XGCValues {
            function: if let Some(f) = self.function { f.to_native_spec() } else { 0 },
            plane_mask: if let Some(m) = self.plane_mask { m as u64 } else { 0 },
            foreground: if let Some(p) = self.foreground { p as u64 } else { 0 },
            background: if let Some(p) = self.background { p as u64 } else { 0 },
            line_width: if let Some(w) = self.line_width { w } else { 0 },
            line_style: if let Some(s) = self.line_style { s.to_native_spec() } else { 0 },
            cap_style: if let Some(s) = self.cap_style { s.to_native_spec() } else { 0 },
            join_style: if let Some(s) = self.join_style { s.to_native_spec() } else { 0 },
            fill_style: if let Some(s) = self.fill_style { s.to_native_spec() } else { 0 },
            fill_rule: if let Some(r) = self.fill_rule { r.to_native_spec() } else { 0 },
            arc_mode: if let Some(m) = self.arc_mode { m.to_native_spec() } else { 0 },
            tile: if let Some(p) = self.tile { p as u64 } else { 0 },
            stipple: if let Some(p) = self.stipple { p as u64 } else { 0 },
            ts_x_origin: if let Some(n) = self.ts_x_origin { n } else { 0 },
            ts_y_origin: if let Some(n) = self.ts_y_origin { n } else { 0 },
            font: if let Some(f) = self.font { f as u64 } else { 0 },
            subwindow_mode: if let Some(m) = self.subwindow_mode { m.to_native_spec() } else { 0 },
            graphics_exposures: if let Some(b) = self.graphics_exposures {
                if b { 1 } else { 0 }
            } else { 0 },
            clip_x_origin: if let Some(n) = self.clip_x_origin { n } else { 0 },
            clip_y_origin: if let Some(n) = self.clip_y_origin { n } else { 0 },
            clip_mask: if let Some(p) = self.clip_mask { p as u64 } else { 0 },
            dash_offset: if let Some(n) = self.dash_offset { n } else { 0 },
            dashes: 0,
        }
    }

    fn to_native(&self) -> (native: XGCValues) {
        XGCValues {
            function: to_native_or(&self.function, 0),
            plane_mask: wide_or_zero(&self.plane_mask),
            foreground: wide_or_zero(&self.foreground),
            background: wide_or_zero(&self.background),
            line_width: int_or_zero(&self.line_width),
            line_style: to_native_or(&self.line_style, 0),
            cap_style: to_native_or(&self.cap_style, 0),
            join_style: to_native_or(&self.join_style, 0),
            fill_style: to_native_or(&self.fill_style, 0),
            fill_rule: to_native_or(&self.fill_rule, 0),
            arc_mode: to_native_or(&self.arc_mode, 0),
            tile: wide_or_zero(&self.tile),
            stipple: wide_or_zero(&self.stipple),
            ts_x_origin: int_or_zero(&self.ts_x_origin),
            ts_y_origin: int_or_zero(&self.ts_y_origin),
            font: wide_or_zero(&self.font),
            subwindow_mode: to_native_or(&self.subwindow_mode, 0),
            graphics_exposures: flag_or_zero(&self.graphics_exposures),
            clip_x_origin: int_or_zero(&self.clip_x_origin),
            clip_y_origin: int_or_zero(&self.clip_y_origin),
            clip_mask: wide_or_zero(&self.clip_mask),
            dash_offset: int_or_zero(&self.dash_offset),
            dashes: 0,
        }
    }
}

} // verus!
