//! Windows: creation attributes, manager hints, queried attributes and
//! the window-related enumerated constants.
use vstd::prelude::*;

use crate::Xid;
use crate::colormap::Colormap;
use crate::cursor::Cursor;
use crate::event::EventMask;
use crate::internal::{FieldMask, FromNative, ToNative, bit_if, flag_or_zero, int_or_zero,
    mask_bit, pair_first_or_zero, pair_second_or_zero, to_native_or, wide_or_zero};
use crate::native::{Point, XSetWindowAttributes, XSizeHints, XWindowAttributes, spec_low32, low32};
use crate::pixmap::Pixmap;
use crate::screen::Screen;
use crate::visual::Visual;

verus! {

/// Window identifier type.
pub type Window = Xid;

/// An aspect-ratio constraint for the window manager: minimum and
/// maximum width/height ratios, each as numerator and denominator.
#[derive(Clone, Copy, Debug, PartialEq, Eq, Structural)]
pub struct AspectRatioHint {
    pub min_numerator: i32,
    pub min_denominator: i32,
    pub max_numerator: i32,
    pub max_denominator: i32,
}

/// Whether the server should preserve window contents while obscured.
#[derive(Clone, Copy, Debug, Eq, Hash, PartialEq, Structural)]
pub enum BackingStore {
    NotUseful,
    WhenMapped,
    Always,
}

impl FromNative<i32> for Option<BackingStore> {
    open spec fn from_native_spec(num: i32) -> Option<BackingStore> {
        match num {
            0 => Some(BackingStore::NotUseful),
            1 => Some(BackingStore::WhenMapped),
            2 => Some(BackingStore::Always),
            _ => None,
        }
    }

    fn from_native(num: i32) -> (mode: Self) {
        match num {
            0 => Some(BackingStore::NotUseful),
            1 => Some(BackingStore::WhenMapped),
            2 => Some(BackingStore::Always),
            _ => None,
        }
    }
}

impl ToNative<i32> for BackingStore {
    open spec fn to_native_spec(&self) -> i32 {
        match *self {
            BackingStore::NotUseful => 0,
            BackingStore::WhenMapped => 1,
            BackingStore::Always => 2,
        }
    }

    fn to_native(&self) -> (num: i32) {
        match *self {
            BackingStore::NotUseful => 0,
            BackingStore::WhenMapped => 1,
            BackingStore::Always => 2,
        }
    }
}

/// Encoding a backing-store mode and decoding the result is the
/// identity, for every named mode; so no two modes share a constant.
pub proof fn lemma_backing_store_round_trip(mode: BackingStore)
    ensures
        <Option<BackingStore> as FromNative<i32>>::from_native_spec(mode.to_native_spec())
            == Some(mode),
{
}

/// How window or content position is adjusted when a parent is resized.
/// The zero constant asks the server to forget the contents (for bit
/// gravity) or unmap the window (for window gravity).
#[derive(Clone, Copy, Debug, Eq, Hash, PartialEq, Structural)]
pub enum Gravity {
    Forget,
    NorthWest,
    North,
    NorthEast,
    West,
    Center,
    East,
    SouthWest,
    South,
    SouthEast,
    Static,
}

impl FromNative<i32> for Option<Gravity> {
    open spec fn from_native_spec(num: i32) -> Option<Gravity> {
        match num {
            0 => Some(Gravity::Forget),
            1 => Some(Gravity::NorthWest),
            2 => Some(Gravity::North),
            3 => Some(Gravity::NorthEast),
            4 => Some(Gravity::West),
            5 => Some(Gravity::Center),
            6 => Some(Gravity::East),
            7 => Some(Gravity::SouthWest),
            8 => Some(Gravity::South),
            9 => Some(Gravity::SouthEast),
            10 => Some(Gravity::Static),
            _ => None,
        }
    }

    fn from_native(num: i32) -> (gravity: Self) {
        match num {
            0 => Some(Gravity::Forget),
            1 => Some(Gravity::NorthWest),
            2 => Some(Gravity::North),
            3 => Some(Gravity::NorthEast),
            4 => Some(Gravity::West),
            5 => Some(Gravity::Center),
            6 => Some(Gravity::East),
            7 => Some(Gravity::SouthWest),
            8 => Some(Gravity::South),
            9 => Some(Gravity::SouthEast),
            10 => Some(Gravity::Static),
            _ => None,
        }
    }
}

impl ToNative<i32> for Gravity {
    open spec fn to_native_spec(&self) -> i32 {
        match *self {
            Gravity::Forget => 0,
            Gravity::NorthWest => 1,
            Gravity::North => 2,
            Gravity::NorthEast => 3,
            Gravity::West => 4,
            Gravity::Center => 5,
            Gravity::East => 6,
            Gravity::SouthWest => 7,
            Gravity::South => 8,
            Gravity::SouthEast => 9,
            Gravity::Static => 10,
        }
    }

    fn to_native(&self) -> (num: i32) {
        match *self {
            Gravity::Forget => 0,
            Gravity::NorthWest => 1,
            Gravity::North => 2,
            Gravity::NorthEast => 3,
            Gravity::West => 4,
            Gravity::Center => 5,
            Gravity::East => 6,
            Gravity::SouthWest => 7,
            Gravity::South => 8,
            Gravity::SouthEast => 9,
            Gravity::Static => 10,
        }
    }
}

/// Encoding a gravity and decoding the result is the identity, for
/// every named gravity; so no two gravities share a constant.
pub proof fn lemma_gravity_round_trip(gravity: Gravity)
    ensures
        <Option<Gravity> as FromNative<i32>>::from_native_spec(gravity.to_native_spec())
            == Some(gravity),
{
}

/// Viewability of a window as reported by an attributes query.
#[derive(Clone, Copy, Debug, Eq, Hash, PartialEq, Structural)]
pub enum MapState {
    Unmapped,
    Unviewable,
    Viewable,
}

impl FromNative<i32> for Option<MapState> {
    open spec fn from_native_spec(num: i32) -> Option<MapState> {
        match num {
            0 => Some(MapState::Unmapped),
            1 => Some(MapState::Unviewable),
            2 => Some(MapState::Viewable),
            _ => None,
        }
    }

    fn from_native(num: i32) -> (state: Self) {
        match num {
            0 => Some(MapState::Unmapped),
            1 => Some(MapState::Unviewable),
            2 => Some(MapState::Viewable),
            _ => None,
        }
    }
}

/// Input/output capability of a window.
#[derive(Clone, Copy, Debug, Eq, Hash, PartialEq, Structural)]
pub enum WindowClass {
    InputOutput,
    InputOnly,
}

impl FromNative<i32> for Option<WindowClass> {
    open spec fn from_native_spec(num: i32) -> Option<WindowClass> {
        match num {
            1 => Some(WindowClass::InputOutput),
            2 => Some(WindowClass::InputOnly),
            _ => None,
        }
    }

    fn from_native(num: i32) -> (class: Self) {
        match num {
            1 => Some(WindowClass::InputOutput),
            2 => Some(WindowClass::InputOnly),
            _ => None,
        }
    }
}

impl ToNative<u32> for WindowClass {
    open spec fn to_native_spec(&self) -> u32 {
        match *self {
            WindowClass::InputOutput => 1,
            WindowClass::InputOnly => 2,
        }
    }

    fn to_native(&self) -> (num: u32) {
        match *self {
            WindowClass::InputOutput => 1,
            WindowClass::InputOnly => 2,
        }
    }
}

/// Encoding a window class and decoding the result is the identity, for
/// both named classes; the two constants are distinct and nonzero.
pub proof fn lemma_window_class_round_trip(class: WindowClass)
    ensures
        <Option<WindowClass> as FromNative<i32>>::from_native_spec(
            class.to_native_spec() as i32,
        ) == Some(class),
{
}

/// Optional window attributes handed to window creation or change
/// requests, paired with the presence bitmask naming the given fields.
#[derive(Clone, Copy, Debug, Default, PartialEq)]
pub struct SetWindowAttributes {
    pub background_pixmap: Option<Pixmap>,
    pub background_pixel: Option<u32>,
    pub border_pixmap: Option<Pixmap>,
    pub border_pixel: Option<u32>,
    pub bit_gravity: Option<Gravity>,
    pub win_gravity: Option<Gravity>,
    pub backing_store: Option<BackingStore>,
    pub backing_planes: Option<u32>,
    pub backing_pixel: Option<u32>,
    pub save_under: Option<bool>,
    pub event_mask: Option<EventMask>,
    pub do_not_propagate_mask: Option<EventMask>,
    pub override_redirect: Option<bool>,
    pub colormap: Option<Colormap>,
    pub cursor: Option<Cursor>,
}

impl FieldMask<u64> for SetWindowAttributes {
    open spec fn field_mask_spec(&self) -> u64 {
        (
            bit_if(self.background_pixmap is Some, 0x0001) +
            bit_if(self.background_pixel is Some, 0x0002) +
            bit_if(self.border_pixmap is Some, 0x0004) +
            bit_if(self.border_pixel is Some, 0x0008) +
            bit_if(self.bit_gravity is Some, 0x0010) +
            bit_if(self.win_gravity is Some, 0x0020) +
            bit_if(self.backing_store is Some, 0x0040) +
            bit_if(self.backing_planes is Some, 0x0080) +
            bit_if(self.backing_pixel is Some, 0x0100) +
            bit_if(self.override_redirect is Some, 0x0200) +
            bit_if(self.save_under is Some, 0x0400) +
            bit_if(self.event_mask is Some, 0x0800) +
            bit_if(self.do_not_propagate_mask is Some, 0x1000) +
            bit_if(self.colormap is Some, 0x2000) +
            bit_if(self.cursor is Some, 0x4000)
        ) as u64
    }

    fn field_mask(&self) -> (mask: u64) {
        let mask: u64 = mask_bit(&self.background_pixmap, 0x0001);
        let mask: u64 = mask + mask_bit(&self.background_pixel, 0x0002);
        let mask: u64 = mask + mask_bit(&self.border_pixmap, 0x0004);
        let mask: u64 = mask + mask_bit(&self.border_pixel, 0x0008);
        let mask: u64 = mask + mask_bit(&self.bit_gravity, 0x0010);
        let mask: u64 = mask + mask_bit(&self.win_gravity, 0x0020);
        let mask: u64 = mask + mask_bit(&self.backing_store, 0x0040);
        let mask: u64 = mask + mask_bit(&self.backing_planes, 0x0080);
        let mask: u64 = mask + mask_bit(&self.backing_pixel, 0x0100);
        let mask: u64 = mask + mask_bit(&self.override_redirect, 0x0200);
        let mask: u64 = mask + mask_bit(&self.save_under, 0x0400);
        let mask: u64 = mask + mask_bit(&self.event_mask, 0x0800);
        let mask: u64 = mask + mask_bit(&self.do_not_propagate_mask, 0x1000);
        let mask: u64 = mask + mask_bit(&self.colormap, 0x2000);
        let mask: u64 = mask + mask_bit(&self.cursor, 0x4000);
        mask
    }
}

proof fn lemma_set_window_attributes_mask_sum_is_or(
    c0: bool,
    c1: bool,
    c2: bool,
    c3: bool,
    c4: bool,
    c5: bool,
    c6: bool,
    c7: bool,
    c8: bool,
    c9: bool,
    c10: bool,
    c11: bool,
    c12: bool,
    c13: bool,
    c14: bool,
)
    by (bit_vector)
    ensures
        (bit_if(c0, 0x0001) + bit_if(c1, 0x0002) + bit_if(c2, 0x0004) + bit_if(c3, 0x0008)
            + bit_if(c4, 0x0010) + bit_if(c5, 0x0020) + bit_if(c6, 0x0040) + bit_if(c7, 0x0080)
            + bit_if(c8, 0x0100) + bit_if(c9, 0x0200) + bit_if(c10, 0x0400) + bit_if(c11, 0x0800)
            + bit_if(c12, 0x1000) + bit_if(c13, 0x2000) + bit_if(c14, 0x4000)) as u64
            == bit_if(c0, 0x0001) | bit_if(c1, 0x0002) | bit_if(c2, 0x0004) | bit_if(c3, 0x0008)
            | bit_if(c4, 0x0010) | bit_if(c5, 0x0020) | bit_if(c6, 0x0040) | bit_if(c7, 0x0080)
            | bit_if(c8, 0x0100) | bit_if(c9, 0x0200) | bit_if(c10, 0x0400) | bit_if(c11, 0x0800)
            | bit_if(c12, 0x1000) | bit_if(c13, 0x2000) | bit_if(c14, 0x4000),
{
}

/// The presence bitmask of a window-attribute set is the bitwise OR of
/// exactly the published bit constants of its present fields.
pub proof fn lemma_set_window_attributes_mask_is_bit_or(values: SetWindowAttributes)
    ensures
        values.field_mask_spec() == (bit_if(values.background_pixmap is Some, 0x0001)
            | bit_if(values.background_pixel is Some, 0x0002)
            | bit_if(values.border_pixmap is Some, 0x0004)
            | bit_if(values.border_pixel is Some, 0x0008)
            | bit_if(values.bit_gravity is Some, 0x0010)
            | bit_if(values.win_gravity is Some, 0x0020)
            | bit_if(values.backing_store is Some, 0x0040)
            | bit_if(values.backing_planes is Some, 0x0080)
            | bit_if(values.backing_pixel is Some, 0x0100)
            | bit_if(values.override_redirect is Some, 0x0200)
            | bit_if(values.save_under is Some, 0x0400)
            | bit_if(values.event_mask is Some, 0x0800)
            | bit_if(values.do_not_propagate_mask is Some, 0x1000)
            | bit_if(values.colormap is Some, 0x2000)
            | bit_if(values.cursor is Some, 0x4000)),
{
    lemma_set_window_attributes_mask_sum_is_or(
        values.background_pixmap is Some,
        values.background_pixel is Some,
        values.border_pixmap is Some,
        values.border_pixel is Some,
        values.bit_gravity is Some,
        values.win_gravity is Some,
        values.backing_store is Some,
        values.backing_planes is Some,
        values.backing_pixel is Some,
        values.override_redirect is Some,
        values.save_under is Some,
        values.event_mask is Some,
        values.do_not_propagate_mask is Some,
        values.colormap is Some,
        values.cursor is Some,
    );
}

impl ToNative<XSetWindowAttributes> for SetWindowAttributes {
    open spec fn to_native_spec(&self) -> XSetWindowAttributes {
        XSetWindowAttributes {
            background_pixmap: if let Some(p) = self.background_pixmap { p as u64 } else { 0 },
            background_pixel: if let Some(p) = self.background_pixel { p as u64 } else { 0 },
            border_pixmap: if let Some(p) = self.border_pixmap { p as u64 } else { 0 },
            border_pixel: if let Some(p) = self.border_pixel { p as u64 } else { 0 },
            bit_gravity: if let Some(g) = self.bit_gravity { g.to_native_spec() } else { 0 },
            win_gravity: if let Some(g) = self.win_gravity { g.to_native_spec() } else { 0 },
            backing_store: if let Some(b) = self.backing_store { b.to_native_spec() } else { 0 },
            backing_planes: if let Some(p) = self.backing_planes { p as u64 } else { 0 },
            backing_pixel: if let Some(p) = self.backing_pixel { p as u64 } else { 0 },
            save_under: if let Some(b) = self.save_under {
                if b { 1 } else { 0 }
            } else { 0 },
            event_mask: if let Some(m) = self.event_mask { m.to_native_spec() } else { 0 },
            do_not_propagate_mask: if let Some(m) = self.do_not_propagate_mask {
                m.to_native_spec()
            } else { 0 },
            override_redirect: if let Some(b) = self.override_redirect {
                if b { 1 } else { 0 }
            } else { 0 },
            colormap: if let Some(c) = self.colormap { c as u64 } else { 0 },
            cursor: if let Some(c) = self.cursor { c as u64 } else { 0 },
        }
    }

    fn to_native(&self) -> (native: XSetWindowAttributes) {
        XSetWindowAttributes {
            background_pixmap: wide_or_zero(&self.background_pixmap),
            background_pixel: wide_or_zero(&self.background_pixel),
            border_pixmap: wide_or_zero(&self.border_pixmap),
            border_pixel: wide_or_zero(&self.border_pixel),
            bit_gravity: to_native_or(&self.bit_gravity, 0),
            win_gravity: to_native_or(&self.win_gravity, 0),
            backing_store: to_native_or(&self.backing_store, 0),
            backing_planes: wide_or_zero(&self.backing_planes),
            backing_pixel: wide_or_zero(&self.backing_pixel),
            save_under: flag_or_zero(&self.save_under),
            event_mask: to_native_or(&self.event_mask, 0),
            do_not_propagate_mask: to_native_or(&self.do_not_propagate_mask, 0),
            override_redirect: flag_or_zero(&self.override_redirect),
            colormap: wide_or_zero(&self.colormap),
            cursor: wide_or_zero(&self.cursor),
        }
    }
}

/// Optional hints for the window manager about position, size and
/// resize behavior.  Its presence bitmask travels inside the native
/// record, in its `flags` field.
#[derive(Clone, Copy, Debug, Default, PartialEq)]
pub struct SizeHints {
    pub position: Option<(i32, i32)>,
    pub size: Option<(i32, i32)>,
    pub min_size: Option<(i32, i32)>,
    pub max_size: Option<(i32, i32)>,
    pub resize_inc: Option<(i32, i32)>,
    pub aspect: Option<AspectRatioHint>,
    pub base_size: Option<(i32, i32)>,
    pub win_gravity: Option<Gravity>,
}

impl FieldMask<u64> for SizeHints {
    open spec fn field_mask_spec(&self) -> u64 {
        (
            bit_if(self.position is Some, 0x0004) +
            bit_if(self.size is Some, 0x0008) +
            bit_if(self.min_size is Some, 0x0010) +
            bit_if(self.max_size is Some, 0x0020) +
            bit_if(self.resize_inc is Some, 0x0040) +
            bit_if(self.aspect is Some, 0x0080) +
            bit_if(self.base_size is Some, 0x0100) +
            bit_if(self.win_gravity is Some, 0x0200)
        ) as u64
    }

    fn field_mask(&self) -> (mask: u64) {
        let mask: u64 = mask_bit(&self.position, 0x0004);
        let mask: u64 = mask + mask_bit(&self.size, 0x0008);
        let mask: u64 = mask + mask_bit(&self.min_size, 0x0010);
        let mask: u64 = mask + mask_bit(&self.max_size, 0x0020);
        let mask: u64 = mask + mask_bit(&self.resize_inc, 0x0040);
        let mask: u64 = mask + mask_bit(&self.aspect, 0x0080);
        let mask: u64 = mask + mask_bit(&self.base_size, 0x0100);
        let mask: u64 = mask + mask_bit(&self.win_gravity, 0x0200);
        mask
    }
}

proof fn lemma_size_hints_mask_sum_is_or(
    c0: bool,
    c1: bool,
    c2: bool,
    c3: bool,
    c4: bool,
    c5: bool,
    c6: bool,
    c7: bool,
)
    by (bit_vector)
    ensures
        (bit_if(c0, 0x0004) + bit_if(c1, 0x0008) + bit_if(c2, 0x0010) + bit_if(c3, 0x0020)
            + bit_if(c4, 0x0040) + bit_if(c5, 0x0080) + bit_if(c6, 0x0100) + bit_if(
            c7,
            0x0200,
        )) as u64 == bit_if(c0, 0x0004) | bit_if(c1, 0x0008) | bit_if(c2, 0x0010) | bit_if(
            c3,
            0x0020,
        ) | bit_if(c4, 0x0040) | bit_if(c5, 0x0080) | bit_if(c6, 0x0100) | bit_if(c7, 0x0200),
{
}

/// The hints bitmask is the bitwise OR of exactly the published bit
/// constants of the present hints.
pub proof fn lemma_size_hints_mask_is_bit_or(hints: SizeHints)
    ensures
        hints.field_mask_spec() == (bit_if(hints.position is Some, 0x0004)
            | bit_if(hints.size is Some, 0x0008)
            | bit_if(hints.min_size is Some, 0x0010)
            | bit_if(hints.max_size is Some, 0x0020)
            | bit_if(hints.resize_inc is Some, 0x0040)
            | bit_if(hints.aspect is Some, 0x0080)
            | bit_if(hints.base_size is Some, 0x0100)
            | bit_if(hints.win_gravity is Some, 0x0200)),
{
    lemma_size_hints_mask_sum_is_or(
        hints.position is Some,
        hints.size is Some,
        hints.min_size is Some,
        hints.max_size is Some,
        hints.resize_inc is Some,
        hints.aspect is Some,
        hints.base_size is Some,
        hints.win_gravity is Some,
    );
}

/// The minimum-aspect point of an optional aspect hint, or the origin.
fn aspect_min_point(field: &Option<AspectRatioHint>) -> (point: Point)
    ensures
        point == (if let Some(a) = *field {
            Point { x: a.min_numerator, y: a.min_denominator }
        } else {
            Point { x: 0, y: 0 }
        }),
{
    match field {
        Some(a) => Point { x: a.min_numerator, y: a.min_denominator },
        None => Point { x: 0, y: 0 },
    }
}

/// The maximum-aspect point of an optional aspect hint, or the origin.
fn aspect_max_point(field: &Option<AspectRatioHint>) -> (point: Point)
    ensures
        point == (if let Some(a) = *field {
            Point { x: a.max_numerator, y: a.max_denominator }
        } else {
            Point { x: 0, y: 0 }
        }),
{
    match field {
        Some(a) => Point { x: a.max_numerator, y: a.max_denominator },
        None => Point { x: 0, y: 0 },
    }
}

impl ToNative<XSizeHints> for SizeHints {
    open spec fn to_native_spec(&self) -> XSizeHints {
        XSizeHints {
            flags: self.field_mask_spec(),
            x: if let Some(p) = self.position { p.0 } else { 0 },
            y: if let Some(p) = self.position { p.1 } else { 0 },
            width: if let Some(s) = self.size { s.0 } else { 0 },
            height: if let Some(s) = self.size { s.1 } else { 0 },
            min_width: if let Some(s) = self.min_size { s.0 } else { 0 },
            min_height: if let Some(s) = self.min_size { s.1 } else { 0 },
            max_width: if let Some(s) = self.max_size { s.0 } else { 0 },
            max_height: if let Some(s) = self.max_size { s.1 } else { 0 },
            width_inc: if let Some(s) = self.resize_inc { s.0 } else { 0 },
            height_inc: if let Some(s) = self.resize_inc { s.1 } else { 0 },
            min_aspect: if let Some(a) = self.aspect {
                Point { x: a.min_numerator, y: a.min_denominator }
            } else {
                Point { x: 0, y: 0 }
            },
            max_aspect: if let Some(a) = self.aspect {
                Point { x: a.max_numerator, y: a.max_denominator }
            } else {
                Point { x: 0, y: 0 }
            },
            base_width: if let Some(s) = self.base_size { s.0 } else { 0 },
            base_height: if let Some(s) = self.base_size { s.1 } else { 0 },
            win_gravity: if let Some(g) = self.win_gravity { g.to_native_spec() } else { 0 },
        }
    }

    fn to_native(&self) -> (native: XSizeHints) {
        XSizeHints {
            flags: self.field_mask(),
            x: pair_first_or_zero(&self.position),
            y: pair_second_or_zero(&self.position),
            width: pair_first_or_zero(&self.size),
            height: pair_second_or_zero(&self.size),
            min_width: pair_first_or_zero(&self.min_size),
            min_height: pair_second_or_zero(&self.min_size),
            max_width: pair_first_or_zero(&self.max_size),
            max_height: pair_second_or_zero(&self.max_size),
            width_inc: pair_first_or_zero(&self.resize_inc),
            height_inc: pair_second_or_zero(&self.resize_inc),
            min_aspect: aspect_min_point(&self.aspect),
            max_aspect: aspect_max_point(&self.aspect),
            base_width: pair_first_or_zero(&self.base_size),
            base_height: pair_second_or_zero(&self.base_size),
            win_gravity: to_native_or(&self.win_gravity, 0),
        }
    }
}

/// Decoded window attributes, the safe counterpart of
/// [`XWindowAttributes`].
#[derive(Clone, Copy, Debug, PartialEq)]
pub struct WindowAttributes {
    pub x: i32,
    pub y: i32,
    pub width: i32,
    pub height: i32,
    pub border_width: i32,
    pub depth: i32,
    pub visual: Visual,
    pub root: Window,
    pub class: WindowClass,
    pub bit_gravity: Gravity,
    pub win_gravity: Gravity,
    pub backing_store: BackingStore,
    pub backing_planes: u32,
    pub backing_pixel: u32,
    pub save_under: bool,
    pub colormap: Colormap,
    pub map_installed: bool,
    pub map_state: MapState,
    pub all_event_masks: EventMask,
    pub your_event_mask: EventMask,
    pub do_not_propagate_mask: EventMask,
    pub override_redirect: bool,
    pub screen: Screen,
}

impl FromNative<XWindowAttributes> for Option<WindowAttributes> {
    open spec fn from_native_spec(native: XWindowAttributes) -> Option<WindowAttributes> {
        match (
            <Option<WindowClass> as FromNative<i32>>::from_native_spec(native.class),
            <Option<Gravity> as FromNative<i32>>::from_native_spec(native.bit_gravity),
            <Option<Gravity> as FromNative<i32>>::from_native_spec(native.win_gravity),
            <Option<BackingStore> as FromNative<i32>>::from_native_spec(native.backing_store),
            <Option<MapState> as FromNative<i32>>::from_native_spec(native.map_state),
        ) {
            (Some(class), Some(bit_gravity), Some(win_gravity), Some(backing_store), Some(
                map_state,
            )) => Some(
                WindowAttributes {
                    x: native.x,
                    y: native.y,
                    width: native.width,
                    height: native.height,
                    border_width: native.border_width,
                    depth: native.depth,
                    visual: <Visual as FromNative<u64>>::from_native_spec(native.visual),
                    root: spec_low32(native.root),
                    class,
                    bit_gravity,
                    win_gravity,
                    backing_store,
                    backing_planes: spec_low32(native.backing_planes),
                    backing_pixel: spec_low32(native.backing_pixel),
                    save_under: native.save_under != 0,
                    colormap: spec_low32(native.colormap),
                    map_installed: native.map_installed != 0,
                    map_state,
                    all_event_masks: EventMask::from_native_spec(native.all_event_masks),
                    your_event_mask: EventMask::from_native_spec(native.your_event_mask),
                    do_not_propagate_mask: EventMask::from_native_spec(
                        native.do_not_propagate_mask,
                    ),
                    override_redirect: native.override_redirect != 0,
                    screen: <Screen as FromNative<u64>>::from_native_spec(native.screen),
                },
            ),
            _ => None,
        }
    }

    fn from_native(native: XWindowAttributes) -> (attributes: Self) {
        let decoded = (
            <Option<WindowClass> as FromNative<i32>>::from_native(native.class),
            <Option<Gravity> as FromNative<i32>>::from_native(native.bit_gravity),
            <Option<Gravity> as FromNative<i32>>::from_native(native.win_gravity),
            <Option<BackingStore> as FromNative<i32>>::from_native(native.backing_store),
            <Option<MapState> as FromNative<i32>>::from_native(native.map_state),
        );
        match decoded {
            (Some(class), Some(bit_gravity), Some(win_gravity), Some(backing_store), Some(
                map_state,
            )) => Some(
                WindowAttributes {
                    x: native.x,
                    y: native.y,
                    width: native.width,
                    height: native.height,
                    border_width: native.border_width,
                    depth: native.depth,
                    visual: Visual::from_native(native.visual),
                    root: low32(native.root),
                    class,
                    bit_gravity,
                    win_gravity,
                    backing_store,
                    backing_planes: low32(native.backing_planes),
                    backing_pixel: low32(native.backing_pixel),
                    save_under: native.save_under != 0,
                    colormap: low32(native.colormap),
                    map_installed: native.map_installed != 0,
                    map_state,
                    all_event_masks: EventMask::from_native(native.all_event_masks),
                    your_event_mask: EventMask::from_native(native.your_event_mask),
                    do_not_propagate_mask: EventMask::from_native(native.do_not_propagate_mask),
                    override_redirect: native.override_redirect != 0,
                    screen: Screen::from_native(native.screen),
                },
            ),
            _ => None,
        }
    }
}

} // verus!
