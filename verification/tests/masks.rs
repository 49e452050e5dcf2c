//! Presence bitmasks: for each attribute-set structure the computed
//! mask is the OR of exactly the published bits of the present fields,
//! absent fields encode as zero, and decoders reproduce what encoders
//! wrote.
use xlib::colormap::Color;
use xlib::event_mask::EventMask;
use xlib::gc::{GcFunction, GcValues, LineStyle};
use xlib::internal::{FieldMask, FromNative, ToNative};
use xlib::visual::{VisualClass, VisualTemplate};
use xlib::window::{AspectRatioHint, BackingStore, Gravity, SetWindowAttributes, SizeHints};

#[test]
fn color_mask_covers_all_channel_subsets() {
    let mut expected_masks = Vec::new();
    for bits in 0..8u8 {
        let color = Color {
            pixel: 0,
            red: if bits & 1 != 0 { Some(1) } else { None },
            green: if bits & 2 != 0 { Some(2) } else { None },
            blue: if bits & 4 != 0 { Some(3) } else { None },
        };
        expected_masks.push(color.field_mask());
        assert_eq!(color.field_mask(), bits);
    }
    assert_eq!(expected_masks, vec![0, 1, 2, 3, 4, 5, 6, 7]);
}

#[test]
fn color_round_trips_every_channel_subset() {
    for bits in 0..8u8 {
        let color = Color {
            pixel: 77,
            red: if bits & 1 != 0 { Some(11) } else { None },
            green: if bits & 2 != 0 { Some(22) } else { None },
            blue: if bits & 4 != 0 { Some(33) } else { None },
        };
        let native = color.to_native();
        assert_eq!(native.flags, bits);
        assert_eq!(native.pad, 0);
        assert_eq!(Color::from_native(native), color);
    }
}

#[test]
fn color_absent_channels_encode_as_zero() {
    let color = Color { pixel: 5, red: Some(9), green: None, blue: None };
    let native = color.to_native();
    assert_eq!(native.pixel, 5);
    assert_eq!(native.red, 9);
    assert_eq!(native.green, 0);
    assert_eq!(native.blue, 0);
    assert_eq!(native.flags, 0x01);
}

#[test]
fn event_mask_empty_encodes_to_zero() {
    assert_eq!(EventMask::empty().to_native(), 0);
}

#[test]
fn event_mask_single_flags_use_published_bits() {
    let published: [(fn(&mut EventMask), u64); 6] = [
        (|m| m.key_press = true, 0x0000_0001),
        (|m| m.button_5_motion = true, 0x0000_1000),
        (|m| m.exposure = true, 0x0000_8000),
        (|m| m.structure_notify = true, 0x0002_0000),
        (|m| m.substructure_redirect = true, 0x0010_0000),
        (|m| m.owner_grab_button = true, 0x0100_0000),
    ];
    for (set, bit) in published {
        let mut mask = EventMask::empty();
        set(&mut mask);
        assert_eq!(mask.to_native(), bit);
    }
}

#[test]
fn event_mask_round_trips_through_the_native_word() {
    let mut mask = EventMask::empty();
    mask.key_press = true;
    mask.exposure = true;
    mask.structure_notify = true;
    mask.owner_grab_button = true;
    let word = mask.to_native();
    assert_eq!(word, 0x0102_8001);
    assert_eq!(EventMask::from_native(word), mask);
    assert_eq!(EventMask::from_native(0), EventMask::empty());
}

#[test]
fn event_mask_decode_reads_each_published_bit() {
    let decoded = EventMask::from_native(0x0000_8002);
    assert!(decoded.exposure);
    assert!(decoded.key_release);
    assert!(!decoded.key_press);
    assert!(!decoded.owner_grab_button);
}

#[test]
fn gc_values_mask_uses_published_nonsequential_bits() {
    let empty = GcValues::default();
    assert_eq!(empty.field_mask(), 0);
    let function_only = GcValues { function: Some(GcFunction::Xor), ..GcValues::default() };
    assert_eq!(function_only.field_mask(), 0x0000_0001);
    let arc_only = GcValues { arc_mode: Some(xlib::gc::ArcMode::Chord), ..GcValues::default() };
    assert_eq!(arc_only.field_mask(), 0x0040_0000);
    let dash_only = GcValues { dash_offset: Some(4), ..GcValues::default() };
    assert_eq!(dash_only.field_mask(), 0x0010_0000);
    let combined = GcValues {
        foreground: Some(1),
        background: Some(2),
        line_style: Some(LineStyle::OnOffDash),
        ..GcValues::default()
    };
    assert_eq!(combined.field_mask(), 0x0000_0004 | 0x0000_0008 | 0x0000_0020);
}

#[test]
fn gc_values_encode_populates_every_field() {
    let values = GcValues {
        function: Some(GcFunction::Xor),
        foreground: Some(0xABCD),
        line_width: Some(-3),
        graphics_exposures: Some(true),
        ..GcValues::default()
    };
    let native = values.to_native();
    assert_eq!(native.function, 6);
    assert_eq!(native.foreground, 0xABCD);
    assert_eq!(native.line_width, -3);
    assert_eq!(native.graphics_exposures, 1);
    assert_eq!(native.background, 0);
    assert_eq!(native.line_style, 0);
    assert_eq!(native.tile, 0);
    assert_eq!(native.dashes, 0);
}

#[test]
fn set_window_attributes_mask_orders_override_before_save_under() {
    let empty = SetWindowAttributes::default();
    assert_eq!(empty.field_mask(), 0);
    let override_only =
        SetWindowAttributes { override_redirect: Some(true), ..SetWindowAttributes::default() };
    assert_eq!(override_only.field_mask(), 0x0200);
    let save_only = SetWindowAttributes { save_under: Some(false), ..SetWindowAttributes::default() };
    assert_eq!(save_only.field_mask(), 0x0400);
    let cursor_only = SetWindowAttributes { cursor: Some(44), ..SetWindowAttributes::default() };
    assert_eq!(cursor_only.field_mask(), 0x4000);
}

#[test]
fn set_window_attributes_encode_defaults_to_zero() {
    let attributes = SetWindowAttributes {
        background_pixel: Some(0xFFFF),
        bit_gravity: Some(Gravity::Center),
        backing_store: Some(BackingStore::Always),
        event_mask: Some({
            let mut mask = EventMask::empty();
            mask.exposure = true;
            mask
        }),
        ..SetWindowAttributes::default()
    };
    let native = attributes.to_native();
    assert_eq!(native.background_pixel, 0xFFFF);
    assert_eq!(native.bit_gravity, 5);
    assert_eq!(native.backing_store, 2);
    assert_eq!(native.event_mask, 0x8000);
    assert_eq!(native.background_pixmap, 0);
    assert_eq!(native.win_gravity, 0);
    assert_eq!(native.save_under, 0);
    assert_eq!(native.do_not_propagate_mask, 0);
    assert_eq!(native.cursor, 0);
    assert_eq!(
        attributes.field_mask(),
        0x0002 | 0x0010 | 0x0040 | 0x0800,
    );
}

#[test]
fn size_hints_mask_starts_at_the_third_bit() {
    let empty = SizeHints::default();
    assert_eq!(empty.field_mask(), 0);
    let position_only = SizeHints { position: Some((1, 2)), ..SizeHints::default() };
    assert_eq!(position_only.field_mask(), 0x0004);
    let gravity_only = SizeHints { win_gravity: Some(Gravity::South), ..SizeHints::default() };
    assert_eq!(gravity_only.field_mask(), 0x0200);
}

#[test]
fn size_hints_encode_carries_mask_and_fields() {
    let hints = SizeHints {
        position: Some((10, -20)),
        size: Some((640, 480)),
        aspect: Some(AspectRatioHint {
            min_numerator: 1,
            min_denominator: 2,
            max_numerator: 3,
            max_denominator: 4,
        }),
        ..SizeHints::default()
    };
    let native = hints.to_native();
    assert_eq!(native.flags, 0x0004 | 0x0008 | 0x0080);
    assert_eq!(native.x, 10);
    assert_eq!(native.y, -20);
    assert_eq!(native.width, 640);
    assert_eq!(native.height, 480);
    assert_eq!(native.min_aspect.x, 1);
    assert_eq!(native.min_aspect.y, 2);
    assert_eq!(native.max_aspect.x, 3);
    assert_eq!(native.max_aspect.y, 4);
    assert_eq!(native.min_width, 0);
    assert_eq!(native.base_height, 0);
    assert_eq!(native.win_gravity, 0);
}

#[test]
fn visual_template_mask_uses_published_bits() {
    let empty = VisualTemplate::default();
    assert_eq!(empty.field_mask(), 0);
    let id_only = VisualTemplate { visual_id: Some(1), ..VisualTemplate::default() };
    assert_eq!(id_only.field_mask(), 0x0001);
    let class_and_depth = VisualTemplate {
        depth: Some(24),
        class: Some(VisualClass::TrueColor),
        ..VisualTemplate::default()
    };
    assert_eq!(class_and_depth.field_mask(), 0x0004 | 0x0008);
    let bits_only = VisualTemplate { bits_per_rgb: Some(8), ..VisualTemplate::default() };
    assert_eq!(bits_only.field_mask(), 0x0100);
}

#[test]
fn visual_template_encode_defaults_to_zero() {
    let template = VisualTemplate {
        screen: Some(1),
        class: Some(VisualClass::DirectColor),
        red_mask: Some(0xFF0000),
        ..VisualTemplate::default()
    };
    let native = template.to_native();
    assert_eq!(native.visual, 0);
    assert_eq!(native.screen, 1);
    assert_eq!(native.class, 5);
    assert_eq!(native.red_mask, 0xFF0000);
    assert_eq!(native.visualid, 0);
    assert_eq!(native.depth, 0);
    assert_eq!(native.green_mask, 0);
    assert_eq!(native.colormap_size, 0);
}
