//! Decoders for queried native records, the opaque handles, the clip
//! rectangle's width narrowing, and the boundary conversions.
use xlib::internal::{FromNative, ToNative};
use xlib::gc::Rectangle;
use xlib::native::{XVisualInfo, XWindowAttributes, i16_wrap_of_i32, i32_of_u32, low32,
    u16_wrap_of_i32, u32_of_i32};
use xlib::screen::Screen;
use xlib::visual::{Visual, VisualClass, VisualInfo};
use xlib::window::{BackingStore, Gravity, MapState, WindowAttributes, WindowClass};

fn sample_window_attributes() -> XWindowAttributes {
    XWindowAttributes {
        x: 10,
        y: -20,
        width: 300,
        height: 200,
        border_width: 1,
        depth: 24,
        visual: 0x1000,
        root: 42,
        class: 1,
        bit_gravity: 0,
        win_gravity: 1,
        backing_store: 2,
        backing_planes: 0xFFFF_FFFF,
        backing_pixel: 7,
        save_under: 0,
        colormap: 9,
        map_installed: 1,
        map_state: 2,
        all_event_masks: 0x8001,
        your_event_mask: 0x0002,
        do_not_propagate_mask: 0,
        override_redirect: 5,
        screen: 0x2000,
    }
}

#[test]
fn window_attributes_decode_a_valid_record() {
    let decoded = <Option<WindowAttributes>>::from_native(sample_window_attributes()).unwrap();
    assert_eq!(decoded.x, 10);
    assert_eq!(decoded.y, -20);
    assert_eq!(decoded.class, WindowClass::InputOutput);
    assert_eq!(decoded.bit_gravity, Gravity::Forget);
    assert_eq!(decoded.win_gravity, Gravity::NorthWest);
    assert_eq!(decoded.backing_store, BackingStore::Always);
    assert_eq!(decoded.backing_planes, 0xFFFF_FFFF);
    assert!(!decoded.save_under);
    assert!(decoded.map_installed);
    assert_eq!(decoded.map_state, MapState::Viewable);
    assert!(decoded.all_event_masks.key_press);
    assert!(decoded.all_event_masks.exposure);
    assert!(!decoded.all_event_masks.key_release);
    assert!(decoded.your_event_mask.key_release);
    assert!(decoded.override_redirect);
    assert_eq!(decoded.root, 42);
    assert_eq!(decoded.visual, Visual::from_native(0x1000));
    assert_eq!(decoded.screen, Screen::from_native(0x2000));
}

#[test]
fn window_attributes_reject_out_of_range_constants() {
    let bad_class = XWindowAttributes { class: 3, ..sample_window_attributes() };
    assert_eq!(<Option<WindowAttributes>>::from_native(bad_class), None);
    let bad_gravity = XWindowAttributes { win_gravity: 11, ..sample_window_attributes() };
    assert_eq!(<Option<WindowAttributes>>::from_native(bad_gravity), None);
    let bad_backing = XWindowAttributes { backing_store: -1, ..sample_window_attributes() };
    assert_eq!(<Option<WindowAttributes>>::from_native(bad_backing), None);
    let bad_map_state = XWindowAttributes { map_state: 3, ..sample_window_attributes() };
    assert_eq!(<Option<WindowAttributes>>::from_native(bad_map_state), None);
}

#[test]
fn visual_info_decodes_and_rejects_by_class() {
    let native = XVisualInfo {
        visual: 0x3000,
        visualid: 0x1_0000_0005,
        screen: 0,
        depth: 24,
        class: 4,
        red_mask: 0xFF0000,
        green_mask: 0x00FF00,
        blue_mask: 0x0000FF,
        colormap_size: 256,
        bits_per_rgb: 8,
    };
    let decoded = <Option<VisualInfo>>::from_native(native).unwrap();
    assert_eq!(decoded.class, VisualClass::TrueColor);
    assert_eq!(decoded.visual_id, 5);
    assert_eq!(decoded.depth, 24);
    assert_eq!(decoded.red_mask, 0xFF0000);
    let unknown_class = XVisualInfo { class: 6, ..native };
    assert_eq!(<Option<VisualInfo>>::from_native(unknown_class), None);
}

#[test]
fn handles_keep_their_address_identity() {
    let visual = Visual::from_native(0xDEAD_0000);
    assert_eq!(visual.to_native(), 0xDEAD_0000);
    assert_eq!(visual, Visual::from_native(0xDEAD_0000));
    assert_ne!(visual, Visual::from_native(0));
    assert_eq!(Visual::from_native(0).to_native(), 0);

    let screen = Screen::from_native(77);
    assert_eq!(screen.to_native(), 77);
    assert_eq!(Screen::from_native(0).to_native(), 0);
}

#[test]
fn rectangle_narrows_to_sixteen_bit_native_fields() {
    let exact = Rectangle { x: 10, y: -7, width: 300, height: 65535 };
    let native = exact.to_native();
    assert_eq!(native.x, 10);
    assert_eq!(native.y, -7);
    assert_eq!(native.width, 300);
    assert_eq!(native.height, 65535);

    let wrapped = Rectangle { x: 70000, y: -40000, width: 65536, height: -1 };
    let native = wrapped.to_native();
    assert_eq!(native.x, 4464);
    assert_eq!(native.y, 25536);
    assert_eq!(native.width, 0);
    assert_eq!(native.height, 65535);
}

#[test]
fn boundary_conversions_match_twos_complement() {
    assert_eq!(low32(0x1_2345_6789), 0x2345_6789);
    assert_eq!(u32_of_i32(-1), 0xFFFF_FFFF);
    assert_eq!(u32_of_i32(7), 7);
    assert_eq!(i32_of_u32(0xFFFF_FFFF), -1);
    assert_eq!(i32_of_u32(0x7FFF_FFFF), i32::MAX);
    assert_eq!(i16_wrap_of_i32(-1), -1);
    assert_eq!(i16_wrap_of_i32(0x8000), -0x8000);
    assert_eq!(u16_wrap_of_i32(-1), 0xFFFF);
    assert_eq!(u16_wrap_of_i32(0x1_0001), 1);
}
