//! Enumerated-constant codecs: every named value maps to its published
//! integer, decoding is the inverse on the closed set, and integers
//! outside the set decode to nothing.
use xlib::gc::{ArcMode, CapStyle, ClipOrdering, FillRule, FillStyle, GcFunction, JoinStyle,
    LineStyle, SubwindowMode};
use xlib::internal::{FromNative, ToNative};
use xlib::visual::VisualClass;
use xlib::window::{BackingStore, Gravity, MapState, WindowClass};

#[test]
fn visual_class_encodes_to_published_constants() {
    assert_eq!(VisualClass::StaticGray.to_native(), 0);
    assert_eq!(VisualClass::GrayScale.to_native(), 1);
    assert_eq!(VisualClass::StaticColor.to_native(), 2);
    assert_eq!(VisualClass::PseudoColor.to_native(), 3);
    assert_eq!(VisualClass::TrueColor.to_native(), 4);
    assert_eq!(VisualClass::DirectColor.to_native(), 5);
}

#[test]
fn visual_class_round_trips_and_rejects_unknown() {
    for num in 0..6 {
        let class = <Option<VisualClass>>::from_native(num).unwrap();
        assert_eq!(class.to_native(), num);
    }
    assert_eq!(<Option<VisualClass>>::from_native(6), None);
    assert_eq!(<Option<VisualClass>>::from_native(-1), None);
    assert_eq!(<Option<VisualClass>>::from_native(i32::MAX), None);
}

#[test]
fn gravity_encodes_to_published_constants() {
    assert_eq!(Gravity::Forget.to_native(), 0);
    assert_eq!(Gravity::NorthWest.to_native(), 1);
    assert_eq!(Gravity::North.to_native(), 2);
    assert_eq!(Gravity::NorthEast.to_native(), 3);
    assert_eq!(Gravity::West.to_native(), 4);
    assert_eq!(Gravity::Center.to_native(), 5);
    assert_eq!(Gravity::East.to_native(), 6);
    assert_eq!(Gravity::SouthWest.to_native(), 7);
    assert_eq!(Gravity::South.to_native(), 8);
    assert_eq!(Gravity::SouthEast.to_native(), 9);
    assert_eq!(Gravity::Static.to_native(), 10);
}

#[test]
fn gravity_round_trips_and_rejects_unknown() {
    for num in 0..11 {
        let gravity = <Option<Gravity>>::from_native(num).unwrap();
        assert_eq!(gravity.to_native(), num);
    }
    assert_eq!(<Option<Gravity>>::from_native(11), None);
    assert_eq!(<Option<Gravity>>::from_native(-1), None);
}

#[test]
fn backing_store_round_trips_and_rejects_unknown() {
    assert_eq!(BackingStore::NotUseful.to_native(), 0);
    assert_eq!(BackingStore::WhenMapped.to_native(), 1);
    assert_eq!(BackingStore::Always.to_native(), 2);
    for num in 0..3 {
        let mode = <Option<BackingStore>>::from_native(num).unwrap();
        assert_eq!(mode.to_native(), num);
    }
    assert_eq!(<Option<BackingStore>>::from_native(3), None);
    assert_eq!(<Option<BackingStore>>::from_native(-2), None);
}

#[test]
fn map_state_decodes_the_closed_set_only() {
    assert_eq!(<Option<MapState>>::from_native(0), Some(MapState::Unmapped));
    assert_eq!(<Option<MapState>>::from_native(1), Some(MapState::Unviewable));
    assert_eq!(<Option<MapState>>::from_native(2), Some(MapState::Viewable));
    assert_eq!(<Option<MapState>>::from_native(3), None);
    assert_eq!(<Option<MapState>>::from_native(-1), None);
}

#[test]
fn window_class_round_trips_and_rejects_unknown() {
    assert_eq!(WindowClass::InputOutput.to_native(), 1);
    assert_eq!(WindowClass::InputOnly.to_native(), 2);
    assert_eq!(<Option<WindowClass>>::from_native(1), Some(WindowClass::InputOutput));
    assert_eq!(<Option<WindowClass>>::from_native(2), Some(WindowClass::InputOnly));
    assert_eq!(<Option<WindowClass>>::from_native(0), None);
    assert_eq!(<Option<WindowClass>>::from_native(3), None);
}

#[test]
fn gc_function_encodes_all_sixteen_operations() {
    let expected = [
        (GcFunction::Clear, 0),
        (GcFunction::And, 1),
        (GcFunction::AndReverse, 2),
        (GcFunction::Copy, 3),
        (GcFunction::AndInverted, 4),
        (GcFunction::Noop, 5),
        (GcFunction::Xor, 6),
        (GcFunction::Or, 7),
        (GcFunction::Nor, 8),
        (GcFunction::Equiv, 9),
        (GcFunction::Invert, 10),
        (GcFunction::OrReverse, 11),
        (GcFunction::CopyInverted, 12),
        (GcFunction::OrInverted, 13),
        (GcFunction::Nand, 14),
        (GcFunction::SetAll, 15),
    ];
    for (function, num) in expected {
        assert_eq!(function.to_native(), num);
    }
}

#[test]
fn drawing_style_enums_encode_to_published_constants() {
    assert_eq!(ArcMode::Chord.to_native(), 0);
    assert_eq!(ArcMode::PieSlice.to_native(), 1);
    assert_eq!(CapStyle::NotLast.to_native(), 0);
    assert_eq!(CapStyle::Butt.to_native(), 1);
    assert_eq!(CapStyle::Round.to_native(), 2);
    assert_eq!(CapStyle::Projecting.to_native(), 3);
    assert_eq!(ClipOrdering::Unsorted.to_native(), 0);
    assert_eq!(ClipOrdering::YSorted.to_native(), 1);
    assert_eq!(ClipOrdering::YXSorted.to_native(), 2);
    assert_eq!(ClipOrdering::YXBanded.to_native(), 3);
    assert_eq!(FillRule::EvenOdd.to_native(), 0);
    assert_eq!(FillRule::Winding.to_native(), 1);
    assert_eq!(FillStyle::Solid.to_native(), 0);
    assert_eq!(FillStyle::Tiled.to_native(), 1);
    assert_eq!(FillStyle::Stippled.to_native(), 2);
    assert_eq!(FillStyle::OpaqueStippled.to_native(), 3);
    assert_eq!(JoinStyle::Miter.to_native(), 0);
    assert_eq!(JoinStyle::Round.to_native(), 1);
    assert_eq!(JoinStyle::Bevel.to_native(), 2);
    assert_eq!(LineStyle::Solid.to_native(), 0);
    assert_eq!(LineStyle::OnOffDash.to_native(), 1);
    assert_eq!(LineStyle::DoubleDash.to_native(), 2);
    assert_eq!(SubwindowMode::ClipByChildren.to_native(), 0);
    assert_eq!(SubwindowMode::IncludeInferiors.to_native(), 1);
}
