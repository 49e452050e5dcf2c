//! Safe, verified marshalling for an Xlib-style windowing protocol.
//!
//! The library translates between a richly-typed value model (optional
//! attribute sets, tagged events, named constants) and the fixed-layout
//! native records the protocol's client library expects.  Every codec in
//! this crate is specified and proved: presence bitmasks, enumerated
//! constants, and the fixed-size event buffer with its shape overlays.
//! The unverified connection layer that actually calls the native library
//! lives outside this crate and exchanges only plain values with it.
#![allow(unused_imports)]
use vstd::prelude::*;

pub mod colormap;
pub mod cursor;
pub mod drawable;
pub mod event;
pub mod event_mask;
pub mod font;
pub mod gc;
pub mod internal;
pub mod native;
pub mod pixmap;
pub mod screen;
pub mod visual;
pub mod window;

verus! {

/// Server-side resource identifier.  All protocol resources (windows,
/// pixmaps, colormaps, graphics contexts, atoms, cursors, fonts) are drawn
/// from this single numeric namespace; zero is reserved as "no resource".
pub type Xid = u32;

/// Identifier of an interned name (atom).
pub type Atom = Xid;

} // verus!
