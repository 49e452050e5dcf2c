//! Drawables: surfaces that drawing requests target.
use vstd::prelude::*;

use crate::Xid;
use crate::window::Window;

verus! {

/// Drawable resource identifier type.
pub type Drawable = Xid;

/// The geometry of a drawable as reported by a geometry query.
#[derive(Clone, Copy, Debug, PartialEq, Eq, Structural)]
pub struct Geometry {
    pub root: Window,
    pub x: i32,
    pub y: i32,
    pub width: i32,
    pub height: i32,
    pub border_width: i32,
    pub depth: i32,
}

} // verus!
