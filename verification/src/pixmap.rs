//! Pixmap resources.
use vstd::prelude::*;

use crate::Xid;

verus! {

/// Pixmap resource identifier type.
pub type Pixmap = Xid;

} // verus!
