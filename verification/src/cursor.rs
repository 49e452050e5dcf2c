//! Cursor resources.
use vstd::prelude::*;

use crate::Xid;

verus! {

/// Cursor resource identifier type.
pub type Cursor = Xid;

} // verus!
