//! Font resources.
use vstd::prelude::*;

use crate::Xid;

verus! {

/// Font resource identifier type.
pub type Font = Xid;

} // verus!
