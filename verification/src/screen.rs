//! Opaque handle to a screen descriptor owned by the native library.
use vstd::prelude::*;

use crate::internal::{FromNative, ToNative};

verus! {

/// A locally-held opaque address of an immutable, library-owned screen
/// record.  The handle supports identity comparison only; its referent's
/// lifetime belongs to the connection layer and it is never dereferenced
/// in this crate.  Zero is the valid "no screen" sentinel.
#[derive(Clone, Copy, Debug, PartialEq, Eq, Structural, Hash)]
pub struct Screen {
    addr: u64,
}

impl FromNative<u64> for Screen {
    closed spec fn from_native_spec(addr: u64) -> Screen {
        Screen { addr }
    }

    fn from_native(addr: u64) -> (screen: Screen) {
        Screen { addr }
    }
}

impl ToNative<u64> for Screen {
    closed spec fn to_native_spec(&self) -> u64 {
        self.addr
    }

    fn to_native(&self) -> (addr: u64) {
        self.addr
    }
}

/// A screen handle is exactly its address: wrapping an address and reading
/// it back is the identity, in both directions.
pub proof fn lemma_screen_handle_identity(screen: Screen, addr: u64)
    ensures
        Screen::from_native_spec(addr).to_native_spec() == addr,
        Screen::from_native_spec(screen.to_native_spec()) == screen,
{
}

} // verus!
