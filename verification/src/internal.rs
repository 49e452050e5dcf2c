//! The three marshalling interfaces every codec in this crate follows.
//!
//! Each implementation supplies a spec-level model of its conversion next
//! to the executable conversion, so a caller's contract can speak of the
//! exact value that crosses the native boundary.
use vstd::prelude::*;

verus! {

/// Computes the presence bitmask of an optional attribute set: one bit,
/// at the protocol-assigned (non-contiguous) position, for each field
/// that is present.
pub trait FieldMask<T> {
    /// The bitmask, as a mathematical function of the attribute set.
    spec fn field_mask_spec(&self) -> T;

    fn field_mask(&self) -> (mask: T)
        ensures
            mask == self.field_mask_spec(),
    ;
}

/// Decodes a native value into the safe model.  Fallible decoders
/// implement this for `Option<Target>` and return `None` on values
/// outside the known domain.
pub trait FromNative<T>: Sized {
    /// The decoded value, as a mathematical function of the native value.
    spec fn from_native_spec(native: T) -> Self;

    fn from_native(native: T) -> (decoded: Self)
        ensures
            decoded == Self::from_native_spec(native),
    ;
}

/// Encodes a safe value into its fully-populated native counterpart.
/// Encoding is total: absent optional fields are written as the all-zero
/// default of their native type.
pub trait ToNative<T> {
    /// The native record, as a mathematical function of the safe value.
    spec fn to_native_spec(&self) -> T;

    fn to_native(&self) -> (native: T)
        ensures
            native == self.to_native_spec(),
    ;
}

/// One presence bit of a 64-bit mask: the published constant when the
/// condition holds, zero otherwise.  The bitmask specs sum these
/// contributions; because every structure's published constants are
/// distinct single bits, the sum equals their bitwise OR, which each
/// structure states as a proved law.
pub open spec fn bit_if(present: bool, bit: u64) -> u64 {
    if present {
        bit
    } else {
        0
    }
}

/// One presence bit of an 8-bit mask: the published constant when the
/// condition holds, zero otherwise.
pub open spec fn bit_if8(present: bool, bit: u8) -> u8 {
    if present {
        bit
    } else {
        0
    }
}

/// Whether the given published bit is set in a 64-bit native mask word.
pub open spec fn mask_test(mask: u64, bit: u64) -> bool {
    mask & bit != 0
}

/// Whether the given published bit is set in an 8-bit native mask byte.
pub open spec fn mask_test8(mask: u8, bit: u8) -> bool {
    mask & bit != 0
}

/// Tests one published bit of a 64-bit native mask word.
pub fn has_bit(mask: u64, bit: u64) -> (set: bool)
    ensures
        set == mask_test(mask, bit),
{
    mask & bit != 0
}

/// Tests one published bit of an 8-bit native mask byte.
pub fn has_bit8(mask: u8, bit: u8) -> (set: bool)
    ensures
        set == mask_test8(mask, bit),
{
    mask & bit != 0
}

/// One presence bit of a 64-bit mask: the published constant if the
/// field is present, zero otherwise.
pub fn mask_bit<T>(field: &Option<T>, bit: u64) -> (contribution: u64)
    ensures
        contribution == bit_if(*field is Some, bit),
        contribution <= bit,
{
    match field {
        Some(_) => bit,
        None => 0,
    }
}

/// One presence bit of an 8-bit mask: the published constant if the
/// field is present, zero otherwise.
pub fn mask_bit8<T>(field: &Option<T>, bit: u8) -> (contribution: u8)
    ensures
        contribution == bit_if8(*field is Some, bit),
        contribution <= bit,
{
    match field {
        Some(_) => bit,
        None => 0,
    }
}

/// One bit of a 64-bit event mask: the published constant if the flag
/// is set, zero otherwise.
pub fn flag_bit(flag: bool, bit: u64) -> (contribution: u64)
    ensures
        contribution == bit_if(flag, bit),
        contribution <= bit,
{
    if flag {
        bit
    } else {
        0
    }
}

/// An optional 16-bit color channel, or zero when absent.
pub fn chan_or_zero(field: &Option<u16>) -> (native: u16)
    ensures
        native == (if let Some(value) = *field { value } else { 0u16 }),
{
    match field {
        Some(value) => *value,
        None => 0,
    }
}

/// The native encoding of an optional enumerated value, or the given
/// absent-field default.
pub fn to_native_or<W, T: ToNative<W>>(field: &Option<T>, absent: W) -> (native: W)
    ensures
        native == (if let Some(value) = *field { value.to_native_spec() } else { absent }),
{
    match field {
        Some(value) => value.to_native(),
        None => absent,
    }
}

/// An optional 32-bit identifier or pixel value widened to the 64-bit
/// native field, or zero when absent.
pub fn wide_or_zero(field: &Option<u32>) -> (native: u64)
    ensures
        native == (if let Some(value) = *field { value as u64 } else { 0u64 }),
{
    match field {
        Some(value) => *value as u64,
        None => 0,
    }
}

/// An optional 32-bit integer, or zero when absent.
pub fn int_or_zero(field: &Option<i32>) -> (native: i32)
    ensures
        native == (if let Some(value) = *field { value } else { 0i32 }),
{
    match field {
        Some(value) => *value,
        None => 0,
    }
}

/// An optional boolean in the native integer convention: one when
/// present and true, zero otherwise.
pub fn flag_or_zero(field: &Option<bool>) -> (native: i32)
    ensures
        native == (if let Some(value) = *field {
            if value { 1i32 } else { 0i32 }
        } else { 0i32 }),
{
    match field {
        Some(true) => 1,
        _ => 0,
    }
}

/// The first component of an optional coordinate pair, or zero.
pub fn pair_first_or_zero(field: &Option<(i32, i32)>) -> (native: i32)
    ensures
        native == (if let Some(pair) = *field { pair.0 } else { 0i32 }),
{
    match field {
        Some(pair) => pair.0,
        None => 0,
    }
}

/// The second component of an optional coordinate pair, or zero.
pub fn pair_second_or_zero(field: &Option<(i32, i32)>) -> (native: i32)
    ensures
        native == (if let Some(pair) = *field { pair.1 } else { 0i32 }),
{
    match field {
        Some(pair) => pair.1,
        None => 0,
    }
}

} // verus!
