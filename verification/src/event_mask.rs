//! The event-selection mask and its native word codec.
use vstd::prelude::*;

use crate::internal::{FromNative, ToNative, bit_if, flag_bit, has_bit, mask_test};

verus! {

/// Selection mask naming the event categories a client wants delivered.
/// Encodes to the native mask word as the sum of the published bits of
/// the set flags; decoding reads each published bit independently.
#[derive(Clone, Copy, Debug, Eq, PartialEq)]
pub struct EventMask {
    pub key_press: bool,
    pub key_release: bool,
    pub button_press: bool,
    pub button_release: bool,
    pub enter_window: bool,
    pub leave_window: bool,
    pub pointer_motion: bool,
    pub pointer_motion_hint: bool,
    pub button_1_motion: bool,
    pub button_2_motion: bool,
    pub button_3_motion: bool,
    pub button_4_motion: bool,
    pub button_5_motion: bool,
    pub button_motion: bool,
    pub keymap_state: bool,
    pub exposure: bool,
    pub visibility_change: bool,
    pub structure_notify: bool,
    pub resize_redirect: bool,
    pub substructure_notify: bool,
    pub substructure_redirect: bool,
    pub focus_change: bool,
    pub property_change: bool,
    pub colormap_change: bool,
    pub owner_grab_button: bool,
}

impl EventMask {
    /// The mask with every flag cleared.
    pub open spec fn empty_spec() -> EventMask {
        EventMask {
            key_press: false,
            key_release: false,
            button_press: false,
            button_release: false,
            enter_window: false,
            leave_window: false,
            pointer_motion: false,
            pointer_motion_hint: false,
            button_1_motion: false,
            button_2_motion: false,
            button_3_motion: false,
            button_4_motion: false,
            button_5_motion: false,
            button_motion: false,
            keymap_state: false,
            exposure: false,
            visibility_change: false,
            structure_notify: false,
            resize_redirect: false,
            substructure_notify: false,
            substructure_redirect: false,
            focus_change: false,
            property_change: false,
            colormap_change: false,
            owner_grab_button: false,
        }
    }

    /// Returns the mask that selects no events.
    pub fn empty() -> (mask: EventMask)
        ensures
            mask == EventMask::empty_spec(),
    {
        EventMask {
            key_press: false,
            key_release: false,
            button_press: false,
            button_release: false,
            enter_window: false,
            leave_window: false,
            pointer_motion: false,
            pointer_motion_hint: false,
            button_1_motion: false,
            button_2_motion: false,
            button_3_motion: false,
            button_4_motion: false,
            button_5_motion: false,
            button_motion: false,
            keymap_state: false,
            exposure: false,
            visibility_change: false,
            structure_notify: false,
            resize_redirect: false,
            substructure_notify: false,
            substructure_redirect: false,
            focus_change: false,
            property_change: false,
            colormap_change: false,
            owner_grab_button: false,
        }
    }

    /// The decoded mask of a native word: each flag is the state of its
    /// published bit.
    pub open spec fn decoded_spec(mask: u64) -> EventMask {
        EventMask {
            key_press: mask_test(mask, 0x0001),
            key_release: mask_test(mask, 0x0002),
            button_press: mask_test(mask, 0x0004),
            button_release: mask_test(mask, 0x0008),
            enter_window: mask_test(mask, 0x0010),
            leave_window: mask_test(mask, 0x0020),
            pointer_motion: mask_test(mask, 0x0040),
            pointer_motion_hint: mask_test(mask, 0x0080),
            button_1_motion: mask_test(mask, 0x0100),
            button_2_motion: mask_test(mask, 0x0200),
            button_3_motion: mask_test(mask, 0x0400),
            button_4_motion: mask_test(mask, 0x0800),
            button_5_motion: mask_test(mask, 0x1000),
            button_motion: mask_test(mask, 0x2000),
            keymap_state: mask_test(mask, 0x4000),
            exposure: mask_test(mask, 0x8000),
            visibility_change: mask_test(mask, 0x0001_0000),
            structure_notify: mask_test(mask, 0x0002_0000),
            resize_redirect: mask_test(mask, 0x0004_0000),
            substructure_notify: mask_test(mask, 0x0008_0000),
            substructure_redirect: mask_test(mask, 0x0010_0000),
            focus_change: mask_test(mask, 0x0020_0000),
            property_change: mask_test(mask, 0x0040_0000),
            colormap_change: mask_test(mask, 0x0080_0000),
            owner_grab_button: mask_test(mask, 0x0100_0000),
        }
    }

    /// The native word a mask encodes to: the sum of the published bits
    /// of the set flags (equivalently their bitwise OR, as
    /// [`lemma_event_mask_is_bit_or`] states).
    /// The key and button contributions to the mask word.
    pub open spec fn word_head_spec(&self) -> int {
        bit_if(self.key_press, 0x0001) + bit_if(self.key_release, 0x0002) + bit_if(self.button_press, 0x0004) + bit_if(self.button_release, 0x0008) + bit_if(self.enter_window, 0x0010) + bit_if(self.leave_window, 0x0020) + bit_if(self.pointer_motion, 0x0040) + bit_if(self.pointer_motion_hint, 0x0080) + bit_if(self.button_1_motion, 0x0100)
    }

    /// The motion, keymap, exposure and visibility contributions.
    pub open spec fn word_mid_spec(&self) -> int {
        bit_if(self.button_2_motion, 0x0200) + bit_if(self.button_3_motion, 0x0400) + bit_if(self.button_4_motion, 0x0800) + bit_if(self.button_5_motion, 0x1000) + bit_if(self.button_motion, 0x2000) + bit_if(self.keymap_state, 0x4000) + bit_if(self.exposure, 0x8000) + bit_if(self.visibility_change, 0x0001_0000)
    }

    /// The structure, focus and property contributions.
    pub open spec fn word_tail_spec(&self) -> int {
        bit_if(self.structure_notify, 0x0002_0000) + bit_if(self.resize_redirect, 0x0004_0000) + bit_if(self.substructure_notify, 0x0008_0000) + bit_if(self.substructure_redirect, 0x0010_0000) + bit_if(self.focus_change, 0x0020_0000) + bit_if(self.property_change, 0x0040_0000) + bit_if(self.colormap_change, 0x0080_0000) + bit_if(self.owner_grab_button, 0x0100_0000)
    }

    /// The native word a mask encodes to: the sum of the published bits
    /// of the set flags (equivalently their bitwise OR, as
    /// [`lemma_event_mask_is_bit_or`] states).
    pub open spec fn word_spec(&self) -> u64 {
        (self.word_head_spec() + self.word_mid_spec() + self.word_tail_spec()) as u64
    }

    /// Reads every published bit of a native mask word.
    fn decode_word(mask: u64) -> (decoded: EventMask)
        ensures
            decoded == EventMask::decoded_spec(mask),
    {
        EventMask {
            key_press: has_bit(mask, 0x0001),
            key_release: has_bit(mask, 0x0002),
            button_press: has_bit(mask, 0x0004),
            button_release: has_bit(mask, 0x0008),
            enter_window: has_bit(mask, 0x0010),
            leave_window: has_bit(mask, 0x0020),
            pointer_motion: has_bit(mask, 0x0040),
            pointer_motion_hint: has_bit(mask, 0x0080),
            button_1_motion: has_bit(mask, 0x0100),
            button_2_motion: has_bit(mask, 0x0200),
            button_3_motion: has_bit(mask, 0x0400),
            button_4_motion: has_bit(mask, 0x0800),
            button_5_motion: has_bit(mask, 0x1000),
            button_motion: has_bit(mask, 0x2000),
            keymap_state: has_bit(mask, 0x4000),
            exposure: has_bit(mask, 0x8000),
            visibility_change: has_bit(mask, 0x0001_0000),
            structure_notify: has_bit(mask, 0x0002_0000),
            resize_redirect: has_bit(mask, 0x0004_0000),
            substructure_notify: has_bit(mask, 0x0008_0000),
            substructure_redirect: has_bit(mask, 0x0010_0000),
            focus_change: has_bit(mask, 0x0020_0000),
            property_change: has_bit(mask, 0x0040_0000),
            colormap_change: has_bit(mask, 0x0080_0000),
            owner_grab_button: has_bit(mask, 0x0100_0000),
        }
    }

    /// The executable head contributions.
    fn head_word(&self) -> (mask: u64)
        ensures
            mask == self.word_head_spec(),
            mask <= 0x01ff,
    {
        let mask: u64 = flag_bit(self.key_press, 0x0001);
        let mask: u64 = mask + flag_bit(self.key_release, 0x0002);
        let mask: u64 = mask + flag_bit(self.button_press, 0x0004);
        let mask: u64 = mask + flag_bit(self.button_release, 0x0008);
        let mask: u64 = mask + flag_bit(self.enter_window, 0x0010);
        let mask: u64 = mask + flag_bit(self.leave_window, 0x0020);
        let mask: u64 = mask + flag_bit(self.pointer_motion, 0x0040);
        let mask: u64 = mask + flag_bit(self.pointer_motion_hint, 0x0080);
        let mask: u64 = mask + flag_bit(self.button_1_motion, 0x0100);
        mask
    }

    /// The executable middle contributions.
    fn mid_word(&self) -> (mask: u64)
        ensures
            mask == self.word_mid_spec(),
            mask <= 0x0001_fe00,
    {
        let mask: u64 = flag_bit(self.button_2_motion, 0x0200);
        let mask: u64 = mask + flag_bit(self.button_3_motion, 0x0400);
        let mask: u64 = mask + flag_bit(self.button_4_motion, 0x0800);
        let mask: u64 = mask + flag_bit(self.button_5_motion, 0x1000);
        let mask: u64 = mask + flag_bit(self.button_motion, 0x2000);
        let mask: u64 = mask + flag_bit(self.keymap_state, 0x4000);
        let mask: u64 = mask + flag_bit(self.exposure, 0x8000);
        let mask: u64 = mask + flag_bit(self.visibility_change, 0x0001_0000);
        mask
    }

    /// The executable tail contributions.
    fn tail_word(&self) -> (mask: u64)
        ensures
            mask == self.word_tail_spec(),
            mask <= 0x01fe_0000,
    {
        let mask: u64 = flag_bit(self.structure_notify, 0x0002_0000);
        let mask: u64 = mask + flag_bit(self.resize_redirect, 0x0004_0000);
        let mask: u64 = mask + flag_bit(self.substructure_notify, 0x0008_0000);
        let mask: u64 = mask + flag_bit(self.substructure_redirect, 0x0010_0000);
        let mask: u64 = mask + flag_bit(self.focus_change, 0x0020_0000);
        let mask: u64 = mask + flag_bit(self.property_change, 0x0040_0000);
        let mask: u64 = mask + flag_bit(self.colormap_change, 0x0080_0000);
        let mask: u64 = mask + flag_bit(self.owner_grab_button, 0x0100_0000);
        mask
    }

    /// Builds the native mask word from its contribution groups.
    fn encode_word(&self) -> (mask: u64)
        ensures
            mask == self.word_spec(),
    {
        let mask: u64 = self.head_word() + self.mid_word();
        let mask: u64 = mask + self.tail_word();
        mask
    }
}

/// The empty mask encodes to the all-zero native word.
pub proof fn lemma_event_mask_empty_encodes_to_zero()
    ensures
        EventMask::empty_spec().to_native_spec() == 0u64,
{
}

impl FromNative<u64> for EventMask {
    open spec fn from_native_spec(mask: u64) -> EventMask {
        EventMask::decoded_spec(mask)
    }

    fn from_native(mask: u64) -> (decoded: EventMask) {
        EventMask::decode_word(mask)
    }
}

impl ToNative<u64> for EventMask {
    open spec fn to_native_spec(&self) -> u64 {
        self.word_spec()
    }

    fn to_native(&self) -> (mask: u64) {
        self.encode_word()
    }
}

/// The bitmask law of the selection mask: for every assignment of the
/// twenty-five flags, the word they encode to (the grouped sum that
/// [`EventMask::word_spec`] computes) equals the bitwise OR of exactly
/// the published bit constants of the set flags.
pub proof fn lemma_event_mask_is_bit_or(
    c0: bool,
    c1: bool,
    c2: bool,
    c3: bool,
    c4: bool,
    c5: bool,
    c6: bool,
    c7: bool,
    c8: bool,
    c9: bool,
    c10: bool,
    c11: bool,
    c12: bool,
    c13: bool,
    c14: bool,
    c15: bool,
    c16: bool,
    c17: bool,
    c18: bool,
    c19: bool,
    c20: bool,
    c21: bool,
    c22: bool,
    c23: bool,
    c24: bool,
)
    by (bit_vector)
    ensures
        ((bit_if(c0, 0x0001) + bit_if(c1, 0x0002) + bit_if(c2, 0x0004) + bit_if(c3, 0x0008) + bit_if(c4, 0x0010) + bit_if(c5, 0x0020) + bit_if(c6, 0x0040) + bit_if(c7, 0x0080) + bit_if(c8, 0x0100)) + (bit_if(c9, 0x0200) + bit_if(c10, 0x0400) + bit_if(c11, 0x0800) + bit_if(c12, 0x1000) + bit_if(c13, 0x2000) + bit_if(c14, 0x4000) + bit_if(c15, 0x8000) + bit_if(c16, 0x0001_0000)) + (bit_if(c17, 0x0002_0000) + bit_if(c18, 0x0004_0000) + bit_if(c19, 0x0008_0000) + bit_if(c20, 0x0010_0000) + bit_if(c21, 0x0020_0000) + bit_if(c22, 0x0040_0000) + bit_if(c23, 0x0080_0000) + bit_if(c24, 0x0100_0000))) as u64
            == bit_if(c0, 0x0001) | bit_if(c1, 0x0002) | bit_if(c2, 0x0004) | bit_if(c3, 0x0008) | bit_if(c4, 0x0010) | bit_if(c5, 0x0020) | bit_if(c6, 0x0040) | bit_if(c7, 0x0080) | bit_if(c8, 0x0100) | bit_if(c9, 0x0200) | bit_if(c10, 0x0400) | bit_if(c11, 0x0800) | bit_if(c12, 0x1000) | bit_if(c13, 0x2000) | bit_if(c14, 0x4000) | bit_if(c15, 0x8000) | bit_if(c16, 0x0001_0000) | bit_if(c17, 0x0002_0000) | bit_if(c18, 0x0004_0000) | bit_if(c19, 0x0008_0000) | bit_if(c20, 0x0010_0000) | bit_if(c21, 0x0020_0000) | bit_if(c22, 0x0040_0000) | bit_if(c23, 0x0080_0000) | bit_if(c24, 0x0100_0000),
{
}

/// The round-trip law of the selection mask: for any native word that
/// a flag assignment encodes to (the grouped sum of published bits that
/// [`EventMask::word_spec`] computes), testing each published bit of
/// that word (exactly what [`EventMask::decoded_spec`] reads) recovers
/// its flag unchanged.  Encoding then decoding a mask therefore changes
/// no flag.
pub proof fn lemma_event_mask_round_trip_bits(
    c0: bool,
    c1: bool,
    c2: bool,
    c3: bool,
    c4: bool,
    c5: bool,
    c6: bool,
    c7: bool,
    c8: bool,
    c9: bool,
    c10: bool,
    c11: bool,
    c12: bool,
    c13: bool,
    c14: bool,
    c15: bool,
    c16: bool,
    c17: bool,
    c18: bool,
    c19: bool,
    c20: bool,
    c21: bool,
    c22: bool,
    c23: bool,
    c24: bool,
    word: u64,
)
    by (bit_vector)
    requires
        word == ((bit_if(c0, 0x0001) + bit_if(c1, 0x0002) + bit_if(c2, 0x0004) + bit_if(c3, 0x0008) + bit_if(c4, 0x0010) + bit_if(c5, 0x0020) + bit_if(c6, 0x0040) + bit_if(c7, 0x0080) + bit_if(c8, 0x0100)) + (bit_if(c9, 0x0200) + bit_if(c10, 0x0400) + bit_if(c11, 0x0800) + bit_if(c12, 0x1000) + bit_if(c13, 0x2000) + bit_if(c14, 0x4000) + bit_if(c15, 0x8000) + bit_if(c16, 0x0001_0000)) + (bit_if(c17, 0x0002_0000) + bit_if(c18, 0x0004_0000) + bit_if(c19, 0x0008_0000) + bit_if(c20, 0x0010_0000) + bit_if(c21, 0x0020_0000) + bit_if(c22, 0x0040_0000) + bit_if(c23, 0x0080_0000) + bit_if(c24, 0x0100_0000))) as u64,
    ensures
        mask_test(word, 0x0001) == c0,
        mask_test(word, 0x0002) == c1,
        mask_test(word, 0x0004) == c2,
        mask_test(word, 0x0008) == c3,
        mask_test(word, 0x0010) == c4,
        mask_test(word, 0x0020) == c5,
        mask_test(word, 0x0040) == c6,
        mask_test(word, 0x0080) == c7,
        mask_test(word, 0x0100) == c8,
        mask_test(word, 0x0200) == c9,
        mask_test(word, 0x0400) == c10,
        mask_test(word, 0x0800) == c11,
        mask_test(word, 0x1000) == c12,
        mask_test(word, 0x2000) == c13,
        mask_test(word, 0x4000) == c14,
        mask_test(word, 0x8000) == c15,
        mask_test(word, 0x0001_0000) == c16,
        mask_test(word, 0x0002_0000) == c17,
        mask_test(word, 0x0004_0000) == c18,
        mask_test(word, 0x0008_0000) == c19,
        mask_test(word, 0x0010_0000) == c20,
        mask_test(word, 0x0020_0000) == c21,
        mask_test(word, 0x0040_0000) == c22,
        mask_test(word, 0x0080_0000) == c23,
        mask_test(word, 0x0100_0000) == c24,
{
}

} // verus!
