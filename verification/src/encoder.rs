//! The packet encoder: a fixed table of byte offsets, and the transform from
//! an effect descriptor to the 32-byte command frame.

use vstd::prelude::*;
use crate::effect::{
    brightness_byte, direction_bytes, effect_type_byte, speed_byte, Effect,
};

verus! {

broadcast use vstd::array::group_array_axioms;

/// The named byte positions of the frame. The offsets are protocol-fixed:
/// changing one changes wire compatibility with the physical device. Note the
/// red, blue, green channel order per color slot, which matches the device's
/// expected wire order.
#[derive(Clone, Copy, PartialEq, Eq, Structural)]
#[allow(non_camel_case_types)]
pub enum Address {
    HEAD1,
    HEAD2,
    EFFECT,
    SPEED,
    BRIGHTNESS,
    RED1,
    BLUE1,
    GREEN1,
    RED2,
    BLUE2,
    GREEN2,
    RED3,
    BLUE3,
    GREEN3,
    RED4,
    BLUE4,
    GREEN4,
    EMPTY,
    RTL,
    LTR,
}

/// The byte offset of each named field: a total, injective map into [0, 31].
pub open spec fn address_offset(a: Address) -> usize {
    match a {
        Address::HEAD1 => 0,
        Address::HEAD2 => 1,
        Address::EFFECT => 2,
        Address::SPEED => 3,
        Address::BRIGHTNESS => 4,
        Address::RED1 => 5,
        Address::BLUE1 => 6,
        Address::GREEN1 => 7,
        Address::RED2 => 8,
        Address::BLUE2 => 9,
        Address::GREEN2 => 10,
        Address::RED3 => 11,
        Address::BLUE3 => 12,
        Address::GREEN3 => 13,
        Address::RED4 => 14,
        Address::BLUE4 => 15,
        Address::GREEN4 => 16,
        Address::EMPTY => 17,
        Address::RTL => 18,
        Address::LTR => 19,
    }
}

impl Address {
    /// The byte offset of this field in the frame.
    pub fn index(&self) -> (i: usize)
        ensures
            i == address_offset(*self),
            i < 32,
    {
        match self {
            Address::HEAD1 => 0,
            Address::HEAD2 => 1,
            Address::EFFECT => 2,
            Address::SPEED => 3,
            Address::BRIGHTNESS => 4,
            Address::RED1 => 5,
            Address::BLUE1 => 6,
            Address::GREEN1 => 7,
            Address::RED2 => 8,
            Address::BLUE2 => 9,
            Address::GREEN2 => 10,
            Address::RED3 => 11,
            Address::BLUE3 => 12,
            Address::GREEN3 => 13,
            Address::RED4 => 14,
            Address::BLUE4 => 15,
            Address::GREEN4 => 16,
            Address::EMPTY => 17,
            Address::RTL => 18,
            Address::LTR => 19,
        }
    }
}

/// The byte a frame encoding `e` holds at offset `i`: header bytes at offsets
/// 0 and 1, the field bytes at their fixed offsets, zero everywhere else.
pub open spec fn frame_byte(e: Effect, i: int) -> u8 {
    if i == 0 {
        0xCC
    } else if i == 1 {
        0x16
    } else if i == 2 {
        effect_type_byte(e.effect_type)
    } else if i == 3 {
        speed_byte(e.speed)
    } else if i == 4 {
        brightness_byte(e.brightness)
    } else if i == 5 {
        e.colors[0].red
    } else if i == 6 {
        e.colors[0].blue
    } else if i == 7 {
        e.colors[0].green
    } else if i == 8 {
        e.colors[1].red
    } else if i == 9 {
        e.colors[1].blue
    } else if i == 10 {
        e.colors[1].green
    } else if i == 11 {
        e.colors[2].red
    } else if i == 12 {
        e.colors[2].blue
    } else if i == 13 {
        e.colors[2].green
    } else if i == 14 {
        e.colors[3].red
    } else if i == 15 {
        e.colors[3].blue
    } else if i == 16 {
        e.colors[3].green
    } else if i == 18 {
        direction_bytes(e.direction).0
    } else if i == 19 {
        direction_bytes(e.direction).1
    } else {
        0x00
    }
}

/// The complete 32-byte frame encoding `e`.
pub open spec fn spec_frame(e: Effect) -> Seq<u8> {
    Seq::new(32, |i: int| frame_byte(e, i))
}

/// The frame a freshly constructed encoder holds: the header bytes at
/// offsets 0 and 1, every other byte zero.
pub open spec fn fresh_frame() -> Seq<u8> {
    Seq::new(32, |i: int| if i == 0 { 0xCC } else if i == 1 { 0x16 } else { 0x00 })
}

/// The frame encoder for the keyboard. It owns the 32-byte buffer under
/// construction and nothing else.
pub struct L5K {
    pub data: [u8; 32],
}

impl L5K {
    /// A fresh encoder: buffer zeroed, header bytes applied, reserved byte
    /// zero.
    pub fn new() -> (l: L5K)
        ensures
            l.data@ == fresh_frame(),
    {
        let mut l5k = L5K { data: [0u8; 32] };

        l5k.data[Address::HEAD1.index()] = 0xCC;
        l5k.data[Address::HEAD2.index()] = 0x16;
        l5k.data[Address::EMPTY.index()] = 0x00;

        proof {
            assert(l5k.data@ =~= fresh_frame());
        }
        l5k
    }

    /// Encode `effect` into a complete 32-byte frame, returned by value.
    ///
    /// Every encode starts from a fresh buffer — zeros, with the header bytes
    /// reapplied — so no byte of an earlier encode can leak into the result,
    /// and both direction flag bytes are written whatever the direction is.
    pub fn build(&mut self, effect: &Effect) -> (frame: [u8; 32])
        ensures
            frame@ == spec_frame(*effect),
            final(self).data@ == spec_frame(*effect),
    {
        self.data = [0u8; 32];
        self.data[Address::HEAD1.index()] = 0xCC;
        self.data[Address::HEAD2.index()] = 0x16;
        self.data[Address::EMPTY.index()] = 0x00;

        self.data[Address::EFFECT.index()] = effect.effect_type.value();
        self.data[Address::SPEED.index()] = effect.speed.value();
        self.data[Address::BRIGHTNESS.index()] = effect.brightness.value();

        self.data[Address::RED1.index()] = effect.colors[0].red;
        self.data[Address::GREEN1.index()] = effect.colors[0].green;
        self.data[Address::BLUE1.index()] = effect.colors[0].blue;

        self.data[Address::RED2.index()] = effect.colors[1].red;
        self.data[Address::GREEN2.index()] = effect.colors[1].green;
        self.data[Address::BLUE2.index()] = effect.colors[1].blue;

        self.data[Address::RED3.index()] = effect.colors[2].red;
        self.data[Address::GREEN3.index()] = effect.colors[2].green;
        self.data[Address::BLUE3.index()] = effect.colors[2].blue;

        self.data[Address::RED4.index()] = effect.colors[3].red;
        self.data[Address::GREEN4.index()] = effect.colors[3].green;
        self.data[Address::BLUE4.index()] = effect.colors[3].blue;

        let direction = effect.direction.value();
        self.data[Address::RTL.index()] = direction.0;
        self.data[Address::LTR.index()] = direction.1;

        proof {
            assert(self.data@ =~= spec_frame(*effect));
        }
        self.data
    }
}

/// Header and reserved-byte invariance: whatever the effect, its frame is
/// exactly 32 bytes, carries the header bytes at offsets 0 and 1, and a zero
/// at the reserved offset.
pub proof fn lemma_header_invariant(e: Effect)
    ensures
        spec_frame(e).len() == 32,
        spec_frame(e)[0] == 0xCC,
        spec_frame(e)[1] == 0x16,
        spec_frame(e)[17] == 0x00,
{
}

/// Encoding is deterministic: any two frames that encode the same effect are
/// byte-identical.
pub proof fn lemma_encode_deterministic(e: Effect, f1: Seq<u8>, f2: Seq<u8>)
    requires
        f1 == spec_frame(e),
        f2 == spec_frame(e),
    ensures
        f1 == f2,
{
}

/// Field isolation: the byte at each enumerated field's offset equals that
/// field's table value, so it depends on that field alone — two effects that
/// agree on the field get the same byte there, whatever their other fields.
pub proof fn lemma_field_isolation(e1: Effect, e2: Effect)
    ensures
        spec_frame(e1)[2] == effect_type_byte(e1.effect_type),
        spec_frame(e1)[3] == speed_byte(e1.speed),
        spec_frame(e1)[4] == brightness_byte(e1.brightness),
        e1.effect_type == e2.effect_type ==> spec_frame(e1)[2] == spec_frame(e2)[2],
        e1.speed == e2.speed ==> spec_frame(e1)[3] == spec_frame(e2)[3],
        e1.brightness == e2.brightness ==> spec_frame(e1)[4] == spec_frame(e2)[4],
{
}

/// Color layout: each of the four color slots puts its red, blue and green
/// channels, in that order, at the slot's three consecutive offsets.
pub proof fn lemma_color_slots(e: Effect)
    ensures
        forall|s: int|
            0 <= s < 4 ==> {
                &&& spec_frame(e)[5 + 3 * s] == e.colors[s].red
                &&& spec_frame(e)[6 + 3 * s] == e.colors[s].blue
                &&& spec_frame(e)[7 + 3 * s] == e.colors[s].green
            },
{
    assert forall|s: int| 0 <= s < 4 implies {
        &&& spec_frame(e)[5 + 3 * s] == e.colors[s].red
        &&& spec_frame(e)[6 + 3 * s] == e.colors[s].blue
        &&& spec_frame(e)[7 + 3 * s] == e.colors[s].green
    } by {
        assert(s == 0 || s == 1 || s == 2 || s == 3);
    }
}

/// Direction flags: the pair at the direction offsets is (0,0) for Neutral,
/// (1,0) for RTL and (0,1) for LTR, and at most one of the two bytes is
/// nonzero — exactly one unless the direction is Neutral.
pub proof fn lemma_direction_flags(e: Effect)
    ensures
        e.direction is Neutral ==> spec_frame(e)[18] == 0x00 && spec_frame(e)[19] == 0x00,
        e.direction is RTL ==> spec_frame(e)[18] == 0x01 && spec_frame(e)[19] == 0x00,
        e.direction is LTR ==> spec_frame(e)[18] == 0x00 && spec_frame(e)[19] == 0x01,
        !(spec_frame(e)[18] != 0 && spec_frame(e)[19] != 0),
        e.direction !is Neutral ==> (spec_frame(e)[18] != 0) != (spec_frame(e)[19] != 0),
{
}

/// Color non-interference: two effects that differ at most in their colors
/// encode to frames that agree on every byte outside the twelve color
/// offsets.
pub proof fn lemma_color_non_interference(e1: Effect, e2: Effect)
    requires
        e1.effect_type == e2.effect_type,
        e1.speed == e2.speed,
        e1.brightness == e2.brightness,
        e1.direction == e2.direction,
    ensures
        forall|i: int|
            0 <= i < 32 && !(5 <= i <= 16) ==> spec_frame(e1)[i] == spec_frame(e2)[i],
{
}

} // verus!
