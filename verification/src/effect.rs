//! The effect descriptor: the encoder's sole input, and the protocol byte
//! value of each of its enumerated fields.

use vstd::prelude::*;

verus! {

/// An RGB color. Each channel is an 8-bit intensity; any triple is valid.
#[derive(Clone, Copy, PartialEq, Eq, Structural)]
pub struct Color {
    pub red: u8,
    pub green: u8,
    pub blue: u8,
}

impl Color {
    /// Pure red preset.
    pub fn red() -> (c: Color)
        ensures
            c == (Color { red: 0xff, green: 0x00, blue: 0x00 }),
    {
        Color { red: 0xff, green: 0x00, blue: 0x00 }
    }

    /// Pure green preset.
    pub fn green() -> (c: Color)
        ensures
            c == (Color { red: 0x00, green: 0xff, blue: 0x00 }),
    {
        Color { red: 0x00, green: 0xff, blue: 0x00 }
    }

    /// Pure blue preset.
    pub fn blue() -> (c: Color)
        ensures
            c == (Color { red: 0x00, green: 0x00, blue: 0xff }),
    {
        Color { red: 0x00, green: 0x00, blue: 0xff }
    }

    /// All channels off.
    pub fn black() -> (c: Color)
        ensures
            c == (Color { red: 0x00, green: 0x00, blue: 0x00 }),
    {
        Color { red: 0x00, green: 0x00, blue: 0x00 }
    }

    /// All channels at full intensity.
    pub fn white() -> (c: Color)
        ensures
            c == (Color { red: 0xff, green: 0xff, blue: 0xff }),
    {
        Color { red: 0xff, green: 0xff, blue: 0xff }
    }
}

/// The kind of lighting effect. A closed set: each variant maps to a fixed
/// protocol byte.
#[derive(Clone, Copy, PartialEq, Eq, Structural)]
pub enum EffectType {
    Static,
    Breath,
    Wave,
    Hue,
}

/// Protocol byte for each effect kind.
pub open spec fn effect_type_byte(t: EffectType) -> u8 {
    match t {
        EffectType::Static => 0x01,
        EffectType::Breath => 0x03,
        EffectType::Wave => 0x04,
        EffectType::Hue => 0x06,
    }
}

impl EffectType {
    /// The protocol byte written at the effect-kind offset of the frame.
    pub fn value(&self) -> (b: u8)
        ensures
            b == effect_type_byte(*self),
    {
        match self {
            EffectType::Static => 0x01,
            EffectType::Breath => 0x03,
            EffectType::Wave => 0x04,
            EffectType::Hue => 0x06,
        }
    }
}

/// Animation speed of the effect.
#[derive(Clone, Copy, PartialEq, Eq, Structural)]
pub enum EffectSpeed {
    Default,
    Slowest,
    Slow,
    Fast,
    Fastest,
}

/// Protocol byte for each speed.
pub open spec fn speed_byte(s: EffectSpeed) -> u8 {
    match s {
        EffectSpeed::Default => 0x00,
        EffectSpeed::Slowest => 0x01,
        EffectSpeed::Slow => 0x02,
        EffectSpeed::Fast => 0x03,
        EffectSpeed::Fastest => 0x04,
    }
}

impl EffectSpeed {
    /// The protocol byte written at the speed offset of the frame.
    pub fn value(&self) -> (b: u8)
        ensures
            b == speed_byte(*self),
    {
        match self {
            EffectSpeed::Default => 0x00,
            EffectSpeed::Slowest => 0x01,
            EffectSpeed::Slow => 0x02,
            EffectSpeed::Fast => 0x03,
            EffectSpeed::Fastest => 0x04,
        }
    }
}

/// Backlight brightness.
#[derive(Clone, Copy, PartialEq, Eq, Structural)]
pub enum Brightness {
    Default,
    High,
    Low,
}

/// Protocol byte for each brightness level.
pub open spec fn brightness_byte(b: Brightness) -> u8 {
    match b {
        Brightness::Default => 0x00,
        Brightness::High => 0x01,
        Brightness::Low => 0x02,
    }
}

impl Brightness {
    /// The protocol byte written at the brightness offset of the frame.
    pub fn value(&self) -> (b: u8)
        ensures
            b == brightness_byte(*self),
    {
        match self {
            Brightness::Default => 0x00,
            Brightness::High => 0x01,
            Brightness::Low => 0x02,
        }
    }
}

/// Animation direction, encoded as a pair of mutually exclusive flag bytes.
#[derive(Clone, Copy, PartialEq, Eq, Structural)]
pub enum Direction {
    Neutral,
    RTL,
    LTR,
}

/// The (right-to-left, left-to-right) flag byte pair for each direction.
/// Both bytes are written on every encode; at most one is nonzero.
pub open spec fn direction_bytes(d: Direction) -> (u8, u8) {
    match d {
        Direction::Neutral => (0x00, 0x00),
        Direction::RTL => (0x01, 0x00),
        Direction::LTR => (0x00, 0x01),
    }
}

impl Direction {
    /// The (right-to-left, left-to-right) flag byte pair of the frame.
    pub fn value(&self) -> (p: (u8, u8))
        ensures
            p == direction_bytes(*self),
    {
        match self {
            Direction::Neutral => (0x00, 0x00),
            Direction::RTL => (0x01, 0x00),
            Direction::LTR => (0x00, 0x01),
        }
    }
}

/// A complete lighting-effect description. All fields are required; the four
/// colors are order-significant (slot 1 first).
#[derive(Clone, Copy)]
pub struct Effect {
    pub effect_type: EffectType,
    pub speed: EffectSpeed,
    pub brightness: Brightness,
    pub colors: [Color; 4],
    pub direction: Direction,
}

} // verus!
