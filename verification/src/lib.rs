//! Encoder for the lighting-effect command protocol of a USB keyboard.
//!
//! An [`effect::Effect`] describes a lighting configuration: effect kind,
//! speed, brightness, four colors, and an animation direction. The encoder
//! maps it onto a fixed 32-byte command frame, byte by byte, at offsets fixed
//! by the device's protocol. Transmitting the frame (a USB control transfer)
//! is left to the caller.

pub mod effect;
pub mod encoder;
