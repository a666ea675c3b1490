//! The material that styles a polyline — line width and RGBA color — and its
//! marshaling into the uniform buffer the shaders read.

use vstd::prelude::*;
use crate::polyline::push_u32_le;
use crate::polyline::u32_le_bytes;

verus! {

/// The bit pattern of an IEEE-754 value of one: the default width and the
/// default color channel.
pub const F32_ONE_BITS: u32 = 0x3f80_0000;

/// An RGBA color, one 32-bit IEEE-754 bit pattern per channel. The library
/// only stores channels and copies them into the uniform buffer, so the bit
/// pattern is the model.
#[derive(Clone, Copy, Debug, PartialEq, Eq, Structural)]
pub struct Color {
    pub red_bits: u32,
    pub green_bits: u32,
    pub blue_bits: u32,
    pub alpha_bits: u32,
}

/// The style of a polyline: the strip's width and its color.
#[derive(Clone, Copy, Debug, PartialEq, Eq, Structural)]
pub struct PolylineMaterial {
    pub width_bits: u32,
    pub color: Color,
}

/// A color occupies 16 bytes of the uniform buffer: red, green, blue, alpha,
/// each little-endian.
pub open spec fn color_bytes(c: Color) -> Seq<u8> {
    u32_le_bytes(c.red_bits) + u32_le_bytes(c.green_bits) + u32_le_bytes(c.blue_bits)
        + u32_le_bytes(c.alpha_bits)
}

/// The material's uniform buffer: the color, then the width, 20 bytes in
/// all — the layout the shaders declare.
pub open spec fn uniform_bytes(m: PolylineMaterial) -> Seq<u8> {
    color_bytes(m.color) + u32_le_bytes(m.width_bits)
}

impl Color {
    /// A color from the bit patterns of its four channels.
    pub fn new(red_bits: u32, green_bits: u32, blue_bits: u32, alpha_bits: u32) -> (c: Self)
        ensures
            c.red_bits == red_bits,
            c.green_bits == green_bits,
            c.blue_bits == blue_bits,
            c.alpha_bits == alpha_bits,
    {
        Color { red_bits, green_bits, blue_bits, alpha_bits }
    }

    /// Opaque white: every channel holds one.
    pub fn white() -> (c: Self)
        ensures
            c == (Color {
                red_bits: F32_ONE_BITS,
                green_bits: F32_ONE_BITS,
                blue_bits: F32_ONE_BITS,
                alpha_bits: F32_ONE_BITS,
            }),
    {
        Color {
            red_bits: F32_ONE_BITS,
            green_bits: F32_ONE_BITS,
            blue_bits: F32_ONE_BITS,
            alpha_bits: F32_ONE_BITS,
        }
    }
}

impl PolylineMaterial {
    /// A material from a width bit pattern and a color.
    pub fn new(width_bits: u32, color: Color) -> (m: Self)
        ensures
            m.width_bits == width_bits,
            m.color == color,
    {
        PolylineMaterial { width_bits, color }
    }

    /// The uniform buffer the render stage uploads for this material: the
    /// four color channels, then the width, each little-endian.
    pub fn uniform_buffer(&self) -> (b: Vec<u8>)
        ensures
            b@ == uniform_bytes(*self),
            b@.len() == 20,
    {
        let mut b: Vec<u8> = Vec::new();
        push_u32_le(&mut b, self.color.red_bits);
        push_u32_le(&mut b, self.color.green_bits);
        push_u32_le(&mut b, self.color.blue_bits);
        push_u32_le(&mut b, self.color.alpha_bits);
        push_u32_le(&mut b, self.width_bits);
        proof {
            assert(b@ =~= uniform_bytes(*self));
        }
        b
    }
}

impl Default for PolylineMaterial {
    /// The default material: width one, opaque white.
    fn default() -> (m: Self)
        ensures
            m.width_bits == F32_ONE_BITS,
            m.color == (Color {
                red_bits: F32_ONE_BITS,
                green_bits: F32_ONE_BITS,
                blue_bits: F32_ONE_BITS,
                alpha_bits: F32_ONE_BITS,
            }),
    {
        PolylineMaterial { width_bits: F32_ONE_BITS, color: Color::white() }
    }
}

} // verus!
