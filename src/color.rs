//! Colors of the light cells and their integer brightness scaling.
use vstd::prelude::*;

verus! {

/// Channel value of a fully lit channel.
pub const FULL: u8 = 255;

/// One light cell: red, green and blue channel levels.
#[derive(Clone, Copy, Debug, PartialEq, Eq, Structural)]
pub struct Rgb {
    pub r: u8,
    pub g: u8,
    pub b: u8,
}

/// A channel scaled by `amount`: `channel * (amount + 1) / 256`.
pub open spec fn scaled_channel(channel: u8, amount: u8) -> u8 {
    ((channel as int * (amount as int + 1)) / 256) as u8
}

/// A color with every channel scaled by `amount`.
pub open spec fn scaled(c: Rgb, amount: u8) -> Rgb {
    Rgb {
        r: scaled_channel(c.r, amount),
        g: scaled_channel(c.g, amount),
        b: scaled_channel(c.b, amount),
    }
}

/// A cell with all channels at `level`.
pub open spec fn gray(level: u8) -> Rgb {
    Rgb { r: level, g: level, b: level }
}

/// The background color of an unlit cell.
pub open spec fn black() -> Rgb {
    gray(0)
}

/// The color of a lit cell.
pub open spec fn white() -> Rgb {
    gray(FULL)
}

impl Rgb {
    pub fn new(r: u8, g: u8, b: u8) -> (c: Rgb)
        ensures
            c == (Rgb { r, g, b }),
    {
        Rgb { r, g, b }
    }

    /// The unlit background color.
    pub fn black() -> (c: Rgb)
        ensures
            c == black(),
    {
        Rgb { r: 0, g: 0, b: 0 }
    }

    /// The color of a lit cell.
    pub fn white() -> (c: Rgb)
        ensures
            c == white(),
    {
        Rgb { r: FULL, g: FULL, b: FULL }
    }

    /// This color with every channel scaled by `amount`, as
    /// `channel * (amount + 1) / 256`.
    pub fn dim(&self, amount: u8) -> (c: Rgb)
        ensures
            c == scaled(*self, amount),
    {
        Rgb {
            r: scale_channel(self.r, amount),
            g: scale_channel(self.g, amount),
            b: scale_channel(self.b, amount),
        }
    }
}

fn scale_channel(channel: u8, amount: u8) -> (r: u8)
    ensures
        r == scaled_channel(channel, amount),
{
    assert(channel as int * (amount as int + 1) <= 255 * 256) by (nonlinear_arith)
        requires
            channel <= 255,
            amount <= 255,
    ;
    let wide: u16 = channel as u16 * (amount as u16 + 1);
    (wide / 256) as u8
}

/// Scaling full white by `amount` gives a gray of level `amount`.
pub proof fn lemma_scaled_white(amount: u8)
    ensures
        scaled(white(), amount) == gray(amount),
{
    assert(255 * (amount as int + 1) / 256 == amount as int) by (nonlinear_arith)
        requires
            0 <= amount <= 255,
    ;
}

} // verus!
