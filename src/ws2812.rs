//! Encoding of a frame for a WS2812 strip driven from an SPI bus: every
//! data bit becomes one SPI byte, a short high pulse for a zero and a long
//! one for a one, most significant bit first, channels in the order red,
//! green, blue; a run of zero bytes after the frame latches it.
use vstd::prelude::*;
use crate::color::Rgb;

verus! {

/// SPI byte that sends a zero bit.
pub const PATTERN_ZERO: u8 = 0b1100_0000;
/// SPI byte that sends a one bit.
pub const PATTERN_ONE: u8 = 0b1111_0000;
/// Zero bytes sent after a frame to latch it.
pub const RESET_BYTES: usize = 64;

/// Whether bit `k` of `data`, counted from the most significant, is set.
pub open spec fn bit_set(data: u8, k: u8) -> bool {
    data & (0x80u8 >> k) != 0
}

/// The SPI byte for bit `k` of `data`, counted from the most significant.
pub open spec fn bit_pattern(data: u8, k: u8) -> u8 {
    if bit_set(data, k) {
        PATTERN_ONE
    } else {
        PATTERN_ZERO
    }
}

/// The eight SPI bytes of one data byte.
pub open spec fn byte_patterns(data: u8) -> Seq<u8> {
    Seq::new(8, |k: int| bit_pattern(data, k as u8))
}

/// The SPI bytes of `cells`, in order.
pub open spec fn pixel_bytes(cells: Seq<Rgb>) -> Seq<u8>
    decreases cells.len(),
{
    if cells.len() == 0 {
        seq![]
    } else {
        let c = cells.last();
        pixel_bytes(cells.drop_last()) + byte_patterns(c.r) + byte_patterns(c.g) + byte_patterns(c.b)
    }
}

/// The SPI bytes of a whole transmission of `cells`: their bytes, then the
/// latch.
pub open spec fn encoded_frame(cells: Seq<Rgb>) -> Seq<u8> {
    pixel_bytes(cells) + Seq::new(RESET_BYTES as nat, |i: int| 0u8)
}

/// Appends the eight SPI bytes of `data`.
fn write_byte(out: &mut Vec<u8>, data: u8)
    ensures
        final(out)@ == old(out)@ + byte_patterns(data),
{
    let mut k: u8 = 0;
    while k < 8
        invariant
            k <= 8,
            out@ == old(out)@ + Seq::new(k as nat, |j: int| bit_pattern(data, j as u8)),
        decreases 8 - k,
    {
        let pattern = if data & (0x80u8 >> k) != 0 {
            PATTERN_ONE
        } else {
            PATTERN_ZERO
        };
        out.push(pattern);
        k = k + 1;
        assert(out@ =~= old(out)@ + Seq::new(k as nat, |j: int| bit_pattern(data, j as u8)));
    }
    assert(Seq::new(8nat, |j: int| bit_pattern(data, j as u8)) =~= byte_patterns(data));
}

/// Appends the latch: a run of zero bytes.
fn flush(out: &mut Vec<u8>)
    ensures
        final(out)@ == old(out)@ + Seq::new(RESET_BYTES as nat, |i: int| 0u8),
{
    let mut k: usize = 0;
    while k < RESET_BYTES
        invariant
            k <= RESET_BYTES,
            out@ == old(out)@ + Seq::new(k as nat, |i: int| 0u8),
        decreases RESET_BYTES - k,
    {
        out.push(0);
        k = k + 1;
        assert(out@ =~= old(out)@ + Seq::new(k as nat, |i: int| 0u8));
    }
}

/// The SPI bytes that show `cells` on the strip, latch included.
pub fn encode(cells: &[Rgb]) -> (r: Vec<u8>)
    ensures
        r@ == encoded_frame(cells@),
{
    let mut out: Vec<u8> = Vec::new();
    let mut i: usize = 0;
    while i < cells.len()
        invariant
            i <= cells@.len(),
            out@ == pixel_bytes(cells@.subrange(0, i as int)),
        decreases cells@.len() - i,
    {
        let ghost after = cells@.subrange(0, i as int + 1);
        assert(after.drop_last() =~= cells@.subrange(0, i as int));
        let c = cells[i];
        write_byte(&mut out, c.r);
        write_byte(&mut out, c.g);
        write_byte(&mut out, c.b);
        i = i + 1;
    }
    assert(cells@.subrange(0, cells@.len() as int) =~= cells@);
    flush(&mut out);
    out
}

} // verus!
