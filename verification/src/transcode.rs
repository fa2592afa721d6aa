//! The pixel transcoder: maps raw input bytes to output pixel channel bytes.
//!
//! Bitwise mode expands every input byte into eight pixel bytes, one per bit,
//! least-significant bit first, each either black (`0x00`) or white (`0xff`).
//! Every other mode passes the chunk through unchanged.

use vstd::prelude::*;
use crate::mode::ColorMode;

verus! {

pub const BLACK_PX: u8 = 0x00;

pub const WHITE_PX: u8 = 0xff;

/// The pixel byte produced for bit `i` (0-indexed from least significant)
/// of input byte `b`: white where the bit is set, black where it is clear.
pub open spec fn bit_pixel(b: u8, i: u8) -> u8 {
    if b & (1u8 << i) == 0 {
        BLACK_PX
    } else {
        WHITE_PX
    }
}

/// The bitwise expansion of a byte sequence: output byte `j` is the pixel for
/// bit `j % 8` of input byte `j / 8`.
pub open spec fn bitwise_expand(s: Seq<u8>) -> Seq<u8> {
    Seq::new(s.len() * 8, |j: int| bit_pixel(s[j / 8], (j % 8) as u8))
}

/// What the transcoder yields for a chunk: the bitwise expansion in Bitwise
/// mode, the chunk itself in every other mode.
pub open spec fn spec_transcode(mode: ColorMode, chunk: Seq<u8>) -> Seq<u8> {
    if mode is Bitwise {
        bitwise_expand(chunk)
    } else {
        chunk
    }
}

/// Expands each input byte into eight black-or-white pixel bytes,
/// least-significant bit first.
pub fn handle_bitwise(data: Vec<u8>) -> (r: Vec<u8>)
    ensures
        r@ == bitwise_expand(data@),
{
    let mut out: Vec<u8> = Vec::new();
    let mut k: usize = 0;
    while k < data.len()
        invariant
            k <= data.len(),
            out@.len() == 8 * k,
            forall|j: int| 0 <= j < 8 * k ==> out@[j] == bit_pixel(data@[j / 8], (j % 8) as u8),
        decreases data.len() - k,
    {
        let b = data[k];
        let mut shift: u8 = 0;
        while shift < 8
            invariant
                0 <= shift <= 8,
                k < data.len(),
                b == data@[k as int],
                out@.len() == 8 * k + shift,
                forall|j: int| 0 <= j < 8 * k ==> out@[j] == bit_pixel(data@[j / 8], (j % 8) as u8),
                forall|j: int| 8 * k <= j < 8 * k + shift ==> out@[j] == bit_pixel(b, (j - 8 * k) as u8),
            decreases 8 - shift,
        {
            let px = if b & (1u8 << shift) == 0 {
                BLACK_PX
            } else {
                WHITE_PX
            };
            out.push(px);
            shift = shift + 1;
        }
        proof {
            assert forall|j: int| 8 * k <= j < 8 * (k + 1) implies out@[j] == bit_pixel(
                data@[j / 8],
                (j % 8) as u8,
            ) by {
                assert(j / 8 == k && j % 8 == j - 8 * k) by (nonlinear_arith)
                    requires
                        8 * k <= j < 8 * (k + 1),
                ;
            }
        }
        k = k + 1;
    }
    proof {
        assert(out@ =~= bitwise_expand(data@));
    }
    out
}

/// Identity transcoding for the multi-byte-per-pixel modes.
pub fn handle_others(data: Vec<u8>) -> (r: Vec<u8>)
    ensures
        r@ == data@,
{
    data
}

/// Transcodes one chunk of raw input bytes for the given color mode.
pub fn transcode(data: Vec<u8>, mode: ColorMode) -> (r: Vec<u8>)
    ensures
        r@ == spec_transcode(mode, data@),
{
    match mode {
        ColorMode::Bitwise => handle_bitwise(data),
        _ => handle_others(data),
    }
}

/// Transcoding a single byte in Bitwise mode yields exactly eight bytes; each
/// is black or white, and the byte at position `i` is white exactly when bit
/// `i` (0-indexed from least significant) of the input is set.
pub proof fn lemma_bitwise_single_byte(b: u8)
    ensures
        bitwise_expand(seq![b]).len() == 8,
        forall|i: int| 0 <= i < 8 ==> bitwise_expand(seq![b])[i] == bit_pixel(b, i as u8),
        forall|i: int|
            0 <= i < 8 ==> (bitwise_expand(seq![b])[i] == BLACK_PX || bitwise_expand(seq![b])[i]
                == WHITE_PX),
        forall|i: int|
            0 <= i < 8 ==> (bitwise_expand(seq![b])[i] == WHITE_PX <==> b & (1u8 << (i as u8))
                != 0),
{
    assert forall|i: int| 0 <= i < 8 implies bitwise_expand(seq![b])[i] == bit_pixel(b, i as u8) by {
        assert(i / 8 == 0 && i % 8 == i) by (nonlinear_arith)
            requires
                0 <= i < 8,
        ;
        assert(seq![b][i / 8] == b);
    }
}

/// The bitwise expansion of a chunk is exactly eight times as long as the
/// chunk.
pub proof fn lemma_bitwise_expand_len(s: Seq<u8>)
    ensures
        bitwise_expand(s).len() == 8 * s.len(),
{
}

/// For every mode other than Bitwise, transcoding is the identity on chunks.
pub proof fn lemma_transcode_identity(mode: ColorMode, chunk: Seq<u8>)
    requires
        !(mode is Bitwise),
    ensures
        spec_transcode(mode, chunk) == chunk,
{
}

} // verus!
