//! Color modes and compression levels: the pure descriptors that drive
//! dimension planning and pixel transcoding.

use vstd::prelude::*;
use crate::parse::is_numeral;
use crate::parse::numeral_value;
use crate::parse::parse_u32;
use crate::parse::u32_parse_fails;
use crate::parse::unsigned_digits;

verus! {

/// An option value that did not parse as a known mode or level code.
#[derive(Clone, Copy, PartialEq, Eq, Structural, Debug)]
pub struct ParseFlagError;

/// The pixel channel layout of the output raster. Each variant fixes how many
/// bytes one output pixel takes and how many output bytes one input byte
/// expands into (the dimension-scaling multiplier, kept as an exact rational).
#[derive(Clone, Copy, PartialEq, Eq, Structural, Debug)]
pub enum ColorMode {
    /// Each input bit becomes one black or white pixel byte.
    Bitwise,
    Grayscale,
    Rgb,
    GrayscaleAlpha,
    Rgba,
}

impl ColorMode {
    /// Bytes per output pixel for this mode.
    pub fn bytes_per_pixel(&self) -> (r: u32)
        ensures
            r == self.spec_bytes_per_pixel(),
    {
        match self {
            ColorMode::Bitwise => 1,
            ColorMode::Grayscale => 1,
            ColorMode::Rgb => 3,
            ColorMode::GrayscaleAlpha => 2,
            ColorMode::Rgba => 4,
        }
    }

    pub open spec fn spec_bytes_per_pixel(&self) -> u32 {
        match self {
            ColorMode::Bitwise => 1,
            ColorMode::Grayscale => 1,
            ColorMode::Rgb => 3,
            ColorMode::GrayscaleAlpha => 2,
            ColorMode::Rgba => 4,
        }
    }

    /// Numerator of the exact size-to-dimension multiplier
    /// (8, 1, 3/10, 1/2, 1/4 for the five modes in order).
    pub open spec fn spec_multiplier_num(&self) -> u32 {
        match self {
            ColorMode::Bitwise => 8,
            ColorMode::Grayscale => 1,
            ColorMode::Rgb => 3,
            ColorMode::GrayscaleAlpha => 1,
            ColorMode::Rgba => 1,
        }
    }

    /// Denominator of the exact size-to-dimension multiplier.
    pub open spec fn spec_multiplier_den(&self) -> u32 {
        match self {
            ColorMode::Bitwise => 1,
            ColorMode::Grayscale => 1,
            ColorMode::Rgb => 10,
            ColorMode::GrayscaleAlpha => 2,
            ColorMode::Rgba => 4,
        }
    }

    pub fn multiplier_num(&self) -> (r: u32)
        ensures
            r == self.spec_multiplier_num(),
    {
        match self {
            ColorMode::Bitwise => 8,
            ColorMode::Grayscale => 1,
            ColorMode::Rgb => 3,
            ColorMode::GrayscaleAlpha => 1,
            ColorMode::Rgba => 1,
        }
    }

    pub fn multiplier_den(&self) -> (r: u32)
        ensures
            r == self.spec_multiplier_den(),
    {
        match self {
            ColorMode::Bitwise => 1,
            ColorMode::Grayscale => 1,
            ColorMode::Rgb => 10,
            ColorMode::GrayscaleAlpha => 2,
            ColorMode::Rgba => 4,
        }
    }

    /// The PNG color type code this mode is encoded with: 0 grayscale,
    /// 2 RGB, 4 grayscale-alpha, 6 RGBA. Bitwise renders as grayscale.
    pub open spec fn spec_color_type_code(&self) -> u8 {
        match self {
            ColorMode::Bitwise => 0,
            ColorMode::Grayscale => 0,
            ColorMode::Rgb => 2,
            ColorMode::GrayscaleAlpha => 4,
            ColorMode::Rgba => 6,
        }
    }

    pub fn color_type_code(&self) -> (r: u8)
        ensures
            r == self.spec_color_type_code(),
    {
        match self {
            ColorMode::Bitwise => 0,
            ColorMode::Grayscale => 0,
            ColorMode::Rgb => 2,
            ColorMode::GrayscaleAlpha => 4,
            ColorMode::Rgba => 6,
        }
    }

    /// The command-line code that selects this mode: 0 bitwise, 1 grayscale,
    /// 2 RGB, 4 grayscale-alpha, 5 RGBA (3 is reserved for the unimplemented
    /// indexed mode).
    pub open spec fn spec_cli_code(&self) -> u32 {
        match self {
            ColorMode::Bitwise => 0,
            ColorMode::Grayscale => 1,
            ColorMode::Rgb => 2,
            ColorMode::GrayscaleAlpha => 4,
            ColorMode::Rgba => 5,
        }
    }

    /// The command-line codes that select a mode.
    pub open spec fn valid_cli_code(v: int) -> bool {
        v == 0 || v == 1 || v == 2 || v == 4 || v == 5
    }

    /// Parses a command-line color type value. Fails exactly when the string
    /// is not a decimal number in range or the number selects no mode.
    pub fn type_from_str(s: &str) -> (r: Result<ColorMode, ParseFlagError>)
        ensures
            r matches Ok(m) ==> is_numeral(unsigned_digits(s@)) && m.spec_cli_code()
                == numeral_value(unsigned_digits(s@)),
            r is Err <==> (u32_parse_fails(s@) || !Self::valid_cli_code(
                numeral_value(unsigned_digits(s@)),
            )),
    {
        match parse_u32(s) {
            None => Err(ParseFlagError),
            Some(n) => match n {
                0 => Ok(ColorMode::Bitwise),
                1 => Ok(ColorMode::Grayscale),
                2 => Ok(ColorMode::Rgb),
                4 => Ok(ColorMode::GrayscaleAlpha),
                5 => Ok(ColorMode::Rgba),
                _ => Err(ParseFlagError),
            },
        }
    }
}

/// The compression hint handed opaquely to the raster sink.
#[derive(Clone, Copy, PartialEq, Eq, Structural, Debug)]
pub enum CompressionLevel {
    Default,
    Fast,
    Best,
    /// Deprecated in the underlying encoder; still accepted.
    Huffman,
    /// Deprecated in the underlying encoder; still accepted.
    Rle,
}

impl CompressionLevel {
    /// The numeric code of this level, as the command line and the raster
    /// sink wrapper use it: 0 default, 1 fast, 2 best, 3 huffman, 4 rle.
    pub open spec fn spec_code(&self) -> u8 {
        match self {
            CompressionLevel::Default => 0,
            CompressionLevel::Fast => 1,
            CompressionLevel::Best => 2,
            CompressionLevel::Huffman => 3,
            CompressionLevel::Rle => 4,
        }
    }

    pub fn code(&self) -> (r: u8)
        ensures
            r == self.spec_code(),
    {
        match self {
            CompressionLevel::Default => 0,
            CompressionLevel::Fast => 1,
            CompressionLevel::Best => 2,
            CompressionLevel::Huffman => 3,
            CompressionLevel::Rle => 4,
        }
    }

    /// The command-line codes that select a compression level.
    pub open spec fn valid_cli_code(v: int) -> bool {
        0 <= v <= 4
    }

    /// Parses a command-line compression value. Fails exactly when the
    /// string is not a decimal number in range or the number selects no
    /// level.
    pub fn compression_from_str(s: &str) -> (r: Result<CompressionLevel, ParseFlagError>)
        ensures
            r matches Ok(l) ==> is_numeral(unsigned_digits(s@)) && l.spec_code()
                == numeral_value(unsigned_digits(s@)),
            r is Err <==> (u32_parse_fails(s@) || !Self::valid_cli_code(
                numeral_value(unsigned_digits(s@)),
            )),
    {
        match parse_u32(s) {
            None => Err(ParseFlagError),
            Some(n) => match n {
                0 => Ok(CompressionLevel::Default),
                1 => Ok(CompressionLevel::Fast),
                2 => Ok(CompressionLevel::Best),
                3 => Ok(CompressionLevel::Huffman),
                4 => Ok(CompressionLevel::Rle),
                _ => Err(ParseFlagError),
            },
        }
    }
}

} // verus!
