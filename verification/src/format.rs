use vstd::prelude::*;

use crate::error::Error;

verus! {

/// The color channels of an image, as the container's header declares them.
#[derive(Debug, Copy, Clone, PartialEq, Eq, Hash, Structural)]
pub enum ColorType {
    Grayscale,
    /// RGB
    Truecolor,
    Indexed,
    GrayscaleAlpha,
    /// RGBA
    TruecolorAlpha,
}

/// The raw header code of each color type.
pub open spec fn color_code(c: ColorType) -> int {
    match c {
        ColorType::Grayscale => 0,
        ColorType::Truecolor => 2,
        ColorType::Indexed => 3,
        ColorType::GrayscaleAlpha => 4,
        ColorType::TruecolorAlpha => 6,
    }
}

/// The color type that a raw header code denotes, or the error reported for
/// any other code.
pub open spec fn spec_color_type(v: int) -> Result<ColorType, Error> {
    if v == 0 {
        Ok(ColorType::Grayscale)
    } else if v == 2 {
        Ok(ColorType::Truecolor)
    } else if v == 3 {
        Ok(ColorType::Indexed)
    } else if v == 4 {
        Ok(ColorType::GrayscaleAlpha)
    } else if v == 6 {
        Ok(ColorType::TruecolorAlpha)
    } else {
        Err(Error::ColorType)
    }
}

/// The number of samples each pixel carries under a color type.
pub open spec fn samples_of(c: ColorType) -> int {
    match c {
        ColorType::Grayscale => 1,
        ColorType::Indexed => 1,
        ColorType::GrayscaleAlpha => 2,
        ColorType::Truecolor => 3,
        ColorType::TruecolorAlpha => 4,
    }
}

impl ColorType {
    /// Alias for `Truecolor`
    pub const RGB: ColorType = ColorType::Truecolor;

    /// Alias for `TruecolorAlpha`
    pub const RGBA: ColorType = ColorType::TruecolorAlpha;

    /// Alias for `Grayscale`
    pub const G: ColorType = ColorType::Grayscale;

    /// Alias for `GrayscaleAlpha`
    pub const GA: ColorType = ColorType::GrayscaleAlpha;

    /// The color type denoted by a raw header code.
    pub fn from_raw(value: u8) -> (r: Result<ColorType, Error>)
        ensures
            r == spec_color_type(value as int),
    {
        match value {
            0 => Ok(ColorType::Grayscale),
            2 => Ok(ColorType::Truecolor),
            3 => Ok(ColorType::Indexed),
            4 => Ok(ColorType::GrayscaleAlpha),
            6 => Ok(ColorType::TruecolorAlpha),
            _ => Err(Error::ColorType),
        }
    }

    /// The raw header code of this color type.
    pub fn code(self) -> (r: u8)
        ensures
            r as int == color_code(self),
    {
        match self {
            ColorType::Grayscale => 0,
            ColorType::Truecolor => 2,
            ColorType::Indexed => 3,
            ColorType::GrayscaleAlpha => 4,
            ColorType::TruecolorAlpha => 6,
        }
    }

    /// Returns the number of samples per pixel
    pub fn samples(self) -> (r: usize)
        ensures
            r as int == samples_of(self),
    {
        match self {
            ColorType::Grayscale | ColorType::Indexed => 1,
            ColorType::GrayscaleAlpha => 2,
            ColorType::Truecolor => 3,
            ColorType::TruecolorAlpha => 4,
        }
    }
}

/// The per-sample bit depth of an image.
#[derive(Debug, Copy, Clone, PartialEq, Eq, Hash, Structural)]
pub enum BitDepth {
    One,
    Two,
    Four,
    Eight,
    Sixteen,
}

/// The number of bits a bit depth denotes.
pub open spec fn depth_bits(d: BitDepth) -> int {
    match d {
        BitDepth::One => 1,
        BitDepth::Two => 2,
        BitDepth::Four => 4,
        BitDepth::Eight => 8,
        BitDepth::Sixteen => 16,
    }
}

/// The bit depth that a raw header value denotes, or the error reported for
/// any other value.
pub open spec fn spec_bit_depth(v: int) -> Result<BitDepth, Error> {
    if v == 1 {
        Ok(BitDepth::One)
    } else if v == 2 {
        Ok(BitDepth::Two)
    } else if v == 4 {
        Ok(BitDepth::Four)
    } else if v == 8 {
        Ok(BitDepth::Eight)
    } else if v == 16 {
        Ok(BitDepth::Sixteen)
    } else {
        Err(Error::BitDepth)
    }
}

impl BitDepth {
    /// The bit depth denoted by a raw header value.
    pub fn from_raw(value: u8) -> (r: Result<BitDepth, Error>)
        ensures
            r == spec_bit_depth(value as int),
    {
        match value {
            1 => Ok(BitDepth::One),
            2 => Ok(BitDepth::Two),
            4 => Ok(BitDepth::Four),
            8 => Ok(BitDepth::Eight),
            16 => Ok(BitDepth::Sixteen),
            _ => Err(Error::BitDepth),
        }
    }

    /// The number of bits per sample; the exec counterpart of [`depth_bits`].
    pub fn bits(self) -> (r: u8)
        ensures
            r as int == depth_bits(self),
    {
        match self {
            BitDepth::One => 1,
            BitDepth::Two => 2,
            BitDepth::Four => 4,
            BitDepth::Eight => 8,
            BitDepth::Sixteen => 16,
        }
    }
}

/// Whether a bit depth is one the container format allows for a color type.
pub open spec fn depth_valid_for(c: ColorType, d: int) -> bool {
    match c {
        ColorType::Grayscale => d == 1 || d == 2 || d == 4 || d == 8 || d == 16,
        ColorType::Truecolor => d == 8 || d == 16,
        ColorType::Indexed => d == 1 || d == 2 || d == 4 || d == 8,
        ColorType::GrayscaleAlpha => d == 8 || d == 16,
        ColorType::TruecolorAlpha => d == 8 || d == 16,
    }
}

/// The image header record, as parsed from the mandatory first chunk.
#[derive(Debug, Copy, Clone, PartialEq, Eq, Hash, Structural)]
pub struct Ihdr {
    pub width: u32,
    pub height: u32,
    pub bit_depth: u8,
    pub color_type: u8,
    pub compression_method: u8,
    pub filter_method: u8,
    pub interlace_method: u8,
}

/// Decoding limits
#[derive(Debug, Copy, Clone, PartialEq, Eq, Hash, Structural)]
pub struct Limits {
    /// Maximum image width
    pub max_width: u32,
    /// Maximum image height
    pub max_height: u32,
}

/// The default decoding limits: both dimensions bounded by `2^31 - 2`.
pub open spec fn default_limits() -> Limits {
    Limits { max_width: 0x7FFF_FFFE, max_height: 0x7FFF_FFFE }
}

impl Default for Limits {
    /// The default limits: both dimensions bounded by `2^31 - 2`.
    fn default() -> (r: Limits)
        ensures
            r.max_width == 0x7FFF_FFFE,
            r.max_height == 0x7FFF_FFFE,
    {
        Limits { max_width: 0x7FFF_FFFE, max_height: 0x7FFF_FFFE }
    }
}

/// What holds of every header record this decoder accepts: dimensions in
/// `[1, 2^31 - 1]`, a defined color type and bit depth combination, the
/// single defined compression and filter methods, and one of the two
/// defined interlace methods.
pub open spec fn ihdr_ok(h: Ihdr) -> bool {
    &&& 1 <= h.width <= 0x7FFF_FFFF
    &&& 1 <= h.height <= 0x7FFF_FFFF
    &&& spec_color_type(h.color_type as int) is Ok
    &&& depth_valid_for(spec_color_type(h.color_type as int)->Ok_0, h.bit_depth as int)
    &&& h.compression_method == 0
    &&& h.filter_method == 0
    &&& h.interlace_method <= 1
}

/// The structural validation applied to a parsed header record, and the exact
/// error each violation reports.
///
/// Dimensions must be nonzero, within the format ceiling of `2^31 - 1`, and
/// within the configured limits; the color type, bit depth, and their
/// combination must be ones the format defines; the compression and filter
/// methods must be the single defined value; the interlace method must be
/// one of the format's two defined values.
pub open spec fn validate_ihdr(h: Ihdr, l: Limits) -> Result<(), Error> {
    if h.width == 0 || h.width > 0x7FFF_FFFF {
        Err(Error::Width)
    } else if h.height == 0 || h.height > 0x7FFF_FFFF {
        Err(Error::Height)
    } else if h.width > l.max_width {
        Err(Error::UserWidth)
    } else if h.height > l.max_height {
        Err(Error::UserHeight)
    } else if !(spec_color_type(h.color_type as int) is Ok) {
        Err(Error::ColorType)
    } else if !depth_valid_for(spec_color_type(h.color_type as int)->Ok_0, h.bit_depth as int) {
        Err(Error::BitDepth)
    } else if h.compression_method != 0 {
        Err(Error::CompressionMethod)
    } else if h.filter_method != 0 {
        Err(Error::FilterMethod)
    } else if h.interlace_method > 1 {
        Err(Error::InterlaceMethod)
    } else {
        Ok(())
    }
}

/// The exec counterpart of [`validate_ihdr`].
pub fn check_ihdr(h: &Ihdr, l: Limits) -> (r: Result<(), Error>)
    ensures
        r == validate_ihdr(*h, l),
{
    if h.width == 0 || h.width > 0x7FFF_FFFF {
        Err(Error::Width)
    } else if h.height == 0 || h.height > 0x7FFF_FFFF {
        Err(Error::Height)
    } else if h.width > l.max_width {
        Err(Error::UserWidth)
    } else if h.height > l.max_height {
        Err(Error::UserHeight)
    } else {
        let ct = match ColorType::from_raw(h.color_type) {
            Ok(ct) => ct,
            Err(_) => {
                return Err(Error::ColorType);
            },
        };
        if !depth_ok(ct, h.bit_depth) {
            Err(Error::BitDepth)
        } else if h.compression_method != 0 {
            Err(Error::CompressionMethod)
        } else if h.filter_method != 0 {
            Err(Error::FilterMethod)
        } else if h.interlace_method > 1 {
            Err(Error::InterlaceMethod)
        } else {
            Ok(())
        }
    }
}

/// The exec counterpart of [`depth_valid_for`].
fn depth_ok(c: ColorType, d: u8) -> (r: bool)
    ensures
        r == depth_valid_for(c, d as int),
{
    match c {
        ColorType::Grayscale => d == 1 || d == 2 || d == 4 || d == 8 || d == 16,
        ColorType::Truecolor => d == 8 || d == 16,
        ColorType::Indexed => d == 1 || d == 2 || d == 4 || d == 8,
        ColorType::GrayscaleAlpha => d == 8 || d == 16,
        ColorType::TruecolorAlpha => d == 8 || d == 16,
    }
}

/// PNG image information
#[derive(Debug, Copy, Clone, PartialEq, Eq, Hash, Structural)]
pub struct Info {
    /// The image width in pixels
    pub width: u32,
    /// The image height in pixels
    pub height: u32,
    /// The color channels
    pub color_type: ColorType,
    /// The per-component bit depth
    pub bit_depth: BitDepth,
}

/// The typed image information derived from a header record, or the error
/// reported when the record's bit depth or color type code is undefined.
pub open spec fn spec_info(h: Ihdr) -> Result<Info, Error> {
    match spec_bit_depth(h.bit_depth as int) {
        Err(e) => Err(e),
        Ok(bit_depth) => match spec_color_type(h.color_type as int) {
            Err(e) => Err(e),
            Ok(color_type) => Ok(
                Info { width: h.width, height: h.height, color_type, bit_depth },
            ),
        },
    }
}

impl Info {
    /// The typed image information of a header record; the exec counterpart
    /// of [`spec_info`].
    pub fn from_ihdr(header: &Ihdr) -> (r: Result<Info, Error>)
        ensures
            r == spec_info(*header),
    {
        let bit_depth = match BitDepth::from_raw(header.bit_depth) {
            Ok(d) => d,
            Err(e) => {
                return Err(e);
            },
        };
        let color_type = match ColorType::from_raw(header.color_type) {
            Ok(c) => c,
            Err(e) => {
                return Err(e);
            },
        };
        Ok(Info { width: header.width, height: header.height, color_type, bit_depth })
    }
}

/// PNG output format
#[derive(Debug, Copy, Clone, PartialEq, Eq, Hash, Structural)]
pub enum Format {
    Rgba8,
    Rgba16,
    Rgb8,
    G8,
    Ga8,
    Ga16,
    /// The PNG's format in host-endian
    Png,
    /// The PNG's format in big-endian
    Raw,
}

/// The bit depth of the decoded output: pass-through formats inherit the
/// header's depth, fixed formats force their target depth.
pub open spec fn out_bit_depth(f: Format, h: Ihdr) -> Result<BitDepth, Error> {
    match f {
        Format::Png | Format::Raw => spec_bit_depth(h.bit_depth as int),
        Format::Rgb8 | Format::Rgba8 | Format::G8 | Format::Ga8 => Ok(BitDepth::Eight),
        Format::Rgba16 | Format::Ga16 => Ok(BitDepth::Sixteen),
    }
}

/// The color type of the decoded output: pass-through formats inherit the
/// header's color type, fixed formats force their target color type
/// regardless of the source.
pub open spec fn out_color_type(f: Format, h: Ihdr) -> Result<ColorType, Error> {
    match f {
        Format::Png | Format::Raw => spec_color_type(h.color_type as int),
        Format::Rgb8 => Ok(ColorType::Truecolor),
        Format::Rgba8 | Format::Rgba16 => Ok(ColorType::TruecolorAlpha),
        Format::G8 => Ok(ColorType::Grayscale),
        Format::Ga8 | Format::Ga16 => Ok(ColorType::GrayscaleAlpha),
    }
}

/// The exec counterpart of [`out_bit_depth`].
pub fn output_bit_depth(f: Format, h: &Ihdr) -> (r: Result<BitDepth, Error>)
    ensures
        r == out_bit_depth(f, *h),
{
    match f {
        Format::Png | Format::Raw => BitDepth::from_raw(h.bit_depth),
        Format::Rgb8 | Format::Rgba8 | Format::G8 | Format::Ga8 => Ok(BitDepth::Eight),
        Format::Rgba16 | Format::Ga16 => Ok(BitDepth::Sixteen),
    }
}

/// The exec counterpart of [`out_color_type`].
pub fn output_color_type(f: Format, h: &Ihdr) -> (r: Result<ColorType, Error>)
    ensures
        r == out_color_type(f, *h),
{
    match f {
        Format::Png | Format::Raw => ColorType::from_raw(h.color_type),
        Format::Rgb8 => Ok(ColorType::Truecolor),
        Format::Rgba8 | Format::Rgba16 => Ok(ColorType::TruecolorAlpha),
        Format::G8 => Ok(ColorType::Grayscale),
        Format::Ga8 | Format::Ga16 => Ok(ColorType::GrayscaleAlpha),
    }
}

/// Decoded output image information
#[derive(Debug, Copy, Clone, PartialEq, Eq, Hash, Structural)]
pub struct OutputInfo {
    /// The image width in pixels
    pub width: u32,
    /// The image height in pixels
    pub height: u32,
    /// The color channels
    pub color_type: ColorType,
    /// The per-component bit depth
    pub bit_depth: BitDepth,
    /// The minimum buffer size required for the decoded pixel output
    pub buffer_size: usize,
}

/// The negotiated output description for a header record, output format, and
/// already-computed buffer size.
pub open spec fn spec_output_info(h: Ihdr, f: Format, buffer_size: int) -> Result<
    OutputInfo,
    Error,
> {
    match out_bit_depth(f, h) {
        Err(e) => Err(e),
        Ok(bit_depth) => match out_color_type(f, h) {
            Err(e) => Err(e),
            Ok(color_type) => Ok(
                OutputInfo {
                    width: h.width,
                    height: h.height,
                    color_type,
                    bit_depth,
                    buffer_size: buffer_size as usize,
                },
            ),
        },
    }
}

impl OutputInfo {
    /// The width of each row or scanline
    pub fn line_size(&self) -> (r: usize)
        requires
            self.height > 0,
        ensures
            r == self.buffer_size as int / self.height as int,
    {
        self.buffer_size / (self.height as usize)
    }

    /// The minimum byte length the decode call requires for this output.
    pub fn buffer_size(&self) -> (r: usize)
        ensures
            r == self.buffer_size,
    {
        self.buffer_size
    }

    /// The negotiated output description; the exec counterpart of
    /// [`spec_output_info`].
    pub fn from_ihdr_format_buffer_size(
        ihdr: &Ihdr,
        output_format: Format,
        output_buffer_size: usize,
    ) -> (r: Result<OutputInfo, Error>)
        ensures
            r == spec_output_info(*ihdr, output_format, output_buffer_size as int),
    {
        let bit_depth = match output_bit_depth(output_format, ihdr) {
            Ok(d) => d,
            Err(e) => {
                return Err(e);
            },
        };
        let color_type = match output_color_type(output_format, ihdr) {
            Ok(c) => c,
            Err(e) => {
                return Err(e);
            },
        };
        Ok(
            OutputInfo {
                bit_depth,
                color_type,
                width: ihdr.width,
                height: ihdr.height,
                buffer_size: output_buffer_size,
            },
        )
    }
}

/// Whether this decoder can produce output format `f` from a source whose
/// header declares color type `c` at bit depth `d`.
///
/// The pass-through formats and the fixed color formats accept every valid
/// source, palette-indexed and sub-byte gray included; the fixed grayscale
/// formats accept only sources without color.
pub open spec fn supported_combo(f: Format, c: ColorType, d: int) -> bool {
    match f {
        Format::Png | Format::Raw => true,
        Format::Rgba8 | Format::Rgb8 | Format::Rgba16 => true,
        Format::G8 | Format::Ga8 | Format::Ga16 => c == ColorType::Grayscale || c
            == ColorType::GrayscaleAlpha,
    }
}

/// The exec counterpart of [`supported_combo`].
pub fn combo_supported(f: Format, c: ColorType, d: u8) -> (r: bool)
    ensures
        r == supported_combo(f, c, d as int),
{
    match f {
        Format::Png | Format::Raw => true,
        Format::Rgba8 | Format::Rgb8 | Format::Rgba16 => true,
        Format::G8 | Format::Ga8 | Format::Ga16 => matches!(c, ColorType::Grayscale) || matches!(
            c,
            ColorType::GrayscaleAlpha,
        ),
    }
}

/// The byte length of one decoded row of `w` pixels with `s` samples per
/// pixel at `d` bits per sample.
pub open spec fn row_bytes(w: int, s: int, d: int) -> int {
    (w * s * d + 7) / 8
}

/// The decoded image size in bytes for a header record and output format, or
/// the exact error owed: `Fmt` for an interlaced source below eight bits per
/// sample (whose packed passes this decoder does not merge) or for a
/// source/format combination this decoder does not produce, `Overflow` for a
/// size beyond the address space, and the header's own error for an
/// undefined color type or bit depth code.
pub open spec fn spec_decoded_size(h: Ihdr, f: Format) -> Result<int, Error> {
    match spec_color_type(h.color_type as int) {
        Err(e) => Err(e),
        Ok(c) => if (h.interlace_method != 0 && !(h.bit_depth == 8 || h.bit_depth == 16))
            || !supported_combo(f, c, h.bit_depth as int) {
            Err(Error::Fmt)
        } else {
            match out_bit_depth(f, h) {
                Err(e) => Err(e),
                Ok(od) => match out_color_type(f, h) {
                    Err(e) => Err(e),
                    Ok(oc) => {
                        let n = h.height * row_bytes(h.width as int, samples_of(oc), depth_bits(od));
                        if n > usize::MAX {
                            Err(Error::Overflow)
                        } else {
                            Ok(n)
                        }
                    },
                },
            }
        },
    }
}

/// The exec counterpart of [`spec_decoded_size`].
pub fn decoded_size_for(h: &Ihdr, f: Format) -> (r: Result<usize, Error>)
    ensures
        match r {
            Ok(n) => spec_decoded_size(*h, f) == Ok::<int, Error>(n as int),
            Err(e) => spec_decoded_size(*h, f) == Err::<int, Error>(e),
        },
{
    let c = match ColorType::from_raw(h.color_type) {
        Ok(c) => c,
        Err(e) => {
            return Err(e);
        },
    };
    if (h.interlace_method != 0 && !(h.bit_depth == 8 || h.bit_depth == 16)) || !combo_supported(
        f,
        c,
        h.bit_depth,
    ) {
        return Err(Error::Fmt);
    }
    let od = match output_bit_depth(f, h) {
        Ok(d) => d,
        Err(e) => {
            return Err(e);
        },
    };
    let oc = match output_color_type(f, h) {
        Ok(c) => c,
        Err(e) => {
            return Err(e);
        },
    };
    let w = h.width as u64;
    let s = oc.samples() as u64;
    let d = od.bits() as u64;
    assert(w * s <= 0xFFFF_FFFFu64 * 4 && w * s * d + 7 <= 0xFFFF_FFFFu64 * 4 * 16 + 7)
        by (nonlinear_arith)
        requires
            w <= 0xFFFF_FFFFu64,
            1 <= s <= 4,
            1 <= d <= 16,
    ;
    let rb: u64 = (w * s * d + 7) / 8;
    let hh: u128 = h.height as u128;
    let rbw: u128 = rb as u128;
    assert(hh * rbw <= 0xFFFF_FFFFu128 * 0xFFFF_FFFF_FFFF_FFFFu128) by (nonlinear_arith)
        requires
            hh <= 0xFFFF_FFFFu128,
            rbw <= 0xFFFF_FFFF_FFFF_FFFFu128,
    ;
    let total: u128 = hh * rbw;
    if total > usize::MAX as u128 {
        Err(Error::Overflow)
    } else {
        Ok(total as usize)
    }
}

/// At the whole-byte depths a row's byte length is exact: one byte per
/// sample at depth 8, two at depth 16.
pub proof fn lemma_row_bytes_exact(w: int, s: int)
    requires
        0 <= w,
        0 <= s,
    ensures
        row_bytes(w, s, 8) == w * s,
        row_bytes(w, s, 16) == 2 * (w * s),
{
    let x = w * s;
    assert(w * s * 8 == x * 8 && w * s * 16 == (2 * x) * 8) by (nonlinear_arith)
        requires
            x == w * s,
    ;
    vstd::arithmetic::div_mod::lemma_fundamental_div_mod_converse(x * 8 + 7, 8, x, 7);
    vstd::arithmetic::div_mod::lemma_fundamental_div_mod_converse((2 * x) * 8 + 7, 8, 2 * x, 7);
}

/// Requesting the fixed truecolor-with-alpha output formats forces the
/// negotiated color type to `TruecolorAlpha`, with four samples per pixel,
/// whatever color type the source header declares.
pub proof fn lemma_rgba_output_forces_truecolor_alpha(h: Ihdr)
    ensures
        out_color_type(Format::Rgba8, h) == Ok::<ColorType, Error>(ColorType::TruecolorAlpha),
        out_color_type(Format::Rgba16, h) == Ok::<ColorType, Error>(ColorType::TruecolorAlpha),
        samples_of(ColorType::TruecolorAlpha) == 4,
{
}

} // verus!
