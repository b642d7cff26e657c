use spng::raw::ChunkAvail;
use spng::{
    BitDepth, ColorType, ContextFlags, DecodeFlags, Error, FillStatus, Ihdr, Info, Limits,
    MemSource, OutputInfo,
};

#[test]
fn samples_per_pixel() {
    assert_eq!(1, ColorType::Grayscale.samples());
    assert_eq!(1, ColorType::Indexed.samples());
    assert_eq!(2, ColorType::GrayscaleAlpha.samples());
    assert_eq!(3, ColorType::Truecolor.samples());
    assert_eq!(4, ColorType::TruecolorAlpha.samples());
}

#[test]
fn color_type_aliases() {
    assert_eq!(ColorType::Truecolor, ColorType::RGB);
    assert_eq!(ColorType::TruecolorAlpha, ColorType::RGBA);
    assert_eq!(ColorType::Grayscale, ColorType::G);
    assert_eq!(ColorType::GrayscaleAlpha, ColorType::GA);
}

#[test]
fn color_type_codes_round_trip() {
    for ct in [
        ColorType::Grayscale,
        ColorType::Truecolor,
        ColorType::Indexed,
        ColorType::GrayscaleAlpha,
        ColorType::TruecolorAlpha,
    ] {
        assert_eq!(Ok(ct), ColorType::from_raw(ct.code()));
    }
    assert_eq!(Err(Error::ColorType), ColorType::from_raw(1));
    assert_eq!(Err(Error::ColorType), ColorType::from_raw(7));
}

#[test]
fn bit_depth_codes_round_trip() {
    for d in [BitDepth::One, BitDepth::Two, BitDepth::Four, BitDepth::Eight, BitDepth::Sixteen] {
        assert_eq!(Ok(d), BitDepth::from_raw(d.bits()));
    }
    assert_eq!(Err(Error::BitDepth), BitDepth::from_raw(0));
    assert_eq!(Err(Error::BitDepth), BitDepth::from_raw(32));
}

#[test]
fn default_limits_are_near_the_ceiling() {
    let l = Limits::default();
    assert_eq!(0x7FFF_FFFE, l.max_width);
    assert_eq!(0x7FFF_FFFE, l.max_height);
}

#[test]
fn info_from_header_record() {
    let h = Ihdr {
        width: 17,
        height: 23,
        bit_depth: 8,
        color_type: 6,
        compression_method: 0,
        filter_method: 0,
        interlace_method: 0,
    };
    let info = Info::from_ihdr(&h).expect("valid header");
    assert_eq!(17, info.width);
    assert_eq!(23, info.height);
    assert_eq!(BitDepth::Eight, info.bit_depth);
    assert_eq!(ColorType::TruecolorAlpha, info.color_type);
    let bad = Ihdr { bit_depth: 3, ..h };
    assert_eq!(Err(Error::BitDepth), Info::from_ihdr(&bad).map(|_| ()));
}

#[test]
fn output_info_line_size() {
    let oi = OutputInfo {
        width: 4,
        height: 5,
        color_type: ColorType::TruecolorAlpha,
        bit_depth: BitDepth::Eight,
        buffer_size: 80,
    };
    assert_eq!(16, oi.line_size());
    assert_eq!(80, oi.buffer_size());
}

#[test]
fn check_err_maps_codes() {
    assert_eq!(Ok(()), spng::error::check_err(0));
    assert_eq!(Err(Error::IoError), spng::error::check_err(-2));
    assert_eq!(Err(Error::IoEof), spng::error::check_err(-1));
    assert_eq!(Err(Error::Signature), spng::error::check_err(4));
    assert_eq!(Err(Error::Bufsiz), spng::error::check_err(66));
    assert_eq!(Err(Error::NotFinal), spng::error::check_err(85));
    // Codes unknown to the taxonomy degrade to the generic kind.
    assert_eq!(Err(Error::Inval), spng::error::check_err(9999));
    assert_eq!(Err(Error::Inval), spng::error::check_err(-77));
}

#[test]
fn error_codes_round_trip() {
    for e in [
        Error::IoError,
        Error::IoEof,
        Error::Inval,
        Error::Signature,
        Error::ChunkCrc,
        Error::IdatTooShort,
        Error::Badstate,
        Error::NotFinal,
    ] {
        assert_eq!(Err(e), spng::error::check_err(e.code()));
        assert!(!e.describe().is_empty());
    }
}

#[test]
fn decode_flags_bitset() {
    assert_eq!(0, DecodeFlags::empty().bits());
    assert_eq!(1, DecodeFlags::transparency().bits());
    assert_eq!(2, DecodeFlags::gamma().bits());
    assert_eq!(8, DecodeFlags::use_sbit().bits());
    assert_eq!(256, DecodeFlags::progressive().bits());
    let both = DecodeFlags::transparency().union(DecodeFlags::gamma());
    assert_eq!(3, both.bits());
    assert!(both.contains(DecodeFlags::transparency()));
    assert!(!both.contains(DecodeFlags::progressive()));
    assert_eq!(Some(both), DecodeFlags::from_bits(3));
    assert_eq!(None, DecodeFlags::from_bits(4));
}

#[test]
fn context_flags_bitset() {
    assert_eq!(0, ContextFlags::empty().bits());
    assert_eq!(1, ContextFlags::ignore_adler32().bits());
    assert_eq!(Some(ContextFlags::ignore_adler32()), ContextFlags::from_bits(1));
    assert_eq!(None, ContextFlags::from_bits(2));
}

#[test]
fn chunk_avail_converts_availability() {
    let ok: Result<u32, Error> = Ok(5);
    assert_eq!(Ok(Some(5)), ok.chunk_avail());
    let missing: Result<u32, Error> = Err(Error::Chunkavail);
    assert_eq!(Ok(None), missing.chunk_avail());
    let other: Result<u32, Error> = Err(Error::ChunkCrc);
    assert_eq!(Err(Error::ChunkCrc), other.chunk_avail());
}

#[test]
fn fill_exact_retries_and_reports_end() {
    let mut src = MemSource::new(vec![1, 2, 3, 4, 5]);
    let mut buf = vec![0u8; 3];
    assert_eq!(FillStatus::Filled, spng::source::fill_exact(&mut src, &mut buf));
    assert_eq!(vec![1, 2, 3], buf);
    let mut rest = vec![0u8; 4];
    assert_eq!(FillStatus::Eof, spng::source::fill_exact(&mut src, &mut rest));
    assert_eq!(vec![4, 5, 0, 0], rest);
}
