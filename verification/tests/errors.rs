use spng::{CrcAction, Decoder, Error, Format, Limits, MemSource, RawContext};

fn chunk(ty: &[u8; 4], payload: &[u8]) -> Vec<u8> {
    let mut c = Vec::new();
    c.extend_from_slice(&(payload.len() as u32).to_be_bytes());
    c.extend_from_slice(ty);
    c.extend_from_slice(payload);
    let mut crc_input = Vec::new();
    crc_input.extend_from_slice(ty);
    crc_input.extend_from_slice(payload);
    c.extend_from_slice(&crc32fast::hash(&crc_input).to_be_bytes());
    c
}

fn ihdr_payload(w: u32, h: u32, bit_depth: u8, color_type: u8) -> Vec<u8> {
    let mut p = Vec::new();
    p.extend_from_slice(&w.to_be_bytes());
    p.extend_from_slice(&h.to_be_bytes());
    p.push(bit_depth);
    p.push(color_type);
    p.push(0);
    p.push(0);
    p.push(0);
    p
}

const SIGNATURE: [u8; 8] = [137, 80, 78, 71, 13, 10, 26, 10];

fn sig_and_ihdr(w: u32, h: u32, bit_depth: u8, color_type: u8) -> Vec<u8> {
    let mut png = Vec::new();
    png.extend_from_slice(&SIGNATURE);
    png.extend_from_slice(&chunk(b"IHDR", &ihdr_payload(w, h, bit_depth, color_type)));
    png
}

fn gray_png_with_idat(raw: &[u8]) -> Vec<u8> {
    // One row of grayscale bytes, filter type 0.
    let mut data = vec![0u8];
    data.extend_from_slice(raw);
    let idat = miniz_oxide::deflate::compress_to_vec_zlib(&data, 6);
    let mut png = sig_and_ihdr(raw.len() as u32, 1, 8, 0);
    png.extend_from_slice(&chunk(b"IDAT", &idat));
    png.extend_from_slice(&chunk(b"IEND", &[]));
    png
}

fn header_error(png: Vec<u8>) -> Error {
    Decoder::new(MemSource::new(png)).read_info().err().expect("header error expected")
}

fn decode_error(png: Vec<u8>, format: Format) -> Error {
    spng::decode(MemSource::new(png), format).err().expect("decode error expected")
}

#[test]
fn bad_signature_is_signature_error() {
    let mut png = gray_png_with_idat(&[1, 2, 3]);
    png[0] = 0;
    assert_eq!(Error::Signature, header_error(png));
}

#[test]
fn truncated_signature_is_eof_error() {
    assert_eq!(Error::IoEof, header_error(SIGNATURE[..5].to_vec()));
}

#[test]
fn truncated_inside_chunk_is_eof_error() {
    let mut png = gray_png_with_idat(&[1, 2, 3]);
    png.truncate(png.len() - 9);
    assert_eq!(Error::IoEof, decode_error(png, Format::Png));
}

#[test]
fn truncated_inside_header_chunk_is_eof_error() {
    let mut png = sig_and_ihdr(1, 1, 8, 0);
    png.truncate(20);
    assert_eq!(Error::IoEof, header_error(png));
}

#[test]
fn first_chunk_not_header_is_noihdr_error() {
    let mut png = Vec::new();
    png.extend_from_slice(&SIGNATURE);
    png.extend_from_slice(&chunk(b"tIME", &[7, 230, 1, 1, 0, 0, 0]));
    assert_eq!(Error::Noihdr, header_error(png));
}

#[test]
fn wrong_header_chunk_length_is_ihdr_size_error() {
    let mut payload = ihdr_payload(1, 1, 8, 0);
    payload.push(0);
    let mut png = Vec::new();
    png.extend_from_slice(&SIGNATURE);
    png.extend_from_slice(&chunk(b"IHDR", &payload));
    assert_eq!(Error::IhdrSize, header_error(png));
}

#[test]
fn corrupt_header_checksum_is_crc_error() {
    let mut png = sig_and_ihdr(1, 1, 8, 0);
    let last = png.len() - 1;
    png[last] ^= 0xFF;
    assert_eq!(Error::ChunkCrc, header_error(png));
}

#[test]
fn crc_action_use_skips_checksum() {
    let mut png = sig_and_ihdr(1, 1, 8, 0);
    let last = png.len() - 1;
    png[last] ^= 0xFF;
    let mut ctx: RawContext<MemSource> = RawContext::new().expect("context");
    ctx.set_crc_action(CrcAction::Use, CrcAction::Use).expect("action");
    ctx.set_png_stream(MemSource::new(png)).expect("stream");
    let ihdr = ctx.get_ihdr().expect("header accepted without checksum");
    assert_eq!(1, ihdr.width);
}

#[test]
fn discard_on_critical_chunks_is_invalid() {
    let mut ctx: RawContext<MemSource> = RawContext::new().expect("context");
    assert_eq!(Err(Error::Inval), ctx.set_crc_action(CrcAction::Discard, CrcAction::Error));
}

#[test]
fn zero_width_is_width_error() {
    assert_eq!(Error::Width, header_error(sig_and_ihdr(0, 1, 8, 0)));
}

#[test]
fn zero_height_is_height_error() {
    assert_eq!(Error::Height, header_error(sig_and_ihdr(1, 0, 8, 0)));
}

#[test]
fn width_above_limit_is_user_width_error() {
    let decoder = Decoder::new(MemSource::new(gray_png_with_idat(&[1, 2, 3])))
        .with_limits(Limits { max_width: 2, max_height: 10 });
    assert_eq!(Error::UserWidth, decoder.read_info().err().expect("limit error"));
}

#[test]
fn height_above_limit_is_user_height_error() {
    let png = {
        let mut data = vec![0u8, 1, 0, 2];
        data = miniz_oxide::deflate::compress_to_vec_zlib(&data, 6);
        let mut png = sig_and_ihdr(1, 2, 8, 0);
        png.extend_from_slice(&chunk(b"IDAT", &data));
        png.extend_from_slice(&chunk(b"IEND", &[]));
        png
    };
    let decoder = Decoder::new(MemSource::new(png))
        .with_limits(Limits { max_width: 10, max_height: 1 });
    assert_eq!(Error::UserHeight, decoder.read_info().err().expect("limit error"));
}

#[test]
fn undefined_bit_depth_is_bit_depth_error() {
    assert_eq!(Error::BitDepth, header_error(sig_and_ihdr(1, 1, 3, 0)));
}

#[test]
fn invalid_depth_for_color_type_is_bit_depth_error() {
    // Truecolor does not allow depth 4.
    assert_eq!(Error::BitDepth, header_error(sig_and_ihdr(1, 1, 4, 2)));
}

#[test]
fn undefined_color_type_is_color_type_error() {
    assert_eq!(Error::ColorType, header_error(sig_and_ihdr(1, 1, 8, 5)));
}

#[test]
fn nonzero_compression_method_is_rejected() {
    let mut payload = ihdr_payload(1, 1, 8, 0);
    payload[10] = 1;
    let mut png = Vec::new();
    png.extend_from_slice(&SIGNATURE);
    png.extend_from_slice(&chunk(b"IHDR", &payload));
    assert_eq!(Error::CompressionMethod, header_error(png));
}

#[test]
fn nonzero_filter_method_is_rejected() {
    let mut payload = ihdr_payload(1, 1, 8, 0);
    payload[11] = 1;
    let mut png = Vec::new();
    png.extend_from_slice(&SIGNATURE);
    png.extend_from_slice(&chunk(b"IHDR", &payload));
    assert_eq!(Error::FilterMethod, header_error(png));
}

#[test]
fn sub_byte_interlaced_is_unsupported_format() {
    // The header itself is valid and parses; the negotiation refuses the
    // format, since this decoder does not merge sub-byte interlace passes.
    let mut payload = ihdr_payload(4, 4, 1, 0);
    payload[12] = 1;
    let mut png = Vec::new();
    png.extend_from_slice(&SIGNATURE);
    png.extend_from_slice(&chunk(b"IHDR", &payload));
    let mut ctx: RawContext<MemSource> = RawContext::new().expect("context");
    ctx.set_png_stream(MemSource::new(png.clone())).expect("stream");
    let ihdr = ctx.get_ihdr().expect("interlaced header parses");
    assert_eq!(1, ihdr.interlace_method);
    assert_eq!(Err(Error::Fmt), ctx.decoded_image_size(Format::Png).map(|_| ()));
    assert_eq!(Error::Fmt, header_error(png));
}

#[test]
fn undefined_interlace_method_is_rejected() {
    let mut payload = ihdr_payload(1, 1, 8, 0);
    payload[12] = 2;
    let mut png = Vec::new();
    png.extend_from_slice(&SIGNATURE);
    png.extend_from_slice(&chunk(b"IHDR", &payload));
    assert_eq!(Error::InterlaceMethod, header_error(png));
}

#[test]
fn invalid_chunk_type_byte_is_chunk_type_error() {
    let mut png = sig_and_ihdr(3, 1, 8, 0);
    // A chunk whose type holds a non-letter byte.
    let mut c = chunk(b"tEXt", b"k\0v");
    c[5] = b'0';
    png.extend_from_slice(&c);
    assert_eq!(Error::ChunkType, decode_error(png, Format::Png));
}

#[test]
fn corrupt_data_checksum_is_crc_error() {
    let mut png = gray_png_with_idat(&[1, 2, 3]);
    let last = png.len() - 13;
    png[last] ^= 0xFF;
    assert_eq!(Error::ChunkCrc, decode_error(png, Format::Png));
}

#[test]
fn second_header_chunk_is_position_error() {
    let mut png = sig_and_ihdr(3, 1, 8, 0);
    png.extend_from_slice(&chunk(b"IHDR", &ihdr_payload(3, 1, 8, 0)));
    assert_eq!(Error::ChunkPos, decode_error(png, Format::Png));
}

#[test]
fn unknown_critical_chunk_is_rejected() {
    let mut png = sig_and_ihdr(3, 1, 8, 0);
    png.extend_from_slice(&chunk(b"ABCD", &[1, 2, 3]));
    assert_eq!(Error::ChunkUnknownCritical, decode_error(png, Format::Png));
}

#[test]
fn nonempty_trailer_chunk_is_chunk_size_error() {
    let mut png = sig_and_ihdr(3, 1, 8, 0);
    png.extend_from_slice(&chunk(b"IEND", &[1]));
    assert_eq!(Error::ChunkSize, decode_error(png, Format::Png));
}

#[test]
fn oversized_chunk_length_is_stdlen_error() {
    let mut png = sig_and_ihdr(3, 1, 8, 0);
    png.extend_from_slice(&0x8000_0000u32.to_be_bytes());
    png.extend_from_slice(b"tEXt");
    assert_eq!(Error::ChunkStdlen, decode_error(png, Format::Png));
}

#[test]
fn chunk_above_configured_limit_is_chunk_limits_error() {
    let png = gray_png_with_idat(&[1, 2, 3]);
    let mut ctx: RawContext<MemSource> = RawContext::new().expect("context");
    ctx.set_chunk_limits(4, usize::MAX).expect("limits");
    assert_eq!((4, usize::MAX), ctx.get_chunk_limits().expect("get"));
    ctx.set_png_stream(MemSource::new(png)).expect("stream");
    ctx.get_ihdr().expect("header");
    let mut out = vec![0u8; 16];
    // The compressed image data chunk exceeds the four-byte limit.
    assert_eq!(
        Err(Error::ChunkLimits),
        ctx.decode_image(&mut out, Format::Png, spng::DecodeFlags::empty())
    );
}

#[test]
fn missing_image_data_is_too_short_error() {
    let mut png = sig_and_ihdr(3, 1, 8, 0);
    let idat = miniz_oxide::deflate::compress_to_vec_zlib(&[], 6);
    png.extend_from_slice(&chunk(b"IDAT", &idat));
    png.extend_from_slice(&chunk(b"IEND", &[]));
    assert_eq!(Error::IdatTooShort, decode_error(png, Format::Png));
}

#[test]
fn excess_image_data_is_stream_error() {
    let mut png = sig_and_ihdr(3, 1, 8, 0);
    let idat = miniz_oxide::deflate::compress_to_vec_zlib(&[0, 1, 2, 3, 4], 6);
    png.extend_from_slice(&chunk(b"IDAT", &idat));
    png.extend_from_slice(&chunk(b"IEND", &[]));
    assert_eq!(Error::IdatStream, decode_error(png, Format::Png));
}

#[test]
fn garbage_image_data_is_stream_error() {
    let mut png = sig_and_ihdr(3, 1, 8, 0);
    png.extend_from_slice(&chunk(b"IDAT", &[0xDE, 0xAD, 0xBE, 0xEF]));
    png.extend_from_slice(&chunk(b"IEND", &[]));
    assert_eq!(Error::IdatStream, decode_error(png, Format::Png));
}

#[test]
fn undefined_scanline_filter_is_filter_error() {
    let mut png = sig_and_ihdr(3, 1, 8, 0);
    let idat = miniz_oxide::deflate::compress_to_vec_zlib(&[5, 1, 2, 3], 6);
    png.extend_from_slice(&chunk(b"IDAT", &idat));
    png.extend_from_slice(&chunk(b"IEND", &[]));
    assert_eq!(Error::Filter, decode_error(png, Format::Png));
}

#[test]
fn unsupported_conversion_is_format_error() {
    // A truecolor source cannot feed the fixed grayscale output format.
    let png = {
        let data = miniz_oxide::deflate::compress_to_vec_zlib(&[0, 1, 2, 3], 6);
        let mut png = sig_and_ihdr(1, 1, 8, 2);
        png.extend_from_slice(&chunk(b"IDAT", &data));
        png.extend_from_slice(&chunk(b"IEND", &[]));
        png
    };
    assert_eq!(Error::Fmt, decode_error(png, Format::G8));
}

#[test]
fn indexed_without_palette_is_noplte_error() {
    let idat = miniz_oxide::deflate::compress_to_vec_zlib(&[0, 0], 6);
    let mut png = sig_and_ihdr(1, 1, 8, 3);
    png.extend_from_slice(&chunk(b"IDAT", &idat));
    png.extend_from_slice(&chunk(b"IEND", &[]));
    assert_eq!(Error::Noplte, decode_error(png, Format::Rgba8));
}

#[test]
fn index_outside_palette_is_plte_idx_error() {
    // A two-entry palette, but a pixel naming entry 5.
    let idat = miniz_oxide::deflate::compress_to_vec_zlib(&[0, 5], 6);
    let mut png = sig_and_ihdr(1, 1, 8, 3);
    png.extend_from_slice(&chunk(b"PLTE", &[1, 2, 3, 4, 5, 6]));
    png.extend_from_slice(&chunk(b"IDAT", &idat));
    png.extend_from_slice(&chunk(b"IEND", &[]));
    assert_eq!(Error::PlteIdx, decode_error(png, Format::Rgba8));
}

#[test]
fn duplicate_palette_is_dup_plte_error() {
    let idat = miniz_oxide::deflate::compress_to_vec_zlib(&[0, 0], 6);
    let mut png = sig_and_ihdr(1, 1, 8, 3);
    png.extend_from_slice(&chunk(b"PLTE", &[1, 2, 3]));
    png.extend_from_slice(&chunk(b"PLTE", &[4, 5, 6]));
    png.extend_from_slice(&chunk(b"IDAT", &idat));
    png.extend_from_slice(&chunk(b"IEND", &[]));
    assert_eq!(Error::DupPlte, decode_error(png, Format::Rgba8));
}

#[test]
fn palette_after_image_data_is_position_error() {
    let idat = miniz_oxide::deflate::compress_to_vec_zlib(&[0, 0], 6);
    let mut png = sig_and_ihdr(1, 1, 8, 3);
    png.extend_from_slice(&chunk(b"IDAT", &idat));
    png.extend_from_slice(&chunk(b"PLTE", &[1, 2, 3]));
    png.extend_from_slice(&chunk(b"IEND", &[]));
    assert_eq!(Error::ChunkPos, decode_error(png, Format::Rgba8));
}

#[test]
fn ragged_palette_length_is_chunk_size_error() {
    let mut png = sig_and_ihdr(1, 1, 8, 3);
    png.extend_from_slice(&chunk(b"PLTE", &[1, 2, 3, 4]));
    assert_eq!(Error::ChunkSize, decode_error(png, Format::Rgba8));
}

#[test]
fn transparency_flag_is_refused() {
    // This decoder applies no transparency correction; rather than silently
    // skipping it, the flag is refused.
    let png = gray_png_with_idat(&[1, 2, 3]);
    let decoder = Decoder::new(MemSource::new(png))
        .with_decode_flags(spng::DecodeFlags::transparency());
    let mut rd = decoder.read_info().expect("read_info");
    let mut out = vec![0u8; rd.output_buffer_size()];
    assert_eq!(Err(Error::Flags), rd.next_frame(&mut out).map(|_| ()));
}

#[test]
fn progressive_flag_is_refused() {
    let png = gray_png_with_idat(&[1, 2, 3]);
    let decoder = Decoder::new(MemSource::new(png))
        .with_decode_flags(spng::DecodeFlags::progressive());
    let mut rd = decoder.read_info().expect("read_info");
    let mut out = vec![0u8; rd.output_buffer_size()];
    assert_eq!(Err(Error::Flags), rd.next_frame(&mut out).map(|_| ()));
}

#[test]
fn oversized_output_is_overflow_error() {
    // The largest allowed dimensions at RGBA16 need more bytes than the
    // address space holds.
    let png = sig_and_ihdr(0x7FFF_FFFF, 0x7FFF_FFFF, 8, 6);
    let decoder = Decoder::new(MemSource::new(png))
        .with_limits(Limits { max_width: 0x7FFF_FFFF, max_height: 0x7FFF_FFFF })
        .with_output_format(Format::Rgba16);
    assert_eq!(Error::Overflow, decoder.read_info().err().expect("overflow"));
}

#[test]
fn limits_above_ceiling_are_invalid() {
    let png = gray_png_with_idat(&[1]);
    let decoder = Decoder::new(MemSource::new(png))
        .with_limits(Limits { max_width: 0x8000_0000, max_height: 1 });
    assert_eq!(Error::Inval, decoder.read_info().err().expect("invalid limits"));
}

#[test]
fn binding_a_source_twice_is_refused() {
    let mut ctx: RawContext<MemSource> = RawContext::new().expect("context");
    ctx.set_png_stream(MemSource::new(vec![1, 2, 3])).expect("first bind");
    let r = ctx.set_png_stream(MemSource::new(vec![4, 5, 6]));
    assert_eq!(Err(Error::BufSet), r);
}

#[test]
fn operations_without_a_source_are_refused() {
    let mut ctx: RawContext<MemSource> = RawContext::new().expect("context");
    assert_eq!(Err(Error::NoSrc), ctx.get_ihdr());
    assert_eq!(Err(Error::NoSrc), ctx.decoded_image_size(Format::Png).map(|_| ()));
    let mut out = vec![0u8; 16];
    assert_eq!(
        Err(Error::NoSrc),
        ctx.decode_image(&mut out, Format::Png, spng::DecodeFlags::empty())
    );
}

#[test]
fn decode_before_header_is_refused() {
    let mut ctx: RawContext<MemSource> = RawContext::new().expect("context");
    ctx.set_png_stream(MemSource::new(gray_png_with_idat(&[1]))).expect("bind");
    let mut out = vec![0u8; 16];
    assert_eq!(
        Err(Error::Noihdr),
        ctx.decode_image(&mut out, Format::Png, spng::DecodeFlags::empty())
    );
}

#[test]
fn failed_parse_poisons_the_context() {
    let mut ctx: RawContext<MemSource> = RawContext::new().expect("context");
    ctx.set_png_stream(MemSource::new(vec![1, 2, 3])).expect("bind");
    assert_eq!(Err(Error::IoEof), ctx.get_ihdr());
    assert_eq!(Err(Error::Badstate), ctx.get_ihdr());
    assert_eq!(Err(Error::Badstate), ctx.decoded_image_size(Format::Png).map(|_| ()));
}

#[test]
fn set_png_buffer_binds_once() {
    let mut ctx: RawContext<MemSource> = RawContext::new().expect("context");
    ctx.set_png_buffer(gray_png_with_idat(&[42])).expect("bind");
    assert_eq!(Err(Error::BufSet), ctx.set_png_buffer(vec![]));
    let ihdr = ctx.get_ihdr().expect("header");
    assert_eq!(1, ihdr.width);
}

#[test]
fn image_limits_round_trip() {
    let mut ctx: RawContext<MemSource> = RawContext::new().expect("context");
    assert_eq!((0x7FFF_FFFE, 0x7FFF_FFFE), ctx.get_image_limits().expect("defaults"));
    ctx.set_image_limits(100, 200).expect("set");
    assert_eq!((100, 200), ctx.get_image_limits().expect("get"));
    assert_eq!(Err(Error::Inval), ctx.set_image_limits(0x8000_0000, 1));
}
