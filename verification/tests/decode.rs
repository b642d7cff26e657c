use spng::{
    BitDepth, ByteSource, ColorType, Decoder, Error, Format, MemSource, RawContext, ReadOutcome,
};

fn chunk(ty: &[u8; 4], payload: &[u8]) -> Vec<u8> {
    let mut c = Vec::new();
    c.extend_from_slice(&(payload.len() as u32).to_be_bytes());
    c.extend_from_slice(ty);
    c.extend_from_slice(payload);
    let mut crc_input = Vec::new();
    crc_input.extend_from_slice(ty);
    crc_input.extend_from_slice(payload);
    c.extend_from_slice(&crc32fast::hash(&crc_input).to_be_bytes());
    c
}

fn ihdr_payload(w: u32, h: u32, bit_depth: u8, color_type: u8) -> Vec<u8> {
    let mut p = Vec::new();
    p.extend_from_slice(&w.to_be_bytes());
    p.extend_from_slice(&h.to_be_bytes());
    p.push(bit_depth);
    p.push(color_type);
    p.push(0);
    p.push(0);
    p.push(0);
    p
}

const SIGNATURE: [u8; 8] = [137, 80, 78, 71, 13, 10, 26, 10];

/// Builds a non-interlaced PNG whose scanlines are `rows` (without filter
/// bytes); every row gets filter type 0.
fn make_png(w: u32, h: u32, bit_depth: u8, color_type: u8, rows: &[Vec<u8>]) -> Vec<u8> {
    let mut raw = Vec::new();
    for row in rows {
        raw.push(0u8);
        raw.extend_from_slice(row);
    }
    let idat = miniz_oxide::deflate::compress_to_vec_zlib(&raw, 6);
    let mut png = Vec::new();
    png.extend_from_slice(&SIGNATURE);
    png.extend_from_slice(&chunk(b"IHDR", &ihdr_payload(w, h, bit_depth, color_type)));
    png.extend_from_slice(&chunk(b"IDAT", &idat));
    png.extend_from_slice(&chunk(b"IEND", &[]));
    png
}

/// An RGBA8 test image with a simple deterministic pattern.
fn rgba_png(w: u32, h: u32) -> Vec<u8> {
    let mut rows = Vec::new();
    for y in 0..h {
        let mut row = Vec::new();
        for x in 0..w {
            row.push(((x + y) % 256) as u8);
            row.push((x % 256) as u8);
            row.push((y % 256) as u8);
            row.push(255u8);
        }
        rows.push(row);
    }
    make_png(w, h, 8, 6, &rows)
}

/// A source that hands out at most seven bytes per read, exercising the
/// retry loop the same way a buffered reader's short reads would.
struct ChunkySource {
    data: Vec<u8>,
    pos: usize,
}

impl ByteSource for ChunkySource {
    // The two ghost members exist only for verification and are never
    // called at runtime.
    fn remaining(&self) -> vstd::seq::Seq<u8> {
        unreachable!()
    }

    fn never_fails(&self) -> bool {
        unreachable!()
    }

    fn read_into(&mut self, dest: &mut Vec<u8>, offset: usize) -> ReadOutcome {
        if self.pos >= self.data.len() {
            return ReadOutcome::End;
        }
        let space = dest.len() - offset;
        let avail = self.data.len() - self.pos;
        let n = space.min(avail).min(7);
        for i in 0..n {
            dest[offset + i] = self.data[self.pos + i];
        }
        self.pos += n;
        ReadOutcome::Data(n)
    }
}

fn check_decoder<R: ByteSource>(
    decoder: Decoder<R>,
    width: u32,
    height: u32,
    bit_depth: BitDepth,
    color_type: ColorType,
) {
    let mut reader = decoder.read_info().expect("read_info failed");
    let info = reader.info();
    let output_buffer_size = reader.output_buffer_size();
    assert_eq!(width, info.width);
    assert_eq!(height, info.height);
    assert_eq!(bit_depth, info.bit_depth);
    assert_eq!(color_type, info.color_type);
    let mut out = vec![0; output_buffer_size];
    let out_info = reader.next_frame(&mut out).expect("next_frame failed");
    assert_eq!(output_buffer_size, out_info.buffer_size());
    assert_eq!(info.width, out_info.width);
    assert_eq!(info.height, out_info.height);
    assert_eq!(info.bit_depth, out_info.bit_depth);
    assert_eq!(info.color_type, out_info.color_type);
}

#[test]
fn create_context() {
    let ctx: Result<RawContext<MemSource>, Error> = RawContext::new();
    assert!(ctx.is_ok());
}

#[test]
fn decode_001_cursor() {
    let cursor = MemSource::new(rgba_png(300, 300));
    let decoder = Decoder::new(cursor);

    check_decoder(decoder, 300, 300, BitDepth::Eight, ColorType::RGBA);
}

#[test]
fn decode_001_cursor_buffered() {
    let cursor_buffered = ChunkySource { data: rgba_png(300, 300), pos: 0 };
    let decoder = Decoder::new(cursor_buffered);

    check_decoder(decoder, 300, 300, BitDepth::Eight, ColorType::RGBA);
}

#[test]
fn decode_001_slice() {
    let decoder = Decoder::new(MemSource::new(rgba_png(300, 300)));

    check_decoder(decoder, 300, 300, BitDepth::Eight, ColorType::RGBA);
}

#[test]
fn decode_002_cursor() {
    let cursor = MemSource::new(rgba_png(380, 287));
    let decoder = Decoder::new(cursor);

    check_decoder(decoder, 380, 287, BitDepth::Eight, ColorType::RGBA);
}

#[test]
fn decode_002_cursor_buffered() {
    let cursor_buffered = ChunkySource { data: rgba_png(380, 287), pos: 0 };
    let decoder = Decoder::new(cursor_buffered);

    check_decoder(decoder, 380, 287, BitDepth::Eight, ColorType::RGBA);
}

#[test]
fn decode_002_slice() {
    let decoder = Decoder::new(MemSource::new(rgba_png(380, 287)));

    check_decoder(decoder, 380, 287, BitDepth::Eight, ColorType::RGBA);
}

#[test]
fn version() {
    println!("{:?}", spng::version());
}

#[test]
fn decode() {
    let (out_info, out) = spng::decode(MemSource::new(rgba_png(300, 300)), Format::Png)
        .expect("decode failed");
    assert_eq!(300, out_info.width);
    assert_eq!(300, out_info.height);
    assert_eq!(8, out_info.bit_depth.bits());
    assert_eq!(4, out_info.color_type.samples());
    assert_eq!(out_info.buffer_size, out.len());
}

// The pass-through decode returns exactly the unfiltered scanlines: a
// whole-pipeline check of chunk framing, checksums, inflation, and filter
// reversal on all five filter types.
#[test]
fn decode_exact_pixels_all_filters() {
    // 3 pixels by 5 rows of RGB8: bpp is 3, stride is 9.
    let rows: Vec<Vec<u8>> = vec![
        vec![10, 20, 30, 40, 50, 60, 70, 80, 90],
        vec![1, 2, 3, 4, 5, 6, 7, 8, 9],
        vec![9, 8, 7, 6, 5, 4, 3, 2, 1],
        vec![100, 110, 120, 130, 140, 150, 160, 170, 180],
        vec![255, 0, 128, 33, 66, 99, 250, 251, 252],
    ];
    // Apply the five filters by hand, one per row.
    let stride = 9usize;
    let bpp = 3usize;
    let mut filtered: Vec<Vec<u8>> = Vec::new();
    for (r, row) in rows.iter().enumerate() {
        let ft = r as u8;
        let mut frow = Vec::new();
        for (c, &x) in row.iter().enumerate() {
            let a = if c >= bpp { row[c - bpp] } else { 0 };
            let b = if r > 0 { rows[r - 1][c] } else { 0 };
            let d = if r > 0 && c >= bpp { rows[r - 1][c - bpp] } else { 0 };
            let pred: u8 = match ft {
                0 => 0,
                1 => a,
                2 => b,
                3 => (((a as u16) + (b as u16)) / 2) as u8,
                _ => {
                    let p = a as i32 + b as i32 - d as i32;
                    let pa = (p - a as i32).abs();
                    let pb = (p - b as i32).abs();
                    let pc = (p - d as i32).abs();
                    if pa <= pb && pa <= pc {
                        a
                    } else if pb <= pc {
                        b
                    } else {
                        d
                    }
                },
            };
            frow.push(x.wrapping_sub(pred));
        }
        frow.insert(0, ft);
        filtered.push(frow);
    }
    let mut raw = Vec::new();
    for frow in &filtered {
        raw.extend_from_slice(frow);
    }
    let idat = miniz_oxide::deflate::compress_to_vec_zlib(&raw, 6);
    let mut png = Vec::new();
    png.extend_from_slice(&SIGNATURE);
    png.extend_from_slice(&chunk(b"IHDR", &ihdr_payload(3, 5, 8, 2)));
    png.extend_from_slice(&chunk(b"IDAT", &idat));
    png.extend_from_slice(&chunk(b"IEND", &[]));

    let (out_info, out) = spng::decode(MemSource::new(png), Format::Png).expect("decode failed");
    assert_eq!(out_info.buffer_size, stride * 5);
    let mut expected = Vec::new();
    for row in &rows {
        expected.extend_from_slice(row);
    }
    assert_eq!(expected, out);
}

// Image data split over several IDAT chunks is reassembled before inflation.
#[test]
fn decode_split_idat() {
    let raw: Vec<u8> = vec![0, 11, 22, 33, 44];
    let idat = miniz_oxide::deflate::compress_to_vec_zlib(&raw, 6);
    let (first, second) = idat.split_at(idat.len() / 2);
    let mut png = Vec::new();
    png.extend_from_slice(&SIGNATURE);
    png.extend_from_slice(&chunk(b"IHDR", &ihdr_payload(4, 1, 8, 0)));
    png.extend_from_slice(&chunk(b"IDAT", first));
    png.extend_from_slice(&chunk(b"IDAT", second));
    png.extend_from_slice(&chunk(b"IEND", &[]));
    let (_, out) = spng::decode(MemSource::new(png), Format::Png).expect("decode failed");
    assert_eq!(vec![11, 22, 33, 44], out);
}

// Unknown ancillary chunks are skipped.
#[test]
fn decode_skips_ancillary_chunks() {
    let raw: Vec<u8> = vec![0, 1, 2];
    let idat = miniz_oxide::deflate::compress_to_vec_zlib(&raw, 6);
    let mut png = Vec::new();
    png.extend_from_slice(&SIGNATURE);
    png.extend_from_slice(&chunk(b"IHDR", &ihdr_payload(2, 1, 8, 0)));
    png.extend_from_slice(&chunk(b"tEXt", b"Comment\0hello"));
    png.extend_from_slice(&chunk(b"IDAT", &idat));
    png.extend_from_slice(&chunk(b"tIME", &[7, 230, 1, 1, 0, 0, 0]));
    png.extend_from_slice(&chunk(b"IEND", &[]));
    let (_, out) = spng::decode(MemSource::new(png), Format::Png).expect("decode failed");
    assert_eq!(vec![1, 2], out);
}

// Grayscale input decoded to the fixed truecolor-with-alpha format: the
// output color type is forced to RGBA with four samples per pixel.
#[test]
fn decode_gray_to_rgba8() {
    let png = make_png(2, 2, 8, 0, &[vec![10, 20], vec![30, 40]]);
    let (out_info, out) = spng::decode(MemSource::new(png), Format::Rgba8).expect("decode failed");
    assert_eq!(ColorType::TruecolorAlpha, out_info.color_type);
    assert_eq!(4, out_info.color_type.samples());
    assert_eq!(
        vec![
            10, 10, 10, 255, 20, 20, 20, 255, //
            30, 30, 30, 255, 40, 40, 40, 255,
        ],
        out
    );
}

// Truecolor input reduced to RGB8 and expanded to RGBA8.
#[test]
fn decode_rgb_conversions() {
    let png = make_png(2, 1, 8, 2, &[vec![1, 2, 3, 4, 5, 6]]);
    let (oi, out) = spng::decode(MemSource::new(png.clone()), Format::Rgba8).expect("rgba8");
    assert_eq!(ColorType::TruecolorAlpha, oi.color_type);
    assert_eq!(vec![1, 2, 3, 255, 4, 5, 6, 255], out);
    let (oi, out) = spng::decode(MemSource::new(png), Format::Rgb8).expect("rgb8");
    assert_eq!(ColorType::Truecolor, oi.color_type);
    assert_eq!(vec![1, 2, 3, 4, 5, 6], out);
}

// Gray-with-alpha input: alpha is kept for Ga8 and Rgba8, dropped for G8 the
// source does not qualify for, and 16-bit output widens samples by
// replication.
#[test]
fn decode_gray_alpha_conversions() {
    let png = make_png(2, 1, 8, 4, &[vec![9, 100, 7, 200]]);
    let (oi, out) = spng::decode(MemSource::new(png.clone()), Format::Ga8).expect("ga8");
    assert_eq!(ColorType::GrayscaleAlpha, oi.color_type);
    assert_eq!(vec![9, 100, 7, 200], out);
    let (_, out) = spng::decode(MemSource::new(png.clone()), Format::Rgba8).expect("rgba8");
    assert_eq!(vec![9, 9, 9, 100, 7, 7, 7, 200], out);
    let (oi, out) = spng::decode(MemSource::new(png), Format::Ga16).expect("ga16");
    assert_eq!(BitDepth::Sixteen, oi.bit_depth);
    assert_eq!(vec![9, 9, 100, 100, 7, 7, 200, 200], out);
}

// A 16-bit source: the host-endian pass-through swaps each sample's bytes,
// the big-endian pass-through copies them, and 8-bit output takes each
// sample's high byte.
#[test]
fn decode_sixteen_bit_source() {
    let png = make_png(2, 1, 16, 0, &[vec![0x12, 0x34, 0xAB, 0xCD]]);
    let (_, out) = spng::decode(MemSource::new(png.clone()), Format::Raw).expect("raw");
    assert_eq!(vec![0x12, 0x34, 0xAB, 0xCD], out);
    let (_, out) = spng::decode(MemSource::new(png.clone()), Format::Png).expect("png");
    assert_eq!(vec![0x34, 0x12, 0xCD, 0xAB], out);
    let (_, out) = spng::decode(MemSource::new(png), Format::G8).expect("g8");
    assert_eq!(vec![0x12, 0xAB], out);
}

// Sub-byte depths pass through with their packed rows intact.
#[test]
fn decode_one_bit_gray_pass_through() {
    let png = make_png(12, 2, 1, 0, &[vec![0b1010_1010, 0b1100_0000], vec![0b0101_0101, 0b0011_0000]]);
    let (oi, out) = spng::decode(MemSource::new(png), Format::Png).expect("decode failed");
    assert_eq!(BitDepth::One, oi.bit_depth);
    assert_eq!(vec![0b1010_1010, 0b1100_0000, 0b0101_0101, 0b0011_0000], out);
}

// Two independently constructed sessions depend only on their own input.
#[test]
fn two_sessions_independent() {
    let png_a = make_png(1, 1, 8, 0, &[vec![11]]);
    let png_b = make_png(1, 1, 8, 0, &[vec![99]]);
    let mut rd_a = Decoder::new(MemSource::new(png_a)).read_info().expect("a");
    let mut rd_b = Decoder::new(MemSource::new(png_b)).read_info().expect("b");
    let mut out_a = vec![0u8; rd_a.output_buffer_size()];
    let mut out_b = vec![0u8; rd_b.output_buffer_size()];
    rd_b.next_frame(&mut out_b).expect("decode b");
    rd_a.next_frame(&mut out_a).expect("decode a");
    assert_eq!(vec![11], out_a);
    assert_eq!(vec![99], out_b);
}

// The size query is stable: repeated queries return the same value, before
// and after the decode.
#[test]
fn decoded_size_idempotent() {
    let png = rgba_png(5, 4);
    let mut ctx: RawContext<MemSource> = RawContext::new().expect("context");
    ctx.set_png_stream(MemSource::new(png)).expect("stream");
    ctx.get_ihdr().expect("header");
    let s1 = ctx.decoded_image_size(Format::Rgba8).expect("size");
    let s2 = ctx.decoded_image_size(Format::Rgba8).expect("size");
    assert_eq!(s1, s2);
    assert_eq!(5 * 4 * 4, s1);
    let mut out = vec![0u8; s1];
    ctx.decode_image(&mut out, Format::Rgba8, spng::DecodeFlags::empty()).expect("decode");
    let s3 = ctx.decoded_image_size(Format::Rgba8).expect("size after decode");
    assert_eq!(s1, s3);
}

// Decoding a second time returns a state-class error and writes nothing.
#[test]
fn decode_twice_is_state_error() {
    let png = rgba_png(2, 2);
    let mut rd = Decoder::new(MemSource::new(png)).read_info().expect("read_info");
    let mut out = vec![0u8; rd.output_buffer_size()];
    rd.next_frame(&mut out).expect("first decode");
    let before = out.clone();
    let mut poison = vec![7u8; before.len()];
    let r = rd.next_frame(&mut poison);
    assert_eq!(Err(Error::Badstate), r.map(|_| ()));
    assert_eq!(vec![7u8; before.len()], poison);
    assert_eq!(before, out);
}

// A buffer shorter than the negotiated size is refused untouched.
#[test]
fn short_buffer_is_size_error() {
    let png = rgba_png(2, 2);
    let mut rd = Decoder::new(MemSource::new(png)).read_info().expect("read_info");
    let size = rd.output_buffer_size();
    let mut out = vec![42u8; size - 1];
    let r = rd.next_frame(&mut out);
    assert_eq!(Err(Error::Bufsiz), r.map(|_| ()));
    assert_eq!(vec![42u8; size - 1], out);
    // The session is still usable with a big enough buffer.
    let mut ok = vec![0u8; size];
    rd.next_frame(&mut ok).expect("retry with enough space");
}

// The raw-context protocol: header, size, decode, one shot each.
#[test]
fn raw_context_protocol() {
    let png = rgba_png(3, 3);
    let out_format = Format::Rgba8;
    let mut ctx: RawContext<MemSource> = RawContext::new().expect("context");
    ctx.set_png_stream(MemSource::new(png)).expect("stream");
    let ihdr = ctx.get_ihdr().expect("header");
    assert_eq!(3, ihdr.width);
    assert_eq!(3, ihdr.height);
    assert_eq!(8, ihdr.bit_depth);
    assert_eq!(4, ColorType::from_raw(ihdr.color_type).expect("color type").samples());
    let buffer_size = ctx.decoded_image_size(out_format).expect("size");
    let mut data = vec![0; buffer_size];
    ctx.decode_image(&mut data, out_format, spng::DecodeFlags::empty()).expect("decode");
    let r = ctx.decode_image(&mut data, out_format, spng::DecodeFlags::empty());
    assert_eq!(Err(Error::Badstate), r);
}

// The raw-context accessor exposes the owned context; the size it reports
// agrees with the reader's cached value.
#[test]
fn raw_context_accessor_agrees() {
    let png = rgba_png(4, 2);
    let rd = Decoder::new(MemSource::new(png)).read_info().expect("read_info");
    let size = rd.raw_context().decoded_image_size(Format::Png).expect("size");
    assert_eq!(rd.output_buffer_size(), size);
    let limits = rd.raw_context().get_image_limits().expect("limits");
    assert_eq!((0x7FFF_FFFE, 0x7FFF_FFFE), limits);
}

// A palette-indexed source decoded to the fixed color formats: each pixel
// is its palette entry, fully opaque.
#[test]
fn decode_indexed_to_color() {
    let idat = miniz_oxide::deflate::compress_to_vec_zlib(&[0, 2, 0, 1], 6);
    let mut png = Vec::new();
    png.extend_from_slice(&SIGNATURE);
    png.extend_from_slice(&chunk(b"IHDR", &ihdr_payload(3, 1, 8, 3)));
    png.extend_from_slice(&chunk(b"PLTE", &[10, 11, 12, 20, 21, 22, 30, 31, 32]));
    png.extend_from_slice(&chunk(b"IDAT", &idat));
    png.extend_from_slice(&chunk(b"IEND", &[]));
    let (oi, out) = spng::decode(MemSource::new(png.clone()), Format::Rgba8).expect("rgba8");
    assert_eq!(ColorType::TruecolorAlpha, oi.color_type);
    assert_eq!(vec![30, 31, 32, 255, 10, 11, 12, 255, 20, 21, 22, 255], out);
    let (_, out) = spng::decode(MemSource::new(png.clone()), Format::Rgb8).expect("rgb8");
    assert_eq!(vec![30, 31, 32, 10, 11, 12, 20, 21, 22], out);
    // Pass-through still yields the raw indices.
    let (_, out) = spng::decode(MemSource::new(png), Format::Png).expect("png");
    assert_eq!(vec![2, 0, 1], out);
}

// A 2-bit indexed source: indices are unpacked big-endian within each byte
// before the palette lookup.
#[test]
fn decode_sub_byte_indexed() {
    // One row of four 2-bit pixels: 3, 0, 1, 2 packed as 0b11_00_01_10.
    let idat = miniz_oxide::deflate::compress_to_vec_zlib(&[0, 0b1100_0110], 6);
    let mut png = Vec::new();
    png.extend_from_slice(&SIGNATURE);
    png.extend_from_slice(&chunk(b"IHDR", &ihdr_payload(4, 1, 2, 3)));
    png.extend_from_slice(&chunk(b"PLTE", &[0, 1, 2, 10, 11, 12, 20, 21, 22, 30, 31, 32]));
    png.extend_from_slice(&chunk(b"IDAT", &idat));
    png.extend_from_slice(&chunk(b"IEND", &[]));
    let (_, out) = spng::decode(MemSource::new(png), Format::Rgb8).expect("rgb8");
    assert_eq!(vec![30, 31, 32, 0, 1, 2, 10, 11, 12, 20, 21, 22], out);
}

// Sub-byte grayscale is scaled to 8 bits: the depth's maximum maps to 255.
#[test]
fn decode_sub_byte_gray_to_fixed() {
    // One row of eight 1-bit pixels: 1,0,1,1,0,0,1,0.
    let png = make_png(8, 1, 1, 0, &[vec![0b1011_0010]]);
    let (oi, out) = spng::decode(MemSource::new(png.clone()), Format::G8).expect("g8");
    assert_eq!(ColorType::Grayscale, oi.color_type);
    assert_eq!(vec![255, 0, 255, 255, 0, 0, 255, 0], out);
    let (_, out) = spng::decode(MemSource::new(png), Format::Rgba8).expect("rgba8");
    assert_eq!(vec![255, 255, 255, 255, 0, 0, 0, 255], out[0..8].to_vec());
    // 4-bit gray: 0x9 scales to 0x99.
    let png4 = make_png(2, 1, 4, 0, &[vec![0x9F]]);
    let (_, out) = spng::decode(MemSource::new(png4), Format::G8).expect("g8");
    assert_eq!(vec![0x99, 0xFF], out);
}

// The palette accessor: available after the decode for streams that carry
// one, reported as not available otherwise.
#[test]
fn palette_accessor() {
    let idat = miniz_oxide::deflate::compress_to_vec_zlib(&[0, 1, 0], 6);
    let mut png = Vec::new();
    png.extend_from_slice(&SIGNATURE);
    png.extend_from_slice(&chunk(b"IHDR", &ihdr_payload(2, 1, 8, 3)));
    png.extend_from_slice(&chunk(b"PLTE", &[10, 11, 12, 20, 21, 22]));
    png.extend_from_slice(&chunk(b"IDAT", &idat));
    png.extend_from_slice(&chunk(b"IEND", &[]));
    let mut ctx: RawContext<MemSource> = RawContext::new().expect("context");
    ctx.set_png_stream(MemSource::new(png)).expect("stream");
    assert_eq!(Err(Error::Chunkavail), ctx.get_plte().map(|v| v.clone()));
    ctx.get_ihdr().expect("header");
    let size = ctx.decoded_image_size(Format::Rgba8).expect("size");
    let mut out = vec![0u8; size];
    ctx.decode_image(&mut out, Format::Rgba8, spng::DecodeFlags::empty()).expect("decode");
    assert_eq!(vec![10, 11, 12, 20, 21, 22], ctx.get_plte().expect("palette").clone());

    // A grayscale stream has no palette to report.
    let gray = make_png(1, 1, 8, 0, &[vec![7]]);
    let mut ctx: RawContext<MemSource> = RawContext::new().expect("context");
    ctx.set_png_stream(MemSource::new(gray)).expect("stream");
    ctx.get_ihdr().expect("header");
    let size = ctx.decoded_image_size(Format::Png).expect("size");
    let mut out = vec![0u8; size];
    ctx.decode_image(&mut out, Format::Png, spng::DecodeFlags::empty()).expect("decode");
    assert_eq!(Err(Error::Chunkavail), ctx.get_plte().map(|v| v.clone()));
}

// An interlaced image: the seven passes are reconstructed independently and
// gathered back into the full image grid.
#[test]
fn decode_interlaced_gray() {
    // A 4x4 grayscale image with distinct pixel values v(x, y) = 16*y + x.
    let w = 4u32;
    let h = 4u32;
    let v = |x: u32, y: u32| (16 * y + x) as u8;
    // The interlace grid: (start column, start row, column step, row step).
    let grid: [(u32, u32, u32, u32); 7] =
        [(0, 0, 8, 8), (4, 0, 8, 8), (0, 4, 4, 8), (2, 0, 4, 4), (0, 2, 2, 4), (1, 0, 2, 2), (0, 1, 1, 2)];
    let mut raw = Vec::new();
    for &(x0, y0, dx, dy) in grid.iter() {
        if w > x0 && h > y0 {
            let mut y = y0;
            while y < h {
                raw.push(0u8);
                let mut x = x0;
                while x < w {
                    raw.push(v(x, y));
                    x += dx;
                }
                y += dy;
            }
        }
    }
    let idat = miniz_oxide::deflate::compress_to_vec_zlib(&raw, 6);
    let mut payload = ihdr_payload(w, h, 8, 0);
    payload[12] = 1;
    let mut png = Vec::new();
    png.extend_from_slice(&SIGNATURE);
    png.extend_from_slice(&chunk(b"IHDR", &payload));
    png.extend_from_slice(&chunk(b"IDAT", &idat));
    png.extend_from_slice(&chunk(b"IEND", &[]));
    let (oi, out) = spng::decode(MemSource::new(png.clone()), Format::Png).expect("decode");
    assert_eq!(16, oi.buffer_size);
    let mut expected = Vec::new();
    for y in 0..h {
        for x in 0..w {
            expected.push(v(x, y));
        }
    }
    assert_eq!(expected, out);
    // The fixed formats convert the deinterlaced image like any other.
    let (_, rgba) = spng::decode(MemSource::new(png), Format::Rgba8).expect("rgba8");
    assert_eq!(expected[5], rgba[5 * 4]);
    assert_eq!(255, rgba[5 * 4 + 3]);
}

// An interlaced RGB image at a size that exercises empty and partial
// passes.
#[test]
fn decode_interlaced_rgb() {
    let w = 5u32;
    let h = 3u32;
    let v = |x: u32, y: u32, s: u32| (50 * y + 10 * x + s) as u8;
    let grid: [(u32, u32, u32, u32); 7] =
        [(0, 0, 8, 8), (4, 0, 8, 8), (0, 4, 4, 8), (2, 0, 4, 4), (0, 2, 2, 4), (1, 0, 2, 2), (0, 1, 1, 2)];
    let mut raw = Vec::new();
    for &(x0, y0, dx, dy) in grid.iter() {
        if w > x0 && h > y0 {
            let mut y = y0;
            while y < h {
                raw.push(0u8);
                let mut x = x0;
                while x < w {
                    for s in 0..3 {
                        raw.push(v(x, y, s));
                    }
                    x += dx;
                }
                y += dy;
            }
        }
    }
    let idat = miniz_oxide::deflate::compress_to_vec_zlib(&raw, 6);
    let mut payload = ihdr_payload(w, h, 8, 2);
    payload[12] = 1;
    let mut png = Vec::new();
    png.extend_from_slice(&SIGNATURE);
    png.extend_from_slice(&chunk(b"IHDR", &payload));
    png.extend_from_slice(&chunk(b"IDAT", &idat));
    png.extend_from_slice(&chunk(b"IEND", &[]));
    let (_, out) = spng::decode(MemSource::new(png), Format::Png).expect("decode");
    let mut expected = Vec::new();
    for y in 0..h {
        for x in 0..w {
            for s in 0..3 {
                expected.push(v(x, y, s));
            }
        }
    }
    assert_eq!(expected, out);
}
