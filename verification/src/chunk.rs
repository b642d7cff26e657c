use vstd::prelude::*;

use crate::error::Error;
use crate::format::{validate_ihdr, Ihdr, Limits};
use crate::source::{fill_exact, ByteSource, FillStatus};

verus! {

/// The IEEE CRC-32 checksum of a byte sequence, as the container format uses
/// it to protect each chunk.
pub uninterp spec fn crc32_of(data: Seq<u8>) -> u32;

/// Relies on `crc32fast::hash`: the IEEE CRC-32 checksum of the bytes, a
/// function of the bytes alone.
#[verifier::external_body]
pub(crate) fn crc32(data: &Vec<u8>) -> (r: u32)
    ensures
        r == crc32_of(data@),
{
    crc32fast::hash(data.as_slice())
}

/// Whether a zlib stream inflates, and to which bytes; a function of the
/// stream alone.
pub uninterp spec fn zlib_inflated(data: Seq<u8>) -> Option<Seq<u8>>;

/// Relies on `miniz_oxide::inflate::decompress_to_vec_zlib`: inflating a
/// zlib-framed deflate stream succeeds or fails, and yields which bytes, as a
/// function of the input bytes alone.
#[verifier::external_body]
pub(crate) fn inflate_zlib(data: &Vec<u8>) -> (r: Option<Vec<u8>>)
    ensures
        match r {
            Some(v) => zlib_inflated(data@) == Some(v@),
            None => zlib_inflated(data@) is None,
        },
{
    match miniz_oxide::inflate::decompress_to_vec_zlib(data.as_slice()) {
        Ok(v) => Some(v),
        Err(_) => None,
    }
}

/// The big-endian 32-bit value of the four bytes of `s` starting at `i`.
pub open spec fn be32_at(s: Seq<u8>, i: int) -> int {
    s[i] * 0x100_0000 + s[i + 1] * 0x1_0000 + s[i + 2] * 0x100 + s[i + 3]
}

/// The exec counterpart of [`be32_at`].
pub(crate) fn read_be32(v: &Vec<u8>, i: usize) -> (r: u32)
    requires
        i + 4 <= v@.len(),
    ensures
        r as int == be32_at(v@, i as int),
{
    let l = v.len();
    assert(i + 4 <= l);
    (v[i] as u32) * 0x100_0000 + (v[i + 1] as u32) * 0x1_0000 + (v[i + 2] as u32) * 0x100 + (v[i
        + 3] as u32)
}

/// Whether `s` starts with the fixed 8-byte container signature.
pub open spec fn has_png_signature(s: Seq<u8>) -> bool {
    &&& s.len() >= 8
    &&& s[0] == 137u8
    &&& s[1] == 80u8
    &&& s[2] == 78u8
    &&& s[3] == 71u8
    &&& s[4] == 13u8
    &&& s[5] == 10u8
    &&& s[6] == 26u8
    &&& s[7] == 10u8
}

/// Whether the chunk record starting at `s[0]` has type code `abcd`.
/// A record is laid out as a 4-byte length, 4-byte type, payload, 4-byte crc.
pub open spec fn chunk_has_type(s: Seq<u8>, a: u8, b: u8, c: u8, d: u8) -> bool {
    s[4] == a && s[5] == b && s[6] == c && s[7] == d
}

/// Whether all four type-code bytes of the chunk record at `s[0]` are ASCII
/// letters, as the container format requires.
pub open spec fn chunk_type_ok(s: Seq<u8>) -> bool {
    forall|i: int| 4 <= i < 8 ==> (65 <= #[trigger] s[i] <= 90 || 97 <= s[i] <= 122)
}

/// Whether the chunk record at `s[0]` is critical: its first type byte is an
/// upper-case letter.
pub open spec fn chunk_critical(s: Seq<u8>) -> bool {
    s[4] <= 90
}

/// The header record held by the image-header chunk of a stream `s` that
/// starts with the signature and that chunk.
pub open spec fn ihdr_record(s: Seq<u8>) -> Ihdr {
    Ihdr {
        width: be32_at(s, 16) as u32,
        height: be32_at(s, 20) as u32,
        bit_depth: s[24],
        color_type: s[25],
        compression_method: s[26],
        filter_method: s[27],
        interlace_method: s[28],
    }
}

/// How many bytes of the stream the signature and image-header chunk occupy.
pub open spec fn header_bytes() -> int {
    33
}

/// Parsing the front of stream `s` into a validated header record, and the
/// exact error owed otherwise.
///
/// The stream must open with the 8-byte signature, immediately followed by an
/// image-header chunk: type `IHDR`, declared length 13, a checksum over type
/// and payload that matches when `check_crc` asks for it, and fields that
/// pass [`validate_ihdr`] under the limits `l`.  A stream that ends inside
/// this prefix owes `IoEof`.
pub open spec fn spec_parse_ihdr(s: Seq<u8>, l: Limits, check_crc: bool) -> Result<Ihdr, Error> {
    if s.len() < 8 {
        Err(Error::IoEof)
    } else if !has_png_signature(s) {
        Err(Error::Signature)
    } else if s.len() < 16 {
        Err(Error::IoEof)
    } else if !chunk_has_type(s.skip(8), 73, 72, 68, 82) {
        Err(Error::Noihdr)
    } else if be32_at(s, 8) != 13 {
        Err(Error::IhdrSize)
    } else if s.len() < 33 {
        Err(Error::IoEof)
    } else if check_crc && be32_at(s, 29) != crc32_of(s.subrange(12, 29)) {
        Err(Error::ChunkCrc)
    } else {
        match validate_ihdr(ihdr_record(s), l) {
            Err(e) => Err(e),
            Ok(_) => Ok(ihdr_record(s)),
        }
    }
}

/// A vector of `n` zero bytes.
pub(crate) fn zeros(n: usize) -> (r: Vec<u8>)
    ensures
        r@.len() == n,
{
    let mut v: Vec<u8> = Vec::new();
    let mut i: usize = 0;
    while i < n
        invariant
            i <= n,
            v@.len() == i,
        decreases n - i,
    {
        v.push(0);
        i = i + 1;
    }
    v
}

/// Appends `src[start..end]` to `dst`.
pub(crate) fn extend_from(dst: &mut Vec<u8>, src: &Vec<u8>, start: usize, end: usize)
    requires
        start <= end <= src@.len(),
    ensures
        final(dst)@ == old(dst)@ + src@.subrange(start as int, end as int),
{
    let mut i: usize = start;
    while i < end
        invariant
            start <= i <= end <= src@.len(),
            dst@ == old(dst)@ + src@.subrange(start as int, i as int),
        decreases end - i,
    {
        let b = src[i];
        proof {
            assert(old(dst)@ + src@.subrange(start as int, i as int) + seq![b] =~= old(dst)@
                + src@.subrange(start as int, i + 1));
        }
        dst.push(b);
        i = i + 1;
    }
}

/// Reads and parses the stream's signature and image-header chunk.
///
/// The result is exactly what [`spec_parse_ihdr`] says of the source's
/// remaining bytes, except that a source whose transport can fail may also
/// report `IoError`.  On success exactly the header prefix has been consumed.
pub(crate) fn parse_ihdr<R: ByteSource>(source: &mut R, l: Limits, check_crc: bool) -> (r: Result<
    Ihdr,
    Error,
>)
    ensures
        final(source).never_fails() == old(source).never_fails(),
        match r {
            Ok(h) => {
                &&& spec_parse_ihdr(old(source).remaining(), l, check_crc) == Ok::<Ihdr, Error>(h)
                &&& final(source).remaining() == old(source).remaining().skip(header_bytes())
            },
            Err(e) => (e == Error::IoError && !old(source).never_fails()) || spec_parse_ihdr(
                old(source).remaining(),
                l,
                check_crc,
            ) == Err::<Ihdr, Error>(e),
        },
{
    let ghost rem = source.remaining();
    let mut sig = zeros(8);
    match fill_exact(source, &mut sig) {
        FillStatus::Filled => {},
        FillStatus::Eof => {
            return Err(Error::IoEof);
        },
        FillStatus::Failed => {
            return Err(Error::IoError);
        },
    }
    if !(sig[0] == 137 && sig[1] == 80 && sig[2] == 78 && sig[3] == 71 && sig[4] == 13 && sig[5]
        == 10 && sig[6] == 26 && sig[7] == 10) {
        return Err(Error::Signature);
    }
    assert(has_png_signature(rem));
    let mut ch = zeros(8);
    match fill_exact(source, &mut ch) {
        FillStatus::Filled => {},
        FillStatus::Eof => {
            return Err(Error::IoEof);
        },
        FillStatus::Failed => {
            return Err(Error::IoError);
        },
    }
    proof {
        assert(rem.len() >= 16);
        assert forall|i: int| 0 <= i < 8 implies ch@[i] == rem[8 + i] by {
            assert(ch@[i] == rem.skip(8).take(8)[i]);
        }
    }
    if !(ch[4] == 73 && ch[5] == 72 && ch[6] == 68 && ch[7] == 82) {
        return Err(Error::Noihdr);
    }
    let clen = read_be32(&ch, 0);
    assert(clen as int == be32_at(rem, 8));
    if clen != 13 {
        return Err(Error::IhdrSize);
    }
    let mut body = zeros(17);
    match fill_exact(source, &mut body) {
        FillStatus::Filled => {},
        FillStatus::Eof => {
            return Err(Error::IoEof);
        },
        FillStatus::Failed => {
            return Err(Error::IoError);
        },
    }
    proof {
        assert(rem.len() >= 33);
        assert forall|i: int| 0 <= i < 17 implies body@[i] == rem[16 + i] by {
            assert(body@[i] == rem.skip(8).skip(8).take(17)[i]);
            assert(rem.skip(8).skip(8) =~= rem.skip(16));
        }
        assert(source.remaining() =~= rem.skip(33));
    }
    if check_crc {
        let mut crcbuf: Vec<u8> = Vec::new();
        extend_from(&mut crcbuf, &ch, 4, 8);
        extend_from(&mut crcbuf, &body, 0, 13);
        proof {
            assert forall|i: int| 0 <= i < 17 implies crcbuf@[i] == rem[12 + i] by {
                if i < 4 {
                    assert(crcbuf@[i] == ch@.subrange(4, 8)[i]);
                } else {
                    assert(crcbuf@[i] == body@.subrange(0, 13)[i - 4]);
                }
            }
            assert(crcbuf@ =~= rem.subrange(12, 29));
        }
        let c = crc32(&crcbuf);
        let stored = read_be32(&body, 13);
        assert(stored as int == be32_at(rem, 29));
        if stored != c {
            return Err(Error::ChunkCrc);
        }
    }
    let h = Ihdr {
        width: read_be32(&body, 0),
        height: read_be32(&body, 4),
        bit_depth: body[8],
        color_type: body[9],
        compression_method: body[10],
        filter_method: body[11],
        interlace_method: body[12],
    };
    assert(h == ihdr_record(rem));
    match crate::format::check_ihdr(&h, l) {
        Err(e) => Err(e),
        Ok(_) => Ok(h),
    }
}

/// The concatenated image-data payloads and the palette payload of the
/// chunk sequence `s`, and the exact error owed otherwise.
///
/// `s` is the stream right after the image-header chunk.  Chunks are walked
/// in order up to the trailing `IEND` chunk: each must carry a length within
/// the format's `2^31 - 1` ceiling and the configured `size_limit`, a type of
/// four ASCII letters, and a matching checksum where the chosen policy asks
/// for one (`crit_check` for critical chunks, `anc_check` for ancillary
/// ones).  A second image-header chunk is a position error; an unrecognized
/// critical chunk is refused; ancillary chunks are skipped.  At most one
/// palette chunk is accepted (`have_plte` records one already seen), it must
/// come before the image data (`seen_idat` records that), and it must hold
/// between 1 and 256 whole three-byte entries.  The `IEND` chunk must be
/// empty.  A stream that ends inside a chunk owes `IoEof`.  An absent
/// palette is returned as the empty sequence.
pub open spec fn spec_idat_stream(
    s: Seq<u8>,
    crit_check: bool,
    anc_check: bool,
    size_limit: int,
    have_plte: bool,
    seen_idat: bool,
) -> Result<(Seq<u8>, Seq<u8>), Error>
    decreases s.len(),
{
    if s.len() < 8 {
        Err(Error::IoEof)
    } else {
        let len = be32_at(s, 0);
        if len > 0x7FFF_FFFF {
            Err(Error::ChunkStdlen)
        } else if len > size_limit {
            Err(Error::ChunkLimits)
        } else if s.len() < 12 + len {
            Err(Error::IoEof)
        } else if !chunk_type_ok(s) {
            Err(Error::ChunkType)
        } else if (if chunk_critical(s) {
            crit_check
        } else {
            anc_check
        }) && be32_at(s, 8 + len) != crc32_of(s.subrange(4, 8 + len)) {
            Err(Error::ChunkCrc)
        } else if chunk_has_type(s, 73, 69, 78, 68) {
            if len != 0 {
                Err(Error::ChunkSize)
            } else {
                Ok((Seq::empty(), Seq::empty()))
            }
        } else if chunk_has_type(s, 73, 72, 68, 82) {
            Err(Error::ChunkPos)
        } else if chunk_has_type(s, 80, 76, 84, 69) {
            if have_plte {
                Err(Error::DupPlte)
            } else if seen_idat {
                Err(Error::ChunkPos)
            } else if len == 0 || len % 3 != 0 || len > 768 {
                Err(Error::ChunkSize)
            } else {
                match spec_idat_stream(
                    s.skip(12 + len),
                    crit_check,
                    anc_check,
                    size_limit,
                    true,
                    seen_idat,
                ) {
                    Err(e) => Err(e),
                    Ok(rest) => Ok((rest.0, s.subrange(8, 8 + len))),
                }
            }
        } else if chunk_critical(s) && !chunk_has_type(s, 73, 68, 65, 84) {
            Err(Error::ChunkUnknownCritical)
        } else if chunk_has_type(s, 73, 68, 65, 84) {
            match spec_idat_stream(
                s.skip(12 + len),
                crit_check,
                anc_check,
                size_limit,
                have_plte,
                true,
            ) {
                Err(e) => Err(e),
                Ok(rest) => Ok((s.subrange(8, 8 + len) + rest.0, rest.1)),
            }
        } else {
            spec_idat_stream(
                s.skip(12 + len),
                crit_check,
                anc_check,
                size_limit,
                have_plte,
                seen_idat,
            )
        }
    }
}

/// Walks the chunk sequence after the header and collects the concatenated
/// image-data payloads and the palette payload (empty when the stream has no
/// palette chunk).
///
/// The result is exactly what [`spec_idat_stream`] says of the source's
/// remaining bytes, except that a source whose transport can fail may also
/// report `IoError`.
#[verifier::spinoff_prover]
#[verifier::rlimit(100)]
pub(crate) fn collect_idat<R: ByteSource>(
    source: &mut R,
    crit_check: bool,
    anc_check: bool,
    size_limit: u32,
) -> (r: Result<(Vec<u8>, Vec<u8>), Error>)
    ensures
        final(source).never_fails() == old(source).never_fails(),
        match r {
            Ok(v) => spec_idat_stream(
                old(source).remaining(),
                crit_check,
                anc_check,
                size_limit as int,
                false,
                false,
            ) == Ok::<(Seq<u8>, Seq<u8>), Error>((v.0@, v.1@)),
            Err(e) => (e == Error::IoError && !old(source).never_fails()) || spec_idat_stream(
                old(source).remaining(),
                crit_check,
                anc_check,
                size_limit as int,
                false,
                false,
            ) == Err::<(Seq<u8>, Seq<u8>), Error>(e),
        },
{
    let mut idat: Vec<u8> = Vec::new();
    let mut plte: Vec<u8> = Vec::new();
    let mut have_plte: bool = false;
    let mut seen_idat: bool = false;
    loop
        invariant
            source.never_fails() == old(source).never_fails(),
            !have_plte ==> plte@ == Seq::<u8>::empty(),
            match spec_idat_stream(
                source.remaining(),
                crit_check,
                anc_check,
                size_limit as int,
                have_plte,
                seen_idat,
            ) {
                Ok(rest) => spec_idat_stream(
                    old(source).remaining(),
                    crit_check,
                    anc_check,
                    size_limit as int,
                    false,
                    false,
                ) == Ok::<(Seq<u8>, Seq<u8>), Error>(
                    (
                        idat@ + rest.0,
                        if have_plte {
                            plte@
                        } else {
                            rest.1
                        },
                    ),
                ),
                Err(e) => spec_idat_stream(
                    old(source).remaining(),
                    crit_check,
                    anc_check,
                    size_limit as int,
                    false,
                    false,
                ) == Err::<(Seq<u8>, Seq<u8>), Error>(e),
            },
        decreases source.remaining().len(),
    {
        let ghost rem0 = source.remaining();
        let mut ch = zeros(8);
        match fill_exact(source, &mut ch) {
            FillStatus::Filled => {},
            FillStatus::Eof => {
                return Err(Error::IoEof);
            },
            FillStatus::Failed => {
                return Err(Error::IoError);
            },
        }
        proof {
            assert forall|i: int| 0 <= i < 8 implies ch@[i] == rem0[i] by {
                assert(ch@[i] == rem0.take(8)[i]);
            }
        }
        let len = read_be32(&ch, 0);
        assert(len as int == be32_at(rem0, 0));
        if len > 0x7FFF_FFFF {
            return Err(Error::ChunkStdlen);
        }
        if len > size_limit {
            return Err(Error::ChunkLimits);
        }
        let n: usize = (len as usize) + 4;
        let mut body = zeros(n);
        match fill_exact(source, &mut body) {
            FillStatus::Filled => {},
            FillStatus::Eof => {
                proof {
                    assert(rem0.len() < 12 + len as int);
                }
                return Err(Error::IoEof);
            },
            FillStatus::Failed => {
                return Err(Error::IoError);
            },
        }
        proof {
            assert(rem0.len() >= 12 + len as int);
            assert forall|i: int| 0 <= i < n implies body@[i] == rem0[8 + i] by {
                assert(body@[i] == rem0.skip(8).take(n as int)[i]);
            }
            assert(source.remaining() =~= rem0.skip(12 + len as int));
        }
        let t0 = ch[4];
        let t1 = ch[5];
        let t2 = ch[6];
        let t3 = ch[7];
        if !((65 <= t0 && t0 <= 90 || 97 <= t0 && t0 <= 122) && (65 <= t1 && t1 <= 90 || 97 <= t1
            && t1 <= 122) && (65 <= t2 && t2 <= 90 || 97 <= t2 && t2 <= 122) && (65 <= t3 && t3
            <= 90 || 97 <= t3 && t3 <= 122)) {
            assert(!chunk_type_ok(rem0));
            return Err(Error::ChunkType);
        }
        assert(chunk_type_ok(rem0));
        let critical = t0 <= 90;
        if (critical && crit_check) || (!critical && anc_check) {
            let mut crcbuf: Vec<u8> = Vec::new();
            extend_from(&mut crcbuf, &ch, 4, 8);
            extend_from(&mut crcbuf, &body, 0, len as usize);
            proof {
                assert forall|i: int| 0 <= i < 4 + len as int implies crcbuf@[i] == rem0[4 + i] by {
                    if i < 4 {
                        assert(crcbuf@[i] == ch@.subrange(4, 8)[i]);
                    } else {
                        assert(crcbuf@[i] == body@.subrange(0, len as int)[i - 4]);
                    }
                }
                assert(crcbuf@ =~= rem0.subrange(4, 8 + len as int));
            }
            let c = crc32(&crcbuf);
            let stored = read_be32(&body, len as usize);
            assert(stored as int == be32_at(rem0, 8 + len as int));
            if stored != c {
                return Err(Error::ChunkCrc);
            }
        }
        if t0 == 73 && t1 == 69 && t2 == 78 && t3 == 68 {
            if len != 0 {
                return Err(Error::ChunkSize);
            }
            proof {
                assert(spec_idat_stream(
                    rem0,
                    crit_check,
                    anc_check,
                    size_limit as int,
                    have_plte,
                    seen_idat,
                ) == Ok::<(Seq<u8>, Seq<u8>), Error>((Seq::empty(), Seq::empty())));
                assert(idat@ + Seq::<u8>::empty() =~= idat@);
            }
            return Ok((idat, plte));
        }
        if t0 == 73 && t1 == 72 && t2 == 68 && t3 == 82 {
            return Err(Error::ChunkPos);
        }
        let is_idat = t0 == 73 && t1 == 68 && t2 == 65 && t3 == 84;
        let is_plte = t0 == 80 && t1 == 76 && t2 == 84 && t3 == 69;
        if is_plte {
            if have_plte {
                return Err(Error::DupPlte);
            }
            if seen_idat {
                return Err(Error::ChunkPos);
            }
            if len == 0 || len % 3 != 0 || len > 768 {
                return Err(Error::ChunkSize);
            }
            plte = Vec::new();
            extend_from(&mut plte, &body, 0, len as usize);
            have_plte = true;
            proof {
                assert(plte@ =~= rem0.subrange(8, 8 + len as int));
            }
            continue;
        }
        if critical && !is_idat {
            return Err(Error::ChunkUnknownCritical);
        }
        let ghost idat_before = idat@;
        if is_idat {
            extend_from(&mut idat, &body, 0, len as usize);
            seen_idat = true;
            proof {
                assert(body@.subrange(0, len as int) =~= rem0.subrange(8, 8 + len as int));
            }
        }
        proof {
            let ghost payload = rem0.subrange(8, 8 + len as int);
            match spec_idat_stream(
                source.remaining(),
                crit_check,
                anc_check,
                size_limit as int,
                have_plte,
                seen_idat,
            ) {
                Ok(rest) => {
                    if is_idat {
                        assert(spec_idat_stream(
                            rem0,
                            crit_check,
                            anc_check,
                            size_limit as int,
                            have_plte,
                            false,
                        ) matches Ok(whole) && whole.0 == payload + rest.0 && whole.1 == rest.1);
                        assert(idat_before + (payload + rest.0) =~= (idat_before + payload)
                            + rest.0);
                    } else {
                        assert(spec_idat_stream(
                            rem0,
                            crit_check,
                            anc_check,
                            size_limit as int,
                            have_plte,
                            seen_idat,
                        ) == Ok::<(Seq<u8>, Seq<u8>), Error>(rest));
                    }
                },
                Err(_) => {},
            }
        }
    }
}

} // verus!
