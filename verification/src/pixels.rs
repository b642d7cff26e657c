use vstd::prelude::*;

use crate::error::Error;
use crate::format::{samples_of, ColorType, Format};

verus! {

/// The Paeth predictor of the scanline filter model: whichever of the left,
/// above, and upper-left neighbor is closest to their linear estimate.
pub open spec fn paeth(a: u8, b: u8, c: u8) -> u8 {
    let p = a + b - c;
    let pa = if p >= a {
        p - a
    } else {
        a - p
    };
    let pb = if p >= b {
        p - b
    } else {
        b - p
    };
    let pc = if p >= c {
        p - c
    } else {
        c - p
    };
    if pa <= pb && pa <= pc {
        a
    } else if pb <= pc {
        b
    } else {
        c
    }
}

/// The exec counterpart of [`paeth`].
pub(crate) fn paeth_predictor(a: u8, b: u8, c: u8) -> (r: u8)
    ensures
        r == paeth(a, b, c),
{
    let p: i32 = a as i32 + b as i32 - c as i32;
    let pa: i32 = if p >= a as i32 {
        p - a as i32
    } else {
        a as i32 - p
    };
    let pb: i32 = if p >= b as i32 {
        p - b as i32
    } else {
        b as i32 - p
    };
    let pc: i32 = if p >= c as i32 {
        p - c as i32
    } else {
        c as i32 - p
    };
    if pa <= pb && pa <= pc {
        a
    } else if pb <= pc {
        b
    } else {
        c
    }
}

/// The filter-type byte of row `row` in raw scanline data `raw`, where each
/// row is one filter byte followed by `stride` data bytes.
pub open spec fn ftype(raw: Seq<u8>, stride: int, row: int) -> u8 {
    raw[row * (stride + 1)]
}

/// Whether every row of the raw scanline data names one of the five defined
/// filter types.
pub open spec fn filters_ok(raw: Seq<u8>, stride: int, rows: int) -> bool {
    forall|row: int| 0 <= row < rows ==> #[trigger] ftype(raw, stride, row) <= 4
}

/// The reconstructed image byte at `row` and byte-column `col`, obtained by
/// reversing the scanline filters of `raw`.
///
/// Each reconstruction adds, modulo 256, the row's filter prediction to the
/// filtered byte: nothing, the left neighbor (one filter unit `bpp` back),
/// the byte above, the floored average of the two, or the Paeth predictor of
/// left, above, and upper left; neighbors outside the image are zero.
pub open spec fn recon_at(raw: Seq<u8>, stride: int, bpp: int, row: int, col: int) -> u8
    decreases row, col,
{
    if row < 0 || col < 0 || stride <= 0 || bpp <= 0 {
        0
    } else {
        let x = raw[row * (stride + 1) + 1 + col];
        let a = if col >= bpp {
            recon_at(raw, stride, bpp, row, col - bpp)
        } else {
            0
        };
        let b = if row > 0 {
            recon_at(raw, stride, bpp, row - 1, col)
        } else {
            0
        };
        let c = if row > 0 && col >= bpp {
            recon_at(raw, stride, bpp, row - 1, col - bpp)
        } else {
            0
        };
        let ft = ftype(raw, stride, row);
        if ft == 0 {
            x
        } else if ft == 1 {
            ((x + a) % 256) as u8
        } else if ft == 2 {
            ((x + b) % 256) as u8
        } else if ft == 3 {
            ((x + (a + b) / 2) % 256) as u8
        } else {
            ((x + paeth(a, b, c)) % 256) as u8
        }
    }
}

/// The reconstructed image byte at flat index `k`, rows of `stride` bytes
/// laid end to end.
pub open spec fn src_byte(raw: Seq<u8>, stride: int, bpp: int, k: int) -> u8 {
    recon_at(raw, stride, bpp, k / stride, k % stride)
}

/// Reverses the scanline filters of `raw`: `height` rows, each one filter
/// byte and `stride` data bytes.  Returns the reconstructed image bytes, or
/// reports the filter error owed when some row names an undefined filter.
#[verifier::loop_isolation(false)]
pub(crate) fn unfilter(raw: &Vec<u8>, stride: usize, bpp: usize, height: usize) -> (r: Result<
    Vec<u8>,
    Error,
>)
    requires
        1 <= stride,
        1 <= bpp,
        raw@.len() == height * (stride + 1),
    ensures
        match r {
            Ok(v) => {
                &&& filters_ok(raw@, stride as int, height as int)
                &&& v@.len() == height * stride
                &&& v@ == unfiltered(raw@, stride as int, bpp as int, height as int)
            },
            Err(e) => {
                &&& e == Error::Filter
                &&& !filters_ok(raw@, stride as int, height as int)
            },
        },
{
    let rl = raw.len();
    let mut out: Vec<u8> = Vec::new();
    let mut row: usize = 0;
    let mut base: usize = 0;
    while row < height
        invariant
            row <= height,
            base == row * (stride + 1),
            out@.len() == row * stride,
            forall|r2: int| 0 <= r2 < row ==> #[trigger] ftype(raw@, stride as int, r2) <= 4,
            forall|r2: int, c2: int|
                0 <= r2 < row && 0 <= c2 < stride ==> #[trigger] recon_at(
                    raw@,
                    stride as int,
                    bpp as int,
                    r2,
                    c2,
                ) == out@[r2 * stride + c2],
        decreases height - row,
    {
        proof {
            assert(base + stride + 1 <= raw@.len() && row * stride + stride <= raw@.len())
                by (nonlinear_arith)
                requires
                    base == row * (stride + 1),
                    row < height,
                    1 <= stride,
                    raw@.len() == height * (stride + 1),
            ;
        }
        let ft = raw[base];
        if ft > 4 {
            proof {
                assert(ftype(raw@, stride as int, row as int) == ft);
                assert(!filters_ok(raw@, stride as int, height as int));
            }
            return Err(Error::Filter);
        }
        let mut col: usize = 0;
        while col < stride
            invariant
                row < height,
                col <= stride,
                base == row * (stride + 1),
                base + stride + 1 <= raw@.len(),
                out@.len() == row * stride + col,
                ft == ftype(raw@, stride as int, row as int),
                ft <= 4,
                forall|r2: int| 0 <= r2 < row ==> #[trigger] ftype(raw@, stride as int, r2) <= 4,
                forall|r2: int, c2: int|
                    0 <= r2 < row && 0 <= c2 < stride ==> #[trigger] recon_at(
                        raw@,
                        stride as int,
                        bpp as int,
                        r2,
                        c2,
                    ) == out@[r2 * stride + c2],
                forall|c2: int|
                    0 <= c2 < col ==> #[trigger] recon_at(
                        raw@,
                        stride as int,
                        bpp as int,
                        row as int,
                        c2,
                    ) == out@[row * stride + c2],
            decreases stride - col,
        {
            let x = raw[base + 1 + col];
            let len = out.len();
            let a: u8 = if col >= bpp {
                proof {
                    assert(recon_at(raw@, stride as int, bpp as int, row as int, col - bpp as int)
                        == out@[row * stride + (col - bpp)]);
                }
                out[len - bpp]
            } else {
                0
            };
            let b: u8 = if row > 0 {
                proof {
                    assert((row - 1) * stride + col == row * stride + col - stride)
                        by (nonlinear_arith);
                    assert(recon_at(raw@, stride as int, bpp as int, row - 1, col as int) == out@[(
                    row - 1) * stride + col]);
                }
                out[len - stride]
            } else {
                0
            };
            let cd: u8 = if row > 0 && col >= bpp {
                proof {
                    assert((row - 1) * stride + (col - bpp) == row * stride + col - stride - bpp)
                        by (nonlinear_arith);
                    assert(recon_at(raw@, stride as int, bpp as int, row - 1, col - bpp as int)
                        == out@[(row - 1) * stride + (col - bpp)]);
                }
                out[len - stride - bpp]
            } else {
                0
            };
            let pred: u8 = if ft == 0 {
                0
            } else if ft == 1 {
                a
            } else if ft == 2 {
                b
            } else if ft == 3 {
                (((a as u16) + (b as u16)) / 2) as u8
            } else {
                paeth_predictor(a, b, cd)
            };
            let v: u8 = ((((x as u16) + (pred as u16)) % 256) as u8);
            proof {
                assert(raw@[row * (stride + 1) + 1 + col] == x);
                assert(recon_at(raw@, stride as int, bpp as int, row as int, col as int) == v);
            }
            let ghost prev = out@;
            out.push(v);
            proof {
                assert forall|r2: int, c2: int| 0 <= r2 < row && 0 <= c2 < stride implies recon_at(
                    raw@,
                    stride as int,
                    bpp as int,
                    r2,
                    c2,
                ) == out@[r2 * stride + c2] by {
                    assert(0 <= r2 * stride + c2 < row * stride) by (nonlinear_arith)
                        requires
                            0 <= r2 < row as int,
                            0 <= c2 < stride as int,
                    ;
                    assert(recon_at(raw@, stride as int, bpp as int, r2, c2) == prev[r2 * stride
                        + c2]);
                    assert(out@[r2 * stride + c2] == prev[r2 * stride + c2]);
                }
            }
            col = col + 1;
        }
        proof {
            assert(row * stride + stride == (row + 1) * stride) by (nonlinear_arith);
            assert(row * (stride + 1) + stride + 1 == (row + 1) * (stride + 1)) by (nonlinear_arith);
            assert forall|r2: int, c2: int| 0 <= r2 < row + 1 && 0 <= c2 < stride implies recon_at(
                raw@,
                stride as int,
                bpp as int,
                r2,
                c2,
            ) == out@[r2 * stride + c2] by {
                if r2 == row as int {
                    assert(recon_at(raw@, stride as int, bpp as int, row as int, c2) == out@[row
                        * stride + c2]);
                }
            }
        }
        row = row + 1;
        base = base + stride + 1;
    }
    proof {
        assert forall|k: int| 0 <= k < out@.len() implies #[trigger] out@[k] == src_byte(
            raw@,
            stride as int,
            bpp as int,
            k,
        ) by {
            let s = stride as int;
            vstd::arithmetic::div_mod::lemma_fundamental_div_mod(k, s);
            vstd::arithmetic::div_mod::lemma_mod_bound(k, s);
            let r2 = k / s;
            let c2 = k % s;
            assert(0 <= r2 < height && r2 * s + c2 == k) by (nonlinear_arith)
                requires
                    k == s * r2 + c2,
                    0 <= c2 < s,
                    0 <= k < height * s,
            ;
            assert(recon_at(raw@, s, bpp as int, r2, c2) == out@[r2 * s + c2]);
        }
        assert(out@ =~= unfiltered(raw@, stride as int, bpp as int, height as int));
    }
    Ok(out)
}

/// The number of samples per pixel of the fixed output formats.
pub open spec fn out_samples(f: Format) -> int {
    match f {
        Format::Rgba8 | Format::Rgba16 => 4,
        Format::Rgb8 => 3,
        Format::Ga8 | Format::Ga16 => 2,
        Format::G8 => 1,
        Format::Png | Format::Raw => 0,
    }
}

/// The source sample that carries a pixel's alpha, for sources that have
/// one.
pub open spec fn alpha_of(c: ColorType) -> Option<int> {
    match c {
        ColorType::GrayscaleAlpha => Some(1int),
        ColorType::TruecolorAlpha => Some(3int),
        _ => None,
    }
}

/// Which source sample feeds output sample `s` of a pixel under a fixed
/// output format with `os` samples: gray sources feed every color position
/// from their single gray sample, color sources feed position by position,
/// and a missing alpha sample means the output position is fully opaque.
pub open spec fn src_sample_for(c: ColorType, s: int, os: int) -> Option<int> {
    if os == 1 {
        Some(0int)
    } else if os == 2 {
        if s == 0 {
            Some(0int)
        } else {
            alpha_of(c)
        }
    } else {
        if s < 3 {
            match c {
                ColorType::Grayscale | ColorType::GrayscaleAlpha => Some(0int),
                _ => Some(s),
            }
        } else {
            alpha_of(c)
        }
    }
}

/// The byte distance between a byte and its left neighbor under scanline
/// filtering: the bytes per pixel, rounded up to one.
pub open spec fn bpp_of(samples: int, d: int) -> int {
    if samples * d < 8 {
        1
    } else {
        samples * d / 8
    }
}

/// The reconstructed image of `rows` rows of `stride` bytes, laid end to
/// end, obtained by reversing the scanline filters of `raw`.
pub open spec fn unfiltered(raw: Seq<u8>, stride: int, bpp: int, rows: int) -> Seq<u8> {
    Seq::new((rows * stride) as nat, |k: int| src_byte(raw, stride, bpp, k))
}

/// The power of two that a bit position within a byte divides by: `2^sh`
/// for the shifts that occur in a byte.
pub open spec fn shift_div(sh: int) -> int {
    if sh <= 0 {
        1
    } else if sh == 1 {
        2
    } else if sh == 2 {
        4
    } else if sh == 3 {
        8
    } else if sh == 4 {
        16
    } else if sh == 5 {
        32
    } else if sh == 6 {
        64
    } else {
        128
    }
}

/// The raw value of single-sample pixel `p` in a reconstructed image `u` of
/// `w`-pixel rows of `stride` bytes at depth `d`: the byte itself at depth
/// 8, otherwise the `d` bits packed big-endian within the row's bytes.
pub open spec fn pix_index(u: Seq<u8>, d: int, w: int, stride: int, p: int) -> int {
    if d == 8 {
        u[p] as int
    } else {
        let y = p / w;
        let x = p % w;
        let byte = u[y * stride + (x * d) / 8] as int;
        let sh = 8 - d - ((x * d) % 8);
        (byte / shift_div(sh)) % (if d == 1 {
            2
        } else if d == 2 {
            4
        } else {
            16
        })
    }
}

/// A sub-byte gray sample scaled to 8 bits: the depth's maximum maps to
/// 255, by replicating the value across the byte.
pub open spec fn scale_to_8(v: int, d: int) -> u8 {
    if d == 1 {
        (v * 255) as u8
    } else if d == 2 {
        (v * 85) as u8
    } else {
        (v * 17) as u8
    }
}

/// Whether every pixel of a palette-indexed reconstruction names an entry
/// within a palette of `entries` entries.
pub open spec fn indices_ok(
    u: Seq<u8>,
    d: int,
    w: int,
    stride: int,
    rows: int,
    entries: int,
) -> bool {
    forall|p: int| 0 <= p < w * rows ==> #[trigger] pix_index(u, d, w, stride, p) < entries
}

/// The 8-bit value of source sample `k` of pixel `p` in the reconstructed
/// image `u`: the sample itself for 8-bit sources, the high byte for 16-bit
/// sources, the scaled gray value for sub-byte gray sources, and palette
/// channel `k` of the named entry for indexed sources.
pub open spec fn sample8(
    u: Seq<u8>,
    c: ColorType,
    d: int,
    w: int,
    stride: int,
    plte: Seq<u8>,
    p: int,
    k: int,
) -> u8 {
    let is = samples_of(c);
    if c is Indexed {
        plte[3 * pix_index(u, d, w, stride, p) + k]
    } else if d == 16 {
        u[2 * (is * p + k)]
    } else if d == 8 {
        u[is * p + k]
    } else {
        scale_to_8(pix_index(u, d, w, stride, p), d)
    }
}

/// One byte of the 16-bit host-endian value of source sample `k` of pixel
/// `p`: 16-bit samples are stored big-endian in the source and re-ordered
/// low-byte-first; everything else widens its 8-bit value `v` to `v * 257`,
/// whose two bytes are both `v`.
pub open spec fn sample16_byte(
    u: Seq<u8>,
    c: ColorType,
    d: int,
    w: int,
    stride: int,
    plte: Seq<u8>,
    p: int,
    k: int,
    low: bool,
) -> u8 {
    if !(c is Indexed) && d == 16 {
        if low {
            u[2 * (samples_of(c) * p + k) + 1]
        } else {
            u[2 * (samples_of(c) * p + k)]
        }
    } else {
        sample8(u, c, d, w, stride, plte, p, k)
    }
}

/// Byte `j` of the decoded output for a source of color type `c` at bit
/// depth `d`, whose reconstructed image bytes are `u`.
///
/// The big-endian pass-through format copies the reconstruction unchanged;
/// the host-endian pass-through format additionally swaps the two bytes of
/// each 16-bit sample.  The fixed formats assemble each output sample from
/// the source sample [`src_sample_for`] chooses, at their own depth.
pub open spec fn out_byte(
    f: Format,
    c: ColorType,
    d: int,
    w: int,
    stride: int,
    plte: Seq<u8>,
    u: Seq<u8>,
    j: int,
) -> u8 {
    match f {
        Format::Raw => u[j],
        Format::Png => if d == 16 {
            u[2 * (j / 2) + (1 - (j % 2))]
        } else {
            u[j]
        },
        Format::Rgba8 | Format::Rgb8 | Format::G8 | Format::Ga8 => {
            let os = out_samples(f);
            let p = j / os;
            let s = j % os;
            match src_sample_for(c, s, os) {
                None => 255u8,
                Some(k) => sample8(u, c, d, w, stride, plte, p, k),
            }
        },
        Format::Rgba16 | Format::Ga16 => {
            let os = out_samples(f);
            let p = j / (2 * os);
            let s = (j % (2 * os)) / 2;
            let low = (j % 2) == 0;
            match src_sample_for(c, s, os) {
                None => 255u8,
                Some(k) => sample16_byte(u, c, d, w, stride, plte, p, k, low),
            }
        },
    }
}

/// The whole decoded output of `out_size` bytes, byte by byte.
pub open spec fn output_bytes(
    f: Format,
    c: ColorType,
    d: int,
    w: int,
    stride: int,
    plte: Seq<u8>,
    u: Seq<u8>,
    out_size: int,
) -> Seq<u8> {
    Seq::new(out_size as nat, |j: int| out_byte(f, c, d, w, stride, plte, u, j))
}

/// The exec counterpart of [`out_samples`].
fn out_samples_exec(f: Format) -> (r: usize)
    ensures
        r as int == out_samples(f),
{
    match f {
        Format::Rgba8 | Format::Rgba16 => 4,
        Format::Rgb8 => 3,
        Format::Ga8 | Format::Ga16 => 2,
        Format::G8 => 1,
        Format::Png | Format::Raw => 0,
    }
}

/// The exec counterpart of [`src_sample_for`]; under the supported
/// source/format combinations the chosen sample index always lies within the
/// source pixel.
fn sample_source(c: ColorType, s: usize, os: usize) -> (r: Option<usize>)
    requires
        1 <= os <= 4,
        s < os,
        os <= 2 ==> (c is Grayscale || c is GrayscaleAlpha),
    ensures
        match r {
            Some(k) => {
                &&& src_sample_for(c, s as int, os as int) == Some(k as int)
                &&& c is Indexed ==> (k as int) < 3
                &&& !(c is Indexed) ==> (k as int) < samples_of(c)
            },
            None => src_sample_for(c, s as int, os as int) is None,
        },
{
    if os == 1 {
        Some(0)
    } else if os == 2 {
        if s == 0 {
            Some(0)
        } else {
            match c {
                ColorType::GrayscaleAlpha => Some(1),
                ColorType::TruecolorAlpha => Some(3),
                _ => None,
            }
        }
    } else {
        if s < 3 {
            match c {
                ColorType::Grayscale | ColorType::GrayscaleAlpha => Some(0),
                _ => Some(s),
            }
        } else {
            match c {
                ColorType::GrayscaleAlpha => Some(1),
                ColorType::TruecolorAlpha => Some(3),
                _ => None,
            }
        }
    }
}

/// The value of single-sample pixel `p`; the exec counterpart of
/// [`pix_index`].  The result always fits the depth: below `2^d`.
fn pixel_index(recon: &Vec<u8>, d: u8, w: u32, h: u32, stride: usize, p: usize) -> (r: usize)
    requires
        d == 1 || d == 2 || d == 4 || d == 8,
        1 <= w,
        1 <= h,
        stride as int == crate::format::row_bytes(w as int, 1, d as int),
        recon@.len() == (h as int) * (stride as int),
        (p as int) < (w as int) * (h as int),
    ensures
        r as int == pix_index(recon@, d as int, w as int, stride as int, p as int),
        r < 256,
        d == 1 ==> r < 2,
        d == 2 ==> r < 4,
        d == 4 ==> r < 16,
{
    let rl = recon.len();
    if d == 8 {
        proof {
            crate::format::lemma_row_bytes_exact(w as int, 1);
            assert((p as int) < (h as int) * (stride as int)) by (nonlinear_arith)
                requires
                    (p as int) < (w as int) * (h as int),
                    stride as int == (w as int) * 1,
                    1 <= h,
            ;
        }
        recon[p] as usize
    } else {
        let wz = w as usize;
        let y = p / wz;
        let x = p % wz;
        let per: usize = if d == 1 {
            8
        } else if d == 2 {
            4
        } else {
            2
        };
        let q = x / per;
        let pos = x % per;
        let sh: usize = 8 - (d as usize) - pos * (d as usize);
        proof {
            vstd::arithmetic::div_mod::lemma_fundamental_div_mod(p as int, wz as int);
            vstd::arithmetic::div_mod::lemma_mod_bound(p as int, wz as int);
            assert((y as int) < h as int) by (nonlinear_arith)
                requires
                    (p as int) == (wz as int) * (y as int) + (x as int),
                    0 <= (x as int) < (wz as int),
                    (p as int) < (wz as int) * (h as int),
                    0 <= y as int,
            ;
            vstd::arithmetic::div_mod::lemma_fundamental_div_mod(x as int, per as int);
            vstd::arithmetic::div_mod::lemma_mod_bound(x as int, per as int);
            assert((x as int) * (d as int) == 8 * (q as int) + (pos as int) * (d as int) && 0 <= (
            pos as int) * (d as int) <= 8 - (d as int)) by (nonlinear_arith)
                requires
                    (x as int) == (per as int) * (q as int) + (pos as int),
                    0 <= (pos as int) < (per as int),
                    (per as int) * (d as int) == 8,
                    0 <= q as int,
                    1 <= d as int,
            ;
            vstd::arithmetic::div_mod::lemma_fundamental_div_mod_converse(
                (x as int) * (d as int),
                8,
                q as int,
                (pos as int) * (d as int),
            );
            // The byte holding the pixel lies inside the row.
            let wd = (w as int) * (d as int);
            assert((x as int) * (d as int) <= wd - 1) by (nonlinear_arith)
                requires
                    (x as int) < (w as int),
                    1 <= d as int,
                    wd == (w as int) * (d as int),
            ;
            vstd::arithmetic::div_mod::lemma_div_is_ordered((x as int) * (d as int), wd - 1, 8);
            vstd::arithmetic::div_mod::lemma_fundamental_div_mod(wd - 1, 8);
            vstd::arithmetic::div_mod::lemma_mod_bound(wd - 1, 8);
            vstd::arithmetic::div_mod::lemma_fundamental_div_mod_converse(
                wd + 7,
                8,
                (wd - 1) / 8 + 1,
                (wd - 1) % 8,
            );
            assert((q as int) < stride as int);
            assert((y as int) * (stride as int) + (q as int) < (h as int) * (stride as int))
                by (nonlinear_arith)
                requires
                    0 <= y as int,
                    (y as int) < (h as int),
                    0 <= q as int,
                    (q as int) < (stride as int),
            ;
        }
        let byte = recon[y * stride + q];
        let divisor: u32 = if sh == 0 {
            1
        } else if sh == 1 {
            2
        } else if sh == 2 {
            4
        } else if sh == 3 {
            8
        } else if sh == 4 {
            16
        } else if sh == 5 {
            32
        } else if sh == 6 {
            64
        } else {
            128
        };
        let m: u32 = if d == 1 {
            2
        } else if d == 2 {
            4
        } else {
            16
        };
        let v = ((byte as u32) / divisor) % m;
        proof {
            assert(divisor as int == shift_div(sh as int));
            vstd::arithmetic::div_mod::lemma_mod_bound(((byte as u32) / divisor) as int, m as int);
        }
        v as usize
    }
}

/// A sub-byte gray sample scaled to 8 bits; the exec counterpart of
/// [`scale_to_8`].
fn scale_sample(v: usize, d: u8) -> (r: u8)
    requires
        d == 1 || d == 2 || d == 4,
        d == 1 ==> v < 2,
        d == 2 ==> v < 4,
        d == 4 ==> v < 16,
    ensures
        r == scale_to_8(v as int, d as int),
{
    if d == 1 {
        (v * 255) as u8
    } else if d == 2 {
        (v * 85) as u8
    } else {
        (v * 17) as u8
    }
}

/// Checks that every pixel of a palette-indexed reconstruction names one of
/// the palette's `entries` entries; the exec counterpart of [`indices_ok`].
#[verifier::loop_isolation(false)]
pub(crate) fn check_indices(
    recon: &Vec<u8>,
    d: u8,
    w: u32,
    h: u32,
    stride: usize,
    entries: usize,
) -> (r: bool)
    requires
        d == 1 || d == 2 || d == 4 || d == 8,
        1 <= w,
        1 <= h,
        stride as int == crate::format::row_bytes(w as int, 1, d as int),
        recon@.len() == (h as int) * (stride as int),
        (w as int) * (h as int) <= usize::MAX,
    ensures
        r == indices_ok(
            recon@,
            d as int,
            w as int,
            stride as int,
            h as int,
            entries as int,
        ),
{
    let total: usize = (w as usize) * (h as usize);
    let mut p: usize = 0;
    while p < total
        invariant
            p <= total,
            total == (w as int) * (h as int),
            forall|q: int|
                0 <= q < p ==> #[trigger] pix_index(
                    recon@,
                    d as int,
                    w as int,
                    stride as int,
                    q,
                ) < entries,
        decreases total - p,
    {
        let v = pixel_index(recon, d, w, h, stride, p);
        if v >= entries {
            proof {
                assert(pix_index(recon@, d as int, w as int, stride as int, p as int)
                    >= entries);
            }
            return false;
        }
        p = p + 1;
    }
    true
}

/// Computes byte `j` of the decoded output from the reconstructed image
/// bytes `recon` and the palette `plte`; the exec counterpart of
/// [`out_byte`].
#[verifier::rlimit(100)]
fn conv_byte(
    f: Format,
    c: ColorType,
    d: u8,
    w: u32,
    h: u32,
    stride: usize,
    plte: &Vec<u8>,
    recon: &Vec<u8>,
    j: usize,
    out_size: usize,
) -> (r: u8)
    requires
        1 <= w,
        1 <= h,
        j < out_size,
        crate::format::depth_valid_for(c, d as int),
        stride as int == crate::format::row_bytes(w as int, samples_of(c), d as int),
        recon@.len() == (h as int) * (stride as int),
        d == 8 ==> recon@.len() == (h as int) * (w as int) * samples_of(c),
        d == 16 ==> recon@.len() == 2 * (h as int) * (w as int) * samples_of(c),
        (f is Png || f is Raw) ==> out_size as int == recon@.len(),
        (f is Png && d == 16) ==> out_size % 2 == 0,
        (f is Rgba8 || f is Rgb8 || f is G8 || f is Ga8) ==> out_size as int == (h as int) * (
        w as int) * out_samples(f),
        (f is Rgba16 || f is Ga16) ==> out_size as int == 2 * (h as int) * (w as int)
            * out_samples(f),
        (f is G8 || f is Ga8 || f is Ga16) ==> (c is Grayscale || c is GrayscaleAlpha),
        (!(f is Png || f is Raw) && c is Indexed) ==> plte@.len() >= 3 && indices_ok(
            recon@,
            d as int,
            w as int,
            stride as int,
            h as int,
            (plte@.len() as int) / 3,
        ),
    ensures
        r == out_byte(f, c, d as int, w as int, stride as int, plte@, recon@, j as int),
{
    let rl = recon.len();
    match f {
        Format::Raw => recon[j],
        Format::Png => {
            if d == 16 {
                let k = if j % 2 == 0 {
                    j + 1
                } else {
                    j - 1
                };
                proof {
                    vstd::arithmetic::div_mod::lemma_fundamental_div_mod(j as int, 2);
                    vstd::arithmetic::div_mod::lemma_mod_bound(j as int, 2);
                    assert(k as int == 2 * ((j as int) / 2) + (1 - ((j as int) % 2)));
                }
                recon[k]
            } else {
                recon[j]
            }
        },
        Format::Rgba8 | Format::Rgb8 | Format::G8 | Format::Ga8 => {
            let os = out_samples_exec(f);
            let p = j / os;
            let sm = j % os;
            proof {
                vstd::arithmetic::div_mod::lemma_fundamental_div_mod(j as int, os as int);
                vstd::arithmetic::div_mod::lemma_mod_bound(j as int, os as int);
                assert((p as int) < (h as int) * (w as int)) by (nonlinear_arith)
                    requires
                        (j as int) < (h as int) * (w as int) * (os as int),
                        (j as int) == (os as int) * (p as int) + (sm as int),
                        0 <= (sm as int) < (os as int),
                        0 <= p as int,
                ;
                assert((h as int) * (w as int) == (w as int) * (h as int)) by (nonlinear_arith);
            }
            match sample_source(c, sm, os) {
                None => 255,
                Some(k) => fetch_sample8(c, d, w, h, stride, plte, recon, p, k),
            }
        },
        Format::Rgba16 | Format::Ga16 => {
            let os = out_samples_exec(f);
            let os2 = 2 * os;
            let p = j / os2;
            let rem = j % os2;
            let sm = rem / 2;
            let low = j % 2 == 0;
            proof {
                vstd::arithmetic::div_mod::lemma_fundamental_div_mod(j as int, os2 as int);
                vstd::arithmetic::div_mod::lemma_mod_bound(j as int, os2 as int);
                vstd::arithmetic::div_mod::lemma_fundamental_div_mod(rem as int, 2);
                vstd::arithmetic::div_mod::lemma_mod_bound(rem as int, 2);
                vstd::arithmetic::div_mod::lemma_fundamental_div_mod(j as int, 2);
                vstd::arithmetic::div_mod::lemma_mod_bound(j as int, 2);
                assert((p as int) < (h as int) * (w as int)) by (nonlinear_arith)
                    requires
                        (j as int) < 2 * (h as int) * (w as int) * (os as int),
                        (os2 as int) == 2 * (os as int),
                        (j as int) == (os2 as int) * (p as int) + (rem as int),
                        0 <= (rem as int) < (os2 as int),
                        0 <= p as int,
                ;
                assert((h as int) * (w as int) == (w as int) * (h as int)) by (nonlinear_arith);
                assert((sm as int) < (os as int));
                assert((sm as int) == ((j as int) % (2 * (os as int))) / 2);
                assert(low == (((j as int) % 2) == 0));
            }
            match sample_source(c, sm, os) {
                None => 255,
                Some(k) => {
                    if !matches!(c, ColorType::Indexed) && d == 16 {
                        let is = c.samples();
                        proof {
                            lemma_pixel_bytes(h as int, w as int, is as int, p as int, k as int);
                        }
                        let base_idx = is * p + k;
                        if low {
                            recon[2 * base_idx + 1]
                        } else {
                            recon[2 * base_idx]
                        }
                    } else {
                        fetch_sample8(c, d, w, h, stride, plte, recon, p, k)
                    }
                },
            }
        },
    }
}

/// A sample position times the samples per pixel stays inside the image.
proof fn lemma_pixel_bytes(h: int, w: int, is: int, p: int, k: int)
    requires
        0 <= p < w * h,
        0 <= k < is,
        1 <= is,
    ensures
        0 <= is * p + k,
        is * p + k < (h * w) * is,
        (h * w) * is == h * w * is,
        2 * ((h * w) * is) == 2 * h * w * is,
        h * w == w * h,
    decreases 0int,
{
    assert(is * p + k < (h * w) * is && (h * w) * is == h * w * is && 2 * ((h * w) * is) == 2 * h
        * w * is && h * w == w * h) by (nonlinear_arith)
        requires
            0 <= p < w * h,
            0 <= k < is,
            1 <= is,
    ;
}

/// Fetches the 8-bit value of source sample `k` of pixel `p`; the exec
/// counterpart of [`sample8`].
#[verifier::rlimit(100)]
fn fetch_sample8(
    c: ColorType,
    d: u8,
    w: u32,
    h: u32,
    stride: usize,
    plte: &Vec<u8>,
    recon: &Vec<u8>,
    p: usize,
    k: usize,
) -> (r: u8)
    requires
        1 <= w,
        1 <= h,
        crate::format::depth_valid_for(c, d as int),
        stride as int == crate::format::row_bytes(w as int, samples_of(c), d as int),
        recon@.len() == (h as int) * (stride as int),
        d == 8 ==> recon@.len() == (h as int) * (w as int) * samples_of(c),
        d == 16 ==> recon@.len() == 2 * (h as int) * (w as int) * samples_of(c),
        (p as int) < (w as int) * (h as int),
        !(c is Indexed) ==> (k as int) < samples_of(c),
        c is Indexed ==> (k as int) < 3,
        c is Indexed ==> plte@.len() >= 3 && indices_ok(
            recon@,
            d as int,
            w as int,
            stride as int,
            h as int,
            (plte@.len() as int) / 3,
        ),
    ensures
        r == sample8(recon@, c, d as int, w as int, stride as int, plte@, p as int, k as int),
{
    let rl = recon.len();
    if matches!(c, ColorType::Indexed) {
        let idx = pixel_index(recon, d, w, h, stride, p);
        proof {
            let pl = plte@.len() as int;
            assert(pix_index(recon@, d as int, w as int, stride as int, p as int) < pl / 3);
            vstd::arithmetic::div_mod::lemma_fundamental_div_mod(pl, 3);
            vstd::arithmetic::div_mod::lemma_mod_bound(pl, 3);
        }
        plte[3 * idx + k]
    } else if d == 8 {
        let is = c.samples();
        proof {
            lemma_pixel_bytes(h as int, w as int, is as int, p as int, k as int);
        }
        recon[is * p + k]
    } else if d == 16 {
        let is = c.samples();
        proof {
            lemma_pixel_bytes(h as int, w as int, is as int, p as int, k as int);
        }
        recon[2 * (is * p + k)]
    } else {
        let v = pixel_index(recon, d, w, h, stride, p);
        scale_sample(v, d)
    }
}

/// Writes the decoded output for the reconstructed image `recon` and the
/// palette `plte` into `out[0..out_size]`, leaving the rest of `out`
/// unchanged.
#[verifier::loop_isolation(false)]
pub(crate) fn convert(
    f: Format,
    c: ColorType,
    d: u8,
    w: u32,
    h: u32,
    stride: usize,
    plte: &Vec<u8>,
    recon: &Vec<u8>,
    out: &mut Vec<u8>,
    out_size: usize,
)
    requires
        1 <= w,
        1 <= h,
        crate::format::depth_valid_for(c, d as int),
        stride as int == crate::format::row_bytes(w as int, samples_of(c), d as int),
        recon@.len() == (h as int) * (stride as int),
        d == 8 ==> recon@.len() == (h as int) * (w as int) * samples_of(c),
        d == 16 ==> recon@.len() == 2 * (h as int) * (w as int) * samples_of(c),
        (f is Png || f is Raw) ==> out_size as int == recon@.len(),
        (f is Png && d == 16) ==> out_size % 2 == 0,
        (f is Rgba8 || f is Rgb8 || f is G8 || f is Ga8) ==> out_size as int == (h as int) * (
        w as int) * out_samples(f),
        (f is Rgba16 || f is Ga16) ==> out_size as int == 2 * (h as int) * (w as int)
            * out_samples(f),
        (f is G8 || f is Ga8 || f is Ga16) ==> (c is Grayscale || c is GrayscaleAlpha),
        (!(f is Png || f is Raw) && c is Indexed) ==> plte@.len() >= 3 && indices_ok(
            recon@,
            d as int,
            w as int,
            stride as int,
            h as int,
            (plte@.len() as int) / 3,
        ),
        old(out)@.len() >= out_size,
    ensures
        final(out)@.len() == old(out)@.len(),
        final(out)@ == output_bytes(
            f,
            c,
            d as int,
            w as int,
            stride as int,
            plte@,
            recon@,
            out_size as int,
        ) + old(out)@.skip(out_size as int),
{
    let mut j: usize = 0;
    while j < out_size
        invariant
            j <= out_size,
            out@.len() == old(out)@.len(),
            forall|i: int|
                0 <= i < j ==> out@[i] == out_byte(
                    f,
                    c,
                    d as int,
                    w as int,
                    stride as int,
                    plte@,
                    recon@,
                    i,
                ),
            forall|i: int| j <= i < out@.len() ==> out@[i] == old(out)@[i],
        decreases out_size - j,
    {
        let b = conv_byte(f, c, d, w, h, stride, plte, recon, j, out_size);
        out.set(j, b);
        j = j + 1;
    }
    proof {
        assert(out@ =~= output_bytes(
            f,
            c,
            d as int,
            w as int,
            stride as int,
            plte@,
            recon@,
            out_size as int,
        ) + old(out)@.skip(out_size as int));
    }
}

} // verus!
