//! The interlaced pixel layout: seven sub-image passes over the image grid,
//! each filtered independently, reconstructed and gathered back into the
//! full image.  Only whole-byte pixels (bit depths 8 and 16) are laid out
//! this way here.

use vstd::prelude::*;

use crate::chunk::extend_from;
use crate::error::Error;
use crate::pixels::{filters_ok, unfilter, unfiltered};

verus! {

/// The column the pass starts at.
pub open spec fn pass_x0(p: int) -> int {
    if p == 0 {
        0
    } else if p == 1 {
        4
    } else if p == 2 {
        0
    } else if p == 3 {
        2
    } else if p == 4 {
        0
    } else if p == 5 {
        1
    } else {
        0
    }
}

/// The row the pass starts at.
pub open spec fn pass_y0(p: int) -> int {
    if p == 2 {
        4
    } else if p == 4 {
        2
    } else if p == 6 {
        1
    } else {
        0
    }
}

/// The column step of the pass.
pub open spec fn pass_dx(p: int) -> int {
    if p == 0 || p == 1 {
        8
    } else if p == 2 || p == 3 {
        4
    } else if p == 4 || p == 5 {
        2
    } else {
        1
    }
}

/// The row step of the pass.
pub open spec fn pass_dy(p: int) -> int {
    if p == 0 || p == 1 || p == 2 {
        8
    } else if p == 3 || p == 4 {
        4
    } else {
        2
    }
}

/// How many pixels of a `w`-pixel row the pass holds.
pub open spec fn pass_w(w: int, p: int) -> int {
    if w > pass_x0(p) {
        (w - pass_x0(p) + pass_dx(p) - 1) / pass_dx(p)
    } else {
        0
    }
}

/// How many rows of an `h`-row image the pass holds.
pub open spec fn pass_h(h: int, p: int) -> int {
    if h > pass_y0(p) {
        (h - pass_y0(p) + pass_dy(p) - 1) / pass_dy(p)
    } else {
        0
    }
}

/// The byte length of the pass's filtered rows in the raw stream: one
/// filter byte plus the row's pixel bytes per row; an empty pass
/// contributes nothing, not even filter bytes.
pub open spec fn pass_bytes(w: int, h: int, bpx: int, p: int) -> int {
    if pass_w(w, p) > 0 && pass_h(h, p) > 0 {
        pass_h(h, p) * (1 + pass_w(w, p) * bpx)
    } else {
        0
    }
}

/// Where the pass's filtered rows start within the raw stream: the passes
/// lie end to end in order.
pub open spec fn pass_off(w: int, h: int, bpx: int, p: int) -> int
    decreases p,
{
    if p <= 0 {
        0
    } else {
        pass_off(w, h, bpx, p - 1) + pass_bytes(w, h, bpx, p - 1)
    }
}

/// The pass's filtered segment of the raw stream.
pub open spec fn pass_seg(raw: Seq<u8>, w: int, h: int, bpx: int, p: int) -> Seq<u8> {
    raw.subrange(pass_off(w, h, bpx, p), pass_off(w, h, bpx, p) + pass_bytes(w, h, bpx, p))
}

/// The pass that owns full-image pixel `(x, y)` under the interlace grid.
pub open spec fn owner_pass(x: int, y: int) -> int {
    if y % 2 == 1 {
        6
    } else if x % 2 == 1 {
        5
    } else if y % 4 == 2 {
        4
    } else if x % 4 == 2 {
        3
    } else if y % 8 == 4 {
        2
    } else if x % 8 == 4 {
        1
    } else {
        0
    }
}

/// Whether every row of every nonempty pass names a defined filter.
pub open spec fn ifilters_ok(raw: Seq<u8>, w: int, h: int, bpx: int) -> bool {
    forall|p: int|
        0 <= p < 7 && pass_w(w, p) > 0 && pass_h(h, p) > 0 ==> #[trigger] filters_ok(
            pass_seg(raw, w, h, bpx, p),
            pass_w(w, p) * bpx,
            pass_h(h, p),
        )
}

/// Byte `k` of the deinterlaced image: the pixel's owning pass is
/// reconstructed on its own, and the pixel's bytes are read from its
/// position within that pass.
pub open spec fn deinterlaced_byte(raw: Seq<u8>, w: int, h: int, bpx: int, k: int) -> u8 {
    let stride = w * bpx;
    let y = k / stride;
    let i = k % stride;
    let x = i / bpx;
    let b = i % bpx;
    let p = owner_pass(x, y);
    let pw = pass_w(w, p);
    let ph = pass_h(h, p);
    let px = (x - pass_x0(p)) / pass_dx(p);
    let py = (y - pass_y0(p)) / pass_dy(p);
    unfiltered(pass_seg(raw, w, h, bpx, p), pw * bpx, bpx, ph)[(py * pw + px) * bpx + b]
}

/// The whole deinterlaced image: `h` rows of `w` pixels of `bpx` bytes.
pub open spec fn deinterlaced(raw: Seq<u8>, w: int, h: int, bpx: int) -> Seq<u8> {
    Seq::new((h * (w * bpx)) as nat, |k: int| deinterlaced_byte(raw, w, h, bpx, k))
}

/// The owning pass's grid always contains the pixel it owns: the pixel's
/// coordinates land exactly on the pass's start and step.
proof fn lemma_owner(x: int, y: int)
    requires
        0 <= x,
        0 <= y,
    ensures
        ({
            let p = owner_pass(x, y);
            &&& 0 <= p < 7
            &&& x % pass_dx(p) == pass_x0(p)
            &&& y % pass_dy(p) == pass_y0(p)
        }),
{
    vstd::arithmetic::div_mod::lemma_mod_mod(x, 2, 2);
    vstd::arithmetic::div_mod::lemma_mod_mod(x, 4, 2);
    vstd::arithmetic::div_mod::lemma_mod_mod(y, 2, 2);
    vstd::arithmetic::div_mod::lemma_mod_mod(y, 4, 2);
    vstd::arithmetic::div_mod::lemma_mod_bound(x, 2);
    vstd::arithmetic::div_mod::lemma_mod_bound(x, 4);
    vstd::arithmetic::div_mod::lemma_mod_bound(x, 8);
    vstd::arithmetic::div_mod::lemma_mod_bound(y, 2);
    vstd::arithmetic::div_mod::lemma_mod_bound(y, 4);
    vstd::arithmetic::div_mod::lemma_mod_bound(y, 8);
    vstd::arithmetic::div_mod::lemma_fundamental_div_mod(x, 1);
}

/// A coordinate on the pass grid lies strictly inside the pass's pixel
/// count.
proof fn lemma_pass_coord(w: int, x: int, x0: int, dx: int)
    requires
        0 <= x < w,
        0 < dx,
        0 <= x0 < dx,
        x % dx == x0,
    ensures
        0 <= (x - x0) / dx,
        w > x0,
        (x - x0) / dx < (w - x0 + dx - 1) / dx,
        ((x - x0) / dx) * dx + x0 == x,
{
    vstd::arithmetic::div_mod::lemma_fundamental_div_mod(x, dx);
    let q = x / dx;
    assert(x == dx * q + x0);
    assert(q >= 0) by (nonlinear_arith)
        requires
            x == dx * q + x0,
            0 <= x,
            0 <= x0 < dx,
    ;
    assert(x - x0 == q * dx + 0) by (nonlinear_arith)
        requires
            x == dx * q + x0,
    ;
    vstd::arithmetic::div_mod::lemma_fundamental_div_mod_converse(x - x0, dx, q, 0);
    assert(x >= x0);
    vstd::arithmetic::div_mod::lemma_fundamental_div_mod(w - 1 - x0, dx);
    vstd::arithmetic::div_mod::lemma_mod_bound(w - 1 - x0, dx);
    let m = (w - 1 - x0) / dx;
    assert(w - x0 + dx - 1 == (m + 1) * dx + (w - 1 - x0) % dx) by (nonlinear_arith)
        requires
            w - 1 - x0 == dx * m + (w - 1 - x0) % dx,
    ;
    vstd::arithmetic::div_mod::lemma_fundamental_div_mod_converse(
        w - x0 + dx - 1,
        dx,
        m + 1,
        (w - 1 - x0) % dx,
    );
    vstd::arithmetic::div_mod::lemma_div_is_ordered(x - x0, w - 1 - x0, dx);
}

/// The pass offsets grow along the stream.
proof fn lemma_pass_off_le(w: int, h: int, bpx: int, p1: int, p2: int)
    requires
        0 <= p1 <= p2,
        0 <= w,
        0 <= h,
        0 <= bpx,
    ensures
        pass_off(w, h, bpx, p1) <= pass_off(w, h, bpx, p2),
        0 <= pass_off(w, h, bpx, p1),
    decreases p2,
{
    if p2 > p1 {
        lemma_pass_off_le(w, h, bpx, p1, p2 - 1);
        lemma_pass_bytes_nonneg(w, h, bpx, p2 - 1);
    } else if p2 > 0 {
        lemma_pass_off_le(w, h, bpx, 0, p2 - 1);
        lemma_pass_bytes_nonneg(w, h, bpx, p2 - 1);
    }
}

/// A pass's byte length is never negative.
proof fn lemma_pass_bytes_nonneg(w: int, h: int, bpx: int, p: int)
    requires
        0 <= w,
        0 <= h,
        0 <= bpx,
    ensures
        0 <= pass_bytes(w, h, bpx, p),
{
    if pass_w(w, p) > 0 && pass_h(h, p) > 0 {
        assert(pass_h(h, p) * (1 + pass_w(w, p) * bpx) >= 0) by (nonlinear_arith)
            requires
                pass_w(w, p) > 0,
                pass_h(h, p) > 0,
                0 <= bpx,
        ;
    }
}

/// The start and step of each pass; the exec counterpart of the four grid
/// tables.
fn pass_grid(p: usize) -> (r: (usize, usize, usize, usize))
    requires
        p < 7,
    ensures
        r.0 == pass_x0(p as int),
        r.1 == pass_y0(p as int),
        r.2 == pass_dx(p as int),
        r.3 == pass_dy(p as int),
{
    if p == 0 {
        (0, 0, 8, 8)
    } else if p == 1 {
        (4, 0, 8, 8)
    } else if p == 2 {
        (0, 4, 4, 8)
    } else if p == 3 {
        (2, 0, 4, 4)
    } else if p == 4 {
        (0, 2, 2, 4)
    } else if p == 5 {
        (1, 0, 2, 2)
    } else {
        (0, 1, 1, 2)
    }
}

/// The pass's pixel dimensions; the exec counterpart of [`pass_w`] and
/// [`pass_h`].
fn pass_dims(w: u32, h: u32, p: usize) -> (r: (usize, usize))
    requires
        p < 7,
    ensures
        r.0 == pass_w(w as int, p as int),
        r.1 == pass_h(h as int, p as int),
        r.0 <= w,
        r.1 <= h,
{
    let g = pass_grid(p);
    let wz = w as u64;
    let hz = h as u64;
    let pw = (if wz > g.0 as u64 {
        (wz - g.0 as u64 + g.2 as u64 - 1) / (g.2 as u64)
    } else {
        0
    }) as usize;
    let ph = (if hz > g.1 as u64 {
        (hz - g.1 as u64 + g.3 as u64 - 1) / (g.3 as u64)
    } else {
        0
    }) as usize;
    proof {
        if wz > g.0 as u64 {
            vstd::arithmetic::div_mod::lemma_fundamental_div_mod(
                wz as int - g.0 as int + g.2 as int - 1,
                g.2 as int,
            );
            vstd::arithmetic::div_mod::lemma_mod_bound(
                wz as int - g.0 as int + g.2 as int - 1,
                g.2 as int,
            );
            assert(pw as int <= w as int) by (nonlinear_arith)
                requires
                    (wz as int - g.0 as int + g.2 as int - 1) == (g.2 as int) * (pw as int) + ((
                    wz as int - g.0 as int + g.2 as int - 1) % (g.2 as int)),
                    0 <= (wz as int - g.0 as int + g.2 as int - 1) % (g.2 as int),
                    1 <= g.2 as int,
                    0 <= g.0 as int,
                    wz == w,
                    wz > g.0 as u64,
            ;
        }
        if hz > g.1 as u64 {
            vstd::arithmetic::div_mod::lemma_fundamental_div_mod(
                hz as int - g.1 as int + g.3 as int - 1,
                g.3 as int,
            );
            vstd::arithmetic::div_mod::lemma_mod_bound(
                hz as int - g.1 as int + g.3 as int - 1,
                g.3 as int,
            );
            assert(ph as int <= h as int) by (nonlinear_arith)
                requires
                    (hz as int - g.1 as int + g.3 as int - 1) == (g.3 as int) * (ph as int) + ((
                    hz as int - g.1 as int + g.3 as int - 1) % (g.3 as int)),
                    0 <= (hz as int - g.1 as int + g.3 as int - 1) % (g.3 as int),
                    1 <= g.3 as int,
                    0 <= g.1 as int,
                    hz == h,
                    hz > g.1 as u64,
            ;
        }
    }
    (pw, ph)
}

/// The total byte length of all seven passes' filtered rows.
pub(crate) fn interlaced_total(w: u32, h: u32, bpx: usize) -> (r: u128)
    requires
        1 <= bpx <= 8,
    ensures
        r == pass_off(w as int, h as int, bpx as int, 7),
{
    let mut total: u128 = 0;
    let mut p: usize = 0;
    while p < 7
        invariant
            p <= 7,
            1 <= bpx <= 8,
            total == pass_off(w as int, h as int, bpx as int, p as int),
            total <= (p as u128) * (0xFFFF_FFFFu128 * (1 + 0xFFFF_FFFFu128 * 8)),
        decreases 7 - p,
    {
        let d = pass_dims(w, h, p);
        proof {
            assert((d.0 as u128) * (bpx as u128) <= 0xFFFF_FFFFu128 * 8 && (d.1 as u128) * (1
                + (d.0 as u128) * (bpx as u128)) <= 0xFFFF_FFFFu128 * (1 + 0xFFFF_FFFFu128 * 8))
                by (nonlinear_arith)
                requires
                    d.0 <= 0xFFFF_FFFFu32,
                    d.1 <= 0xFFFF_FFFFu32,
                    bpx <= 8,
            ;
            assert((p as u128 + 1) * (0xFFFF_FFFFu128 * (1 + 0xFFFF_FFFFu128 * 8)) <= 7 * (
            0xFFFF_FFFFu128 * (1 + 0xFFFF_FFFFu128 * 8)) && (p as u128) * (0xFFFF_FFFFu128 * (1
                + 0xFFFF_FFFFu128 * 8)) + 0xFFFF_FFFFu128 * (1 + 0xFFFF_FFFFu128 * 8) == (
            p as u128 + 1) * (0xFFFF_FFFFu128 * (1 + 0xFFFF_FFFFu128 * 8))) by (nonlinear_arith)
                requires
                    p < 7,
            ;
        }
        let bytes: u128 = if d.0 > 0 && d.1 > 0 {
            (d.1 as u128) * (1 + (d.0 as u128) * (bpx as u128))
        } else {
            0
        };
        total = total + bytes;
        p = p + 1;
    }
    total
}


/// Reconstructs an interlaced stream: each of the seven passes is
/// unfiltered on its own, and every full-image byte is gathered from its
/// pixel's owning pass.  Reports the filter error owed when a pass row
/// names an undefined filter.
#[verifier::loop_isolation(false)]
#[verifier::rlimit(100)]
pub(crate) fn deinterlace(raw: &Vec<u8>, w: u32, h: u32, bpx: usize) -> (r: Result<Vec<u8>, Error>)
    requires
        1 <= w,
        1 <= h,
        1 <= bpx <= 8,
        raw@.len() == pass_off(w as int, h as int, bpx as int, 7),
        (h as int) * ((w as int) * (bpx as int)) <= usize::MAX,
    ensures
        match r {
            Ok(u) => {
                &&& ifilters_ok(raw@, w as int, h as int, bpx as int)
                &&& u@ == deinterlaced(raw@, w as int, h as int, bpx as int)
                &&& u@.len() == (h as int) * ((w as int) * (bpx as int))
            },
            Err(e) => {
                &&& e == Error::Filter
                &&& !ifilters_ok(raw@, w as int, h as int, bpx as int)
            },
        },
{
    let rl = raw.len();
    let mut ups: Vec<Vec<u8>> = Vec::new();
    let mut off: usize = 0;
    let mut p: usize = 0;
    while p < 7
        invariant
            p <= 7,
            ups@.len() == p,
            off == pass_off(w as int, h as int, bpx as int, p as int),
            off <= rl,
            forall|q: int|
                0 <= q < p ==> (#[trigger] ups@[q])@ == unfiltered(
                    pass_seg(raw@, w as int, h as int, bpx as int, q),
                    pass_w(w as int, q) * (bpx as int),
                    bpx as int,
                    pass_h(h as int, q),
                ) && (pass_w(w as int, q) > 0 && pass_h(h as int, q) > 0 ==> filters_ok(
                    pass_seg(raw@, w as int, h as int, bpx as int, q),
                    pass_w(w as int, q) * (bpx as int),
                    pass_h(h as int, q),
                )),
        decreases 7 - p,
    {
        let d = pass_dims(w, h, p);
        let pw = d.0;
        let ph = d.1;
        proof {
            lemma_pass_off_le(w as int, h as int, bpx as int, p as int + 1, 7);
        }
        let ghost prev_ups = ups@;
        if pw > 0 && ph > 0 {
            proof {
                assert(1 <= (pw as int) * (bpx as int) && 1 + (pw as int) * (bpx as int) <= (
                ph as int) * (1 + (pw as int) * (bpx as int))) by (nonlinear_arith)
                    requires
                        1 <= pw as int,
                        1 <= ph as int,
                        1 <= bpx as int,
                ;
                assert((ph as int) * (1 + (pw as int) * (bpx as int)) == pass_bytes(
                    w as int,
                    h as int,
                    bpx as int,
                    p as int,
                ));
            }
            let rowb = pw * bpx;
            let bytes = ph * (1 + rowb);
            let mut seg: Vec<u8> = Vec::new();
            extend_from(&mut seg, raw, off, off + bytes);
            proof {
                assert(seg@ =~= pass_seg(raw@, w as int, h as int, bpx as int, p as int));
            }
            let up = match unfilter(&seg, rowb, bpx, ph) {
                Ok(u) => u,
                Err(_) => {
                    proof {
                        assert(!filters_ok(
                            pass_seg(raw@, w as int, h as int, bpx as int, p as int),
                            pass_w(w as int, p as int) * (bpx as int),
                            pass_h(h as int, p as int),
                        ));
                        assert(!ifilters_ok(raw@, w as int, h as int, bpx as int));
                    }
                    return Err(Error::Filter);
                },
            };
            ups.push(up);
            off = off + bytes;
        } else {
            let up: Vec<u8> = Vec::new();
            proof {
                assert(pass_w(w as int, p as int) * (bpx as int) * pass_h(h as int, p as int) >= 0);
                assert(pass_h(h as int, p as int) * (pass_w(w as int, p as int) * (bpx as int))
                    == 0) by (nonlinear_arith)
                    requires
                        pass_w(w as int, p as int) == 0 || pass_h(h as int, p as int) == 0,
                ;
                assert(up@ =~= unfiltered(
                    pass_seg(raw@, w as int, h as int, bpx as int, p as int),
                    pass_w(w as int, p as int) * (bpx as int),
                    bpx as int,
                    pass_h(h as int, p as int),
                ));
            }
            ups.push(up);
        }
        proof {
            assert forall|q: int| 0 <= q < p + 1 implies (#[trigger] ups@[q])@ == unfiltered(
                pass_seg(raw@, w as int, h as int, bpx as int, q),
                pass_w(w as int, q) * (bpx as int),
                bpx as int,
                pass_h(h as int, q),
            ) && (pass_w(w as int, q) > 0 && pass_h(h as int, q) > 0 ==> filters_ok(
                pass_seg(raw@, w as int, h as int, bpx as int, q),
                pass_w(w as int, q) * (bpx as int),
                pass_h(h as int, q),
            )) by {
                if q < p {
                    assert(ups@[q] == prev_ups[q]);
                    assert((prev_ups[q])@ == unfiltered(
                        pass_seg(raw@, w as int, h as int, bpx as int, q),
                        pass_w(w as int, q) * (bpx as int),
                        bpx as int,
                        pass_h(h as int, q),
                    ));
                }
            }
        }
        p = p + 1;
    }
    proof {
        assert((w as int) * (bpx as int) <= (h as int) * ((w as int) * (bpx as int)))
            by (nonlinear_arith)
            requires
                1 <= h as int,
                0 <= (w as int) * (bpx as int),
        ;
    }
    let stride = (w as usize) * bpx;
    let total = (h as usize) * stride;
    let mut u: Vec<u8> = Vec::new();
    let mut k: usize = 0;
    while k < total
        invariant
            k <= total,
            u@.len() == k,
            forall|j: int|
                0 <= j < k ==> u@[j] == deinterlaced_byte(raw@, w as int, h as int, bpx as int, j),
        decreases total - k,
    {
        let y = k / stride;
        let i = k % stride;
        let x = i / bpx;
        let bb = i % bpx;
        proof {
            vstd::arithmetic::div_mod::lemma_fundamental_div_mod(k as int, stride as int);
            vstd::arithmetic::div_mod::lemma_mod_bound(k as int, stride as int);
            vstd::arithmetic::div_mod::lemma_fundamental_div_mod(i as int, bpx as int);
            vstd::arithmetic::div_mod::lemma_mod_bound(i as int, bpx as int);
            assert((y as int) < h as int) by (nonlinear_arith)
                requires
                    (k as int) == (stride as int) * (y as int) + (i as int),
                    0 <= (i as int) < (stride as int),
                    (k as int) < (h as int) * (stride as int),
                    0 <= y as int,
            ;
            assert((x as int) < w as int) by (nonlinear_arith)
                requires
                    (i as int) == (bpx as int) * (x as int) + (bb as int),
                    0 <= (bb as int) < (bpx as int),
                    (i as int) < (w as int) * (bpx as int),
                    0 <= x as int,
            ;
            lemma_owner(x as int, y as int);
        }
        let pp: usize = if y % 2 == 1 {
            6
        } else if x % 2 == 1 {
            5
        } else if y % 4 == 2 {
            4
        } else if x % 4 == 2 {
            3
        } else if y % 8 == 4 {
            2
        } else if x % 8 == 4 {
            1
        } else {
            0
        };
        assert(pp as int == owner_pass(x as int, y as int));
        let g = pass_grid(pp);
        let dm = pass_dims(w, h, pp);
        let pw = dm.0;
        let ph = dm.1;
        let ul = ups[pp].len();
        proof {
            lemma_pass_coord(w as int, x as int, g.0 as int, g.2 as int);
            lemma_pass_coord(h as int, y as int, g.1 as int, g.3 as int);
        }
        let px = (x - g.0) / g.2;
        let py = (y - g.1) / g.3;
        proof {
            assert((px as int) < pw as int && (py as int) < ph as int);
            assert(0 <= (py as int) * (pw as int) && (py as int) * (pw as int) + (px as int)
                <= ((py as int) * (pw as int) + (px as int)) * (bpx as int) && ((py as int) * (
            pw as int) + (px as int)) * (bpx as int) + (bb as int) < (ph as int) * ((pw as int) * (
            bpx as int))) by (nonlinear_arith)
                requires
                    0 <= (px as int) < (pw as int),
                    0 <= (py as int) < (ph as int),
                    0 <= (bb as int) < (bpx as int),
                    1 <= bpx as int,
            ;
            assert(ul as int == (ph as int) * ((pw as int) * (bpx as int)));
        }
        let idx = (py * pw + px) * bpx + bb;
        let bv = ups[pp][idx];
        proof {
            assert(bv == deinterlaced_byte(raw@, w as int, h as int, bpx as int, k as int));
        }
        u.push(bv);
        k = k + 1;
    }
    proof {
        assert forall|p2: int|
            0 <= p2 < 7 && pass_w(w as int, p2) > 0 && pass_h(h as int, p2) > 0 implies #[trigger] filters_ok(
            pass_seg(raw@, w as int, h as int, bpx as int, p2),
            pass_w(w as int, p2) * (bpx as int),
            pass_h(h as int, p2),
        ) by {
            assert((ups@[p2])@ == unfiltered(
                pass_seg(raw@, w as int, h as int, bpx as int, p2),
                pass_w(w as int, p2) * (bpx as int),
                bpx as int,
                pass_h(h as int, p2),
            ));
        }
        assert(u@ =~= deinterlaced(raw@, w as int, h as int, bpx as int));
    }
    Ok(u)
}

} // verus!
