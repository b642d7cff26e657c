//! The raw decoding context: one-shot ownership of an input source, the
//! two-phase header/decode protocol, and the chunk-level drive of a decode.

use vstd::prelude::*;

use crate::chunk::{
    collect_idat, header_bytes, inflate_zlib, parse_ihdr, spec_idat_stream, spec_parse_ihdr,
    zlib_inflated,
};
use crate::error::Error;
use crate::flags::{ContextFlags, CrcAction, DecodeFlags};
use crate::format::{
    lemma_row_bytes_exact, row_bytes, samples_of, spec_color_type, spec_decoded_size, ColorType,
    Format, Ihdr, Limits,
};
use crate::interlace::{deinterlace, deinterlaced, ifilters_ok, interlaced_total, pass_off};
use crate::pixels::{
    bpp_of, convert, filters_ok, out_samples, output_bytes, unfilter, unfiltered,
};
use crate::source::{ByteSource, MemSource};

verus! {

/// The phase a decoding context is in.
///
/// The protocol runs forward only: a source is bound once, the header is
/// read once, the image is decoded once.  A fatal error while reading the
/// stream poisons the context; every later operation reports a state error.
#[derive(Debug, Copy, Clone, PartialEq, Eq, Structural)]
pub enum CtxState {
    /// No input source has been bound.
    Unbound,
    /// A source is bound; the header has not been read.
    Bound,
    /// The header has been read; the image has not been decoded.
    HeaderReady,
    /// The image has been decoded; this phase is terminal.
    Decoded,
    /// A fatal stream error occurred; this phase is terminal.
    Poisoned,
}

/// The state error owed by a decode attempt in each phase that refuses one.
pub open spec fn decode_state_error(s: CtxState) -> Error {
    match s {
        CtxState::Unbound => Error::NoSrc,
        CtxState::Bound => Error::Noihdr,
        CtxState::Decoded => Error::Badstate,
        CtxState::Poisoned => Error::Badstate,
        CtxState::HeaderReady => Error::Badstate,
    }
}

/// The raw decoding context.
///
/// Owns at most one input source for its whole lifetime, caches the parsed
/// header, and drives the single-shot decode.  Its configuration — limits,
/// chunk limits, checksum policy, context flags — is fixed value state that
/// no decoding step changes.
#[derive(Debug)]
pub struct RawContext<R> {
    source: Option<R>,
    header: Option<Ihdr>,
    plte: Option<Vec<u8>>,
    done: bool,
    poisoned: bool,
    limits: Limits,
    chunk_limit: u32,
    cache_limit: usize,
    crc_critical: CrcAction,
    crc_ancillary: CrcAction,
    flags: ContextFlags,
}

/// The conversion of a fully reconstructed image `u` to the requested
/// output format: a fixed output format from an indexed source needs a
/// palette whose entries cover every pixel's index.
pub open spec fn finish_output(h: Ihdr, f: Format, plte: Seq<u8>, u: Seq<u8>, out_size: int) -> Result<
    Seq<u8>,
    Error,
> {
    let c = spec_color_type(h.color_type as int)->Ok_0;
    let d = h.bit_depth as int;
    let w = h.width as int;
    let stride = row_bytes(w, samples_of(c), d);
    if !(f is Png || f is Raw) && c is Indexed {
        if plte.len() < 3 {
            Err(Error::Noplte)
        } else if !crate::pixels::indices_ok(
            u,
            d,
            w,
            stride,
            h.height as int,
            (plte.len() as int) / 3,
        ) {
            Err(Error::PlteIdx)
        } else {
            Ok(output_bytes(f, c, d, w, stride, plte, u, out_size))
        }
    } else {
        Ok(output_bytes(f, c, d, w, stride, plte, u, out_size))
    }
}

/// The tail of a decode once the image data has been inflated to `raw`.
///
/// A non-interlaced stream must hold exactly one filter byte plus `stride`
/// data bytes per row; an interlaced stream must hold exactly its seven
/// passes' filtered rows, which are reconstructed independently and gathered
/// back into the image grid (a reconstruction beyond the address space
/// cannot be held and owes the overflow error).  Every row must name a
/// defined filter, and the reconstruction is converted by
/// [`finish_output`].
pub open spec fn post_inflate(h: Ihdr, f: Format, raw: Seq<u8>, plte: Seq<u8>, out_size: int) -> Result<
    Seq<u8>,
    Error,
> {
    let c = spec_color_type(h.color_type as int)->Ok_0;
    let d = h.bit_depth as int;
    let w = h.width as int;
    let stride = row_bytes(w, samples_of(c), d);
    if h.interlace_method != 0 {
        let bpx = bpp_of(samples_of(c), d);
        let expected = pass_off(w, h.height as int, bpx, 7);
        if h.height * stride > usize::MAX {
            Err(Error::Overflow)
        } else if raw.len() < expected {
            Err(Error::IdatTooShort)
        } else if raw.len() > expected {
            Err(Error::IdatStream)
        } else if !ifilters_ok(raw, w, h.height as int, bpx) {
            Err(Error::Filter)
        } else {
            finish_output(h, f, plte, deinterlaced(raw, w, h.height as int, bpx), out_size)
        }
    } else {
        let expected = h.height * (stride + 1);
        if raw.len() < expected {
            Err(Error::IdatTooShort)
        } else if raw.len() > expected {
            Err(Error::IdatStream)
        } else if !filters_ok(raw, stride, h.height as int) {
            Err(Error::Filter)
        } else {
            finish_output(
                h,
                f,
                plte,
                unfiltered(raw, stride, bpp_of(samples_of(c), d), h.height as int),
                out_size,
            )
        }
    }
}

/// The full decode of a stream `rest` that follows the header chunk, for a
/// validated header `h`: the exact output bytes, or the exact error owed.
///
/// The image-data payloads are collected by [`spec_idat_stream`], inflated
/// as one zlib stream, and finished by [`post_inflate`].
pub open spec fn spec_decode_output(
    h: Ihdr,
    f: Format,
    rest: Seq<u8>,
    crit_check: bool,
    anc_check: bool,
    chunk_limit: int,
    out_size: int,
) -> Result<Seq<u8>, Error> {
    match spec_idat_stream(rest, crit_check, anc_check, chunk_limit, false, false) {
        Err(e) => Err(e),
        Ok(pair) => match zlib_inflated(pair.0) {
            None => Err(Error::IdatStream),
            Some(raw) => post_inflate(h, f, raw, pair.1, out_size),
        },
    }
}

/// The one value a size query returns in a given context state: a state
/// error outside the header-ready phases, otherwise exactly the negotiated
/// size of [`spec_decoded_size`].
pub open spec fn spec_size_query<R: ByteSource>(c: &RawContext<R>, f: Format) -> Result<
    usize,
    Error,
> {
    match c.state() {
        CtxState::Poisoned => Err(Error::Badstate),
        CtxState::Unbound => Err(Error::NoSrc),
        CtxState::Bound => Err(Error::Noihdr),
        CtxState::HeaderReady | CtxState::Decoded => match spec_decoded_size(c.cur_header(), f) {
            Ok(n) => Ok(n as usize),
            Err(e) => Err(e),
        },
    }
}

/// Querying the decoded image size is idempotent: it has no side effect on
/// the context, so any two queries with the same output format return
/// identical values.
pub proof fn lemma_size_query_idempotent<R: ByteSource>(
    c: &RawContext<R>,
    f: Format,
    r1: Result<usize, Error>,
    r2: Result<usize, Error>,
)
    requires
        r1 == spec_size_query(c, f),
        r2 == spec_size_query(c, f),
    ensures
        r1 == r2,
{
}

impl<R: ByteSource> RawContext<R> {
    /// The phase this context is in.
    pub closed spec fn state(&self) -> CtxState {
        if self.poisoned {
            CtxState::Poisoned
        } else if self.header is Some && self.source is Some {
            if self.done {
                CtxState::Decoded
            } else {
                CtxState::HeaderReady
            }
        } else if self.source is Some {
            CtxState::Bound
        } else {
            CtxState::Unbound
        }
    }

    /// The structural well-formedness every context keeps: a header is only
    /// ever cached while a source is bound, and a decode only ever completes
    /// after the header was read.  Constructors establish it and every
    /// method preserves it.
    pub closed spec fn wf(&self) -> bool {
        &&& self.header matches Some(h) ==> self.source is Some && crate::format::ihdr_ok(h)
        &&& self.done ==> self.header is Some
    }

    /// The cached header, once the header has been read.
    pub closed spec fn header_opt(&self) -> Option<Ihdr> {
        self.header
    }

    /// The cached header.
    pub open spec fn cur_header(&self) -> Ihdr {
        self.header_opt()->Some_0
    }

    /// The palette bytes the decode walked past, once the image has been
    /// decoded: three bytes per entry, empty when the stream had no palette
    /// chunk.
    pub closed spec fn plte_spec(&self) -> Option<Seq<u8>> {
        match self.plte {
            Some(v) => Some(v@),
            None => None,
        }
    }

    /// The configured decoding limits.
    pub closed spec fn limits_spec(&self) -> Limits {
        self.limits
    }

    /// The configured chunk size limit.
    pub closed spec fn chunk_limit_spec(&self) -> u32 {
        self.chunk_limit
    }

    /// The configured chunk cache limit.
    pub closed spec fn cache_limit_spec(&self) -> usize {
        self.cache_limit
    }

    /// The configured checksum policy for critical and ancillary chunks.
    pub closed spec fn crc_actions_spec(&self) -> (CrcAction, CrcAction) {
        (self.crc_critical, self.crc_ancillary)
    }

    /// The flags this context was created with.
    pub closed spec fn flags_spec(&self) -> ContextFlags {
        self.flags
    }

    /// Whether critical chunks' checksums are checked.
    pub open spec fn crit_check(&self) -> bool {
        self.crc_actions_spec().0 is Error
    }

    /// Whether ancillary chunks' checksums are checked.
    pub open spec fn anc_check(&self) -> bool {
        self.crc_actions_spec().1 is Error
    }

    /// The whole fixed configuration, as one value.
    pub open spec fn config(&self) -> (Limits, u32, usize, (CrcAction, CrcAction), ContextFlags) {
        (
            self.limits_spec(),
            self.chunk_limit_spec(),
            self.cache_limit_spec(),
            self.crc_actions_spec(),
            self.flags_spec(),
        )
    }

    /// The bytes the bound source has not yet delivered.
    pub closed spec fn src_remaining(&self) -> Seq<u8> {
        match self.source {
            Some(s) => s.remaining(),
            None => Seq::empty(),
        }
    }

    /// Whether the bound source's transport never fails.
    pub closed spec fn src_never_fails(&self) -> bool {
        match self.source {
            Some(s) => s.never_fails(),
            None => true,
        }
    }

    /// Creates a context with no flags set.
    pub fn new() -> (r: Result<RawContext<R>, Error>)
        ensures
            r matches Ok(c) && c.wf() && c.state() is Unbound && c.limits_spec()
                == crate::format::default_limits() && c.chunk_limit_spec() == 0x7FFF_FFFFu32
                && c.crc_actions_spec() == (CrcAction::Error, CrcAction::Error)
                && c.flags_spec().bits == 0,
    {
        RawContext::with_flags(ContextFlags::empty())
    }

    /// Creates a context with the given flags.  Allocation failure aborts
    /// rather than failing, so creation always succeeds.
    pub fn with_flags(flags: ContextFlags) -> (r: Result<RawContext<R>, Error>)
        ensures
            r matches Ok(c) && c.wf() && c.state() is Unbound && c.limits_spec()
                == crate::format::default_limits() && c.chunk_limit_spec() == 0x7FFF_FFFFu32
                && c.crc_actions_spec() == (CrcAction::Error, CrcAction::Error)
                && c.flags_spec() == flags,
    {
        Ok(
            RawContext {
                source: None,
                header: None,
                plte: None,
                done: false,
                poisoned: false,
                limits: Limits::default(),
                chunk_limit: 0x7FFF_FFFF,
                cache_limit: usize::MAX,
                crc_critical: CrcAction::Error,
                crc_ancillary: CrcAction::Error,
                flags,
            },
        )
    }

    /// Set how chunk CRC errors should be handled for critical and ancillary
    /// chunks.  Discarding critical chunks is not a valid policy.
    pub fn set_crc_action(&mut self, critical: CrcAction, ancillary: CrcAction) -> (r: Result<
        (),
        Error,
    >)
        requires
            old(self).wf(),
        ensures
            final(self).wf(),
            final(self).state() == old(self).state(),
            final(self).header_opt() == old(self).header_opt(),
            final(self).src_remaining() == old(self).src_remaining(),
            final(self).src_never_fails() == old(self).src_never_fails(),
            final(self).limits_spec() == old(self).limits_spec(),
            final(self).chunk_limit_spec() == old(self).chunk_limit_spec(),
            final(self).cache_limit_spec() == old(self).cache_limit_spec(),
            final(self).flags_spec() == old(self).flags_spec(),
            match r {
                Ok(_) => !(critical is Discard) && final(self).crc_actions_spec() == (
                    critical,
                    ancillary,
                ),
                Err(e) => critical is Discard && e == Error::Inval && final(self).crc_actions_spec() == old(self).crc_actions_spec(),
            },
    {
        if matches!(critical, CrcAction::Discard) {
            Err(Error::Inval)
        } else {
            self.crc_critical = critical;
            self.crc_ancillary = ancillary;
            Ok(())
        }
    }

    /// Get image width and height limits.
    ///
    /// Returns `(width, height)`
    pub fn get_image_limits(&self) -> (r: Result<(u32, u32), Error>)
        ensures
            r == Ok::<(u32, u32), Error>(
                (self.limits_spec().max_width, self.limits_spec().max_height),
            ),
    {
        Ok((self.limits.max_width, self.limits.max_height))
    }

    /// Set image width and height limits, these may not be larger than
    /// `(2^31)-1`.  To take effect this must be called before the header is
    /// read.
    pub fn set_image_limits(&mut self, max_width: u32, max_height: u32) -> (r: Result<(), Error>)
        requires
            old(self).wf(),
        ensures
            final(self).wf(),
            final(self).state() == old(self).state(),
            final(self).header_opt() == old(self).header_opt(),
            final(self).src_remaining() == old(self).src_remaining(),
            final(self).src_never_fails() == old(self).src_never_fails(),
            final(self).chunk_limit_spec() == old(self).chunk_limit_spec(),
            final(self).cache_limit_spec() == old(self).cache_limit_spec(),
            final(self).crc_actions_spec() == old(self).crc_actions_spec(),
            final(self).flags_spec() == old(self).flags_spec(),
            match r {
                Ok(_) => max_width <= 0x7FFF_FFFF && max_height <= 0x7FFF_FFFF && final(self).limits_spec() == (Limits { max_width, max_height }),
                Err(e) => (max_width > 0x7FFF_FFFF || max_height > 0x7FFF_FFFF) && e
                    == Error::Inval && final(self).limits_spec() == old(self).limits_spec(),
            },
    {
        if max_width > 0x7FFF_FFFF || max_height > 0x7FFF_FFFF {
            Err(Error::Inval)
        } else {
            self.limits = Limits { max_width, max_height };
            Ok(())
        }
    }

    /// Get chunk size and chunk cache limits.
    ///
    /// Returns `(chunk_size, cache_size)`
    pub fn get_chunk_limits(&self) -> (r: Result<(usize, usize), Error>)
        ensures
            r == Ok::<(usize, usize), Error>(
                (self.chunk_limit_spec() as usize, self.cache_limit_spec()),
            ),
    {
        Ok((self.chunk_limit as usize, self.cache_limit))
    }

    /// Set chunk size and chunk cache limits; the chunk size limit may not
    /// be larger than `(2^31)-1`.
    pub fn set_chunk_limits(&mut self, chunk_size: usize, cache_size: usize) -> (r: Result<
        (),
        Error,
    >)
        requires
            old(self).wf(),
        ensures
            final(self).wf(),
            final(self).state() == old(self).state(),
            final(self).header_opt() == old(self).header_opt(),
            final(self).src_remaining() == old(self).src_remaining(),
            final(self).src_never_fails() == old(self).src_never_fails(),
            final(self).limits_spec() == old(self).limits_spec(),
            final(self).crc_actions_spec() == old(self).crc_actions_spec(),
            final(self).flags_spec() == old(self).flags_spec(),
            match r {
                Ok(_) => chunk_size <= 0x7FFF_FFFF && final(self).chunk_limit_spec() == chunk_size
                    && final(self).cache_limit_spec() == cache_size,
                Err(e) => chunk_size > 0x7FFF_FFFF && e == Error::Inval && final(self).chunk_limit_spec() == old(self).chunk_limit_spec() && final(self).cache_limit_spec() == old(self).cache_limit_spec(),
            },
    {
        if chunk_size > 0x7FFF_FFFF {
            Err(Error::Inval)
        } else {
            self.chunk_limit = chunk_size as u32;
            self.cache_limit = cache_size;
            Ok(())
        }
    }

    /// Set the input stream reader. The input buffer or stream may only be
    /// set once per context.
    pub fn set_png_stream(&mut self, reader: R) -> (r: Result<(), Error>)
        requires
            old(self).wf(),
        ensures
            final(self).wf(),
            final(self).limits_spec() == old(self).limits_spec(),
            final(self).chunk_limit_spec() == old(self).chunk_limit_spec(),
            final(self).cache_limit_spec() == old(self).cache_limit_spec(),
            final(self).crc_actions_spec() == old(self).crc_actions_spec(),
            final(self).flags_spec() == old(self).flags_spec(),
            final(self).header_opt() == old(self).header_opt(),
            match old(self).state() {
                CtxState::Poisoned => r == Err::<(), Error>(Error::Badstate) && final(self).state()
                    is Poisoned && final(self).src_remaining() == old(self).src_remaining()
                    && final(self).src_never_fails() == old(self).src_never_fails(),
                CtxState::Unbound => r == Ok::<(), Error>(()) && final(self).state() is Bound
                    && final(self).src_remaining() == reader.remaining() && final(self).src_never_fails() == reader.never_fails(),
                _ => r == Err::<(), Error>(Error::BufSet) && final(self).state() == old(self).state() && final(self).src_remaining() == old(self).src_remaining() && final(self).src_never_fails() == old(self).src_never_fails(),
            },
    {
        if self.poisoned {
            Err(Error::Badstate)
        } else if self.source.is_some() {
            Err(Error::BufSet)
        } else {
            self.source = Some(reader);
            Ok(())
        }
    }

    /// Reads the header if it has not been read yet, and returns it.
    ///
    /// The first successful call consumes exactly the signature and header
    /// chunk from the source and caches the result; later calls return the
    /// cached header without touching the source.  A parse failure poisons
    /// the context.
    pub fn get_ihdr(&mut self) -> (r: Result<Ihdr, Error>)
        requires
            old(self).wf(),
        ensures
            final(self).wf(),
            final(self).limits_spec() == old(self).limits_spec(),
            final(self).chunk_limit_spec() == old(self).chunk_limit_spec(),
            final(self).cache_limit_spec() == old(self).cache_limit_spec(),
            final(self).crc_actions_spec() == old(self).crc_actions_spec(),
            final(self).flags_spec() == old(self).flags_spec(),
            final(self).src_never_fails() == old(self).src_never_fails(),
            match old(self).state() {
                CtxState::Poisoned => r == Err::<Ihdr, Error>(Error::Badstate) && final(self).state()
                    is Poisoned && final(self).src_remaining() == old(self).src_remaining()
                    && final(self).header_opt() == old(self).header_opt(),
                CtxState::Unbound => r == Err::<Ihdr, Error>(Error::NoSrc) && final(self).state()
                    == old(self).state() && final(self).src_remaining() == old(self).src_remaining()
                    && final(self).header_opt() == old(self).header_opt(),
                CtxState::HeaderReady | CtxState::Decoded => r == Ok::<Ihdr, Error>(
                    old(self).cur_header(),
                ) && final(self).state() == old(self).state() && final(self).src_remaining() == old(self).src_remaining() && final(self).header_opt() == old(self).header_opt(),
                CtxState::Bound => match r {
                    Ok(h) => spec_parse_ihdr(
                        old(self).src_remaining(),
                        old(self).limits_spec(),
                        old(self).crit_check(),
                    ) == Ok::<Ihdr, Error>(h) && final(self).state() is HeaderReady && final(self).header_opt() == Some(h) && final(self).src_remaining() == old(self).src_remaining().skip(header_bytes()),
                    Err(e) => ((e == Error::IoError && !old(self).src_never_fails())
                        || spec_parse_ihdr(
                        old(self).src_remaining(),
                        old(self).limits_spec(),
                        old(self).crit_check(),
                    ) == Err::<Ihdr, Error>(e)) && final(self).state() is Poisoned && final(self).header_opt() is None,
                },
            },
    {
        if self.poisoned {
            return Err(Error::Badstate);
        }
        if self.source.is_none() {
            return Err(Error::NoSrc);
        }
        match self.header {
            Some(h) => {
                return Ok(h);
            },
            None => {},
        }
        let crit = matches!(self.crc_critical, CrcAction::Error);
        let lim = self.limits;
        let pr = match &mut self.source {
            Some(s) => parse_ihdr(s, lim, crit),
            None => {
                return Err(Error::NoSrc);
            },
        };
        match pr {
            Ok(h) => {
                self.header = Some(h);
                Ok(h)
            },
            Err(e) => {
                self.poisoned = true;
                Err(e)
            },
        }
    }

    /// Calculates the decoded image buffer size for the given output format.
    ///
    /// A pure computation from the cached header and the format: it never
    /// touches the source, and two calls return the same value.
    pub fn decoded_image_size(&self, out_format: Format) -> (r: Result<usize, Error>)
        requires
            self.wf(),
        ensures
            r == spec_size_query(self, out_format),
    {
        if self.poisoned {
            return Err(Error::Badstate);
        }
        if self.source.is_none() {
            return Err(Error::NoSrc);
        }
        match &self.header {
            None => Err(Error::Noihdr),
            Some(h) => crate::format::decoded_size_for(h, out_format),
        }
    }

    /// A cached header always passes the header validation; public proof of
    /// part of [`RawContext::wf`].
    pub proof fn lemma_wf_header(&self)
        requires
            self.wf(),
            self.header_opt() is Some,
        ensures
            crate::format::ihdr_ok(self.cur_header()),
    {
    }

    /// Decodes the image and writes it to the front of `out`, converting to
    /// the destination format `out_format`.
    ///
    /// The `out` buffer must have a length greater or equal to the size
    /// returned by [`decoded_image_size`] with the same `out_format`; a
    /// shorter buffer is refused before anything is written.  The function
    /// may only be called **once** per context: later calls, and calls
    /// before the header was read, report a state error and write nothing.
    /// A stream-level failure — a malformed chunk, a checksum mismatch, bad
    /// image data — poisons the context and leaves `out` unchanged.  This
    /// decoder applies no transparency, gamma, or significant-bit correction
    /// and offers no progressive mode: rather than silently skipping such
    /// work, it refuses every decode flag with the flags error.
    ///
    /// [`decoded_image_size`]: RawContext::decoded_image_size
    pub fn decode_image(&mut self, out: &mut Vec<u8>, out_format: Format, flags: DecodeFlags) -> (r:
        Result<(), Error>)
        requires
            old(self).wf(),
        ensures
            final(self).wf(),
            final(out)@.len() == old(out)@.len(),
            final(self).config() == old(self).config(),
            final(self).src_never_fails() == old(self).src_never_fails(),
            final(self).header_opt() == old(self).header_opt(),
            !(old(self).state() is HeaderReady) ==> {
                &&& r == Err::<(), Error>(decode_state_error(old(self).state()))
                &&& final(out)@ == old(out)@
                &&& final(self).state() == old(self).state()
                &&& final(self).src_remaining() == old(self).src_remaining()
            },
            ({
                let h = old(self).cur_header();
                &&& old(self).state() is HeaderReady
                &&& flags.bits == 0
                &&& old(self).src_never_fails()
                &&& match spec_decoded_size(h, out_format) {
                    Ok(n) => old(out)@.len() >= n && spec_decode_output(
                        h,
                        out_format,
                        old(self).src_remaining(),
                        old(self).crit_check(),
                        old(self).anc_check(),
                        old(self).chunk_limit_spec() as int,
                        n,
                    ) is Ok,
                    Err(_) => false,
                }
            }) ==> r is Ok,
            old(self).state() is HeaderReady ==> {
                let h = old(self).cur_header();
                let untouched = final(out)@ == old(out)@ && final(self).state() is HeaderReady
                    && final(self).src_remaining() == old(self).src_remaining();
                if flags.bits != 0 {
                    r == Err::<(), Error>(Error::Flags) && untouched
                } else {
                    match spec_decoded_size(h, out_format) {
                        Err(e2) => r == Err::<(), Error>(e2) && untouched,
                        Ok(n) => if old(out)@.len() < n {
                            r == Err::<(), Error>(Error::Bufsiz) && untouched
                        } else {
                            let dres = spec_decode_output(
                                h,
                                out_format,
                                old(self).src_remaining(),
                                old(self).crit_check(),
                                old(self).anc_check(),
                                old(self).chunk_limit_spec() as int,
                                n,
                            );
                            match r {
                                Ok(_) => {
                                    &&& dres matches Ok(img) && final(out)@ == img + old(out)@.skip(
                                        n,
                                    )
                                    &&& final(self).state() is Decoded
                                    &&& spec_idat_stream(
                                        old(self).src_remaining(),
                                        old(self).crit_check(),
                                        old(self).anc_check(),
                                        old(self).chunk_limit_spec() as int,
                                        false,
                                        false,
                                    ) matches Ok(pair) && final(self).plte_spec() == Some(pair.1)
                                },
                                Err(e) => {
                                    &&& final(out)@ == old(out)@
                                    &&& final(self).state() is Poisoned
                                    &&& ((e == Error::IoError && !old(self).src_never_fails())
                                        || dres == Err::<Seq<u8>, Error>(e))
                                },
                            }
                        },
                    }
                }
            },
    {
        if self.poisoned {
            return Err(Error::Badstate);
        }
        if self.source.is_none() {
            return Err(Error::NoSrc);
        }
        let h = match self.header {
            Some(h) => h,
            None => {
                return Err(Error::Noihdr);
            },
        };
        if self.done {
            return Err(Error::Badstate);
        }
        if flags.bits() != 0 {
            return Err(Error::Flags);
        }
        let n = match crate::format::decoded_size_for(&h, out_format) {
            Ok(n) => n,
            Err(e) => {
                return Err(e);
            },
        };
        if out.len() < n {
            return Err(Error::Bufsiz);
        }
        let crit = matches!(self.crc_critical, CrcAction::Error);
        let anc = matches!(self.crc_ancillary, CrcAction::Error);
        let climit = self.chunk_limit;
        let res = match &mut self.source {
            Some(s) => run_decode(s, h, out_format, crit, anc, climit, n, out),
            None => {
                return Err(Error::NoSrc);
            },
        };
        match res {
            Ok(pv) => {
                self.plte = Some(pv);
                self.done = true;
                Ok(())
            },
            Err(e) => {
                self.poisoned = true;
                Err(e)
            },
        }
    }

    /// Returns the palette the decoded stream carried, as three bytes per
    /// entry.
    ///
    /// Available once the image has been decoded; a stream without a
    /// palette chunk, or a context that has not decoded yet, reports the
    /// chunk as not available.
    pub fn get_plte(&self) -> (r: Result<&Vec<u8>, Error>)
        requires
            self.wf(),
        ensures
            match r {
                Ok(v) => {
                    &&& self.state() is Decoded
                    &&& self.plte_spec() matches Some(p) && p == v@
                    &&& v@.len() > 0
                },
                Err(e) => if self.state() is Poisoned {
                    e == Error::Badstate
                } else {
                    e == Error::Chunkavail && (self.state() is Decoded ==> (self.plte_spec()
                        matches Some(p) ==> p.len() == 0))
                },
            },
    {
        if self.poisoned {
            return Err(Error::Badstate);
        }
        if !self.done {
            return Err(Error::Chunkavail);
        }
        match &self.plte {
            Some(v) => {
                if v.len() > 0 {
                    Ok(v)
                } else {
                    Err(Error::Chunkavail)
                }
            },
            None => Err(Error::Chunkavail),
        }
    }
}

/// The stream phase of a decode: collects the image data, inflates it,
/// reverses the filters, and converts into the front of `out`.
///
/// The result is exactly what [`spec_decode_output`] says of the source's
/// remaining bytes, except that a source whose transport can fail may also
/// report `IoError`; on any error `out` is left unchanged.
#[verifier::spinoff_prover]
#[verifier::rlimit(100)]
fn run_decode<R: ByteSource>(
    source: &mut R,
    h: Ihdr,
    out_format: Format,
    crit: bool,
    anc: bool,
    climit: u32,
    n: usize,
    out: &mut Vec<u8>,
) -> (r: Result<Vec<u8>, Error>)
    requires
        crate::format::ihdr_ok(h),
        spec_decoded_size(h, out_format) == Ok::<int, Error>(n as int),
        old(out)@.len() >= n,
    ensures
        final(out)@.len() == old(out)@.len(),
        final(source).never_fails() == old(source).never_fails(),
        ({
            let dres = spec_decode_output(
                h,
                out_format,
                old(source).remaining(),
                crit,
                anc,
                climit as int,
                n as int,
            );
            match r {
                Ok(pv) => {
                    &&& dres matches Ok(img) && final(out)@ == img + old(out)@.skip(n as int)
                    &&& spec_idat_stream(
                        old(source).remaining(),
                        crit,
                        anc,
                        climit as int,
                        false,
                        false,
                    ) matches Ok(pair) && pair.1 == pv@
                },
                Err(e) => final(out)@ == old(out)@ && ((e == Error::IoError && !old(source).never_fails()) || dres == Err::<Seq<u8>, Error>(e)),
            }
        }),
{
    let pair = match collect_idat(source, crit, anc, climit) {
        Ok(v) => v,
        Err(e) => {
            return Err(e);
        },
    };
    let idat = pair.0;
    let plte = pair.1;
    let raw = match inflate_zlib(&idat) {
        Some(v) => v,
        None => {
            return Err(Error::IdatStream);
        },
    };
    match finish_decode(h, out_format, &raw, &plte, n, out) {
        Ok(_) => Ok(plte),
        Err(e) => Err(e),
    }
}

/// What the raw scanline geometry of a successfully negotiated decode
/// guarantees: how the reconstruction length and the negotiated output size
/// relate for each output format.
#[verifier::spinoff_prover]
#[verifier::rlimit(100)]
proof fn lemma_decode_geometry(h: Ihdr, c: ColorType, f: Format, n: int)
    requires
        crate::format::ihdr_ok(h),
        c == spec_color_type(h.color_type as int)->Ok_0,
        spec_decoded_size(h, f) == Ok::<int, Error>(n),
    ensures
        h.bit_depth == 8 ==> h.height * row_bytes(h.width as int, samples_of(c), 8) == (
        h.height as int) * (h.width as int) * samples_of(c),
        h.bit_depth == 16 ==> h.height * row_bytes(h.width as int, samples_of(c), 16) == 2 * (
        h.height as int) * (h.width as int) * samples_of(c),
        (f is Png || f is Raw) ==> n == h.height * row_bytes(
            h.width as int,
            samples_of(c),
            h.bit_depth as int,
        ),
        (f is Png && h.bit_depth == 16) ==> n % 2 == 0,
        (f is Rgba8 || f is Rgb8 || f is G8 || f is Ga8) ==> n == (h.height as int) * (
        h.width as int) * out_samples(f),
        (f is Rgba16 || f is Ga16) ==> n == 2 * (h.height as int) * (h.width as int)
            * out_samples(f),
        (f is G8 || f is Ga8 || f is Ga16) ==> (c is Grayscale || c is GrayscaleAlpha),
        !(f is Png || f is Raw) ==> (h.width as int) * (h.height as int) <= n,
{
    let hi = h.height as int;
    let wi = h.width as int;
    let isv = samples_of(c);
    lemma_row_bytes_exact(wi, isv);
    assert(hi * (wi * isv) == hi * wi * isv) by (nonlinear_arith);
    assert(hi * (2 * (wi * isv)) == 2 * hi * wi * isv) by (nonlinear_arith);
    assert(hi * (2 * (wi * isv)) == 2 * (hi * (wi * isv))) by (nonlinear_arith);
    if f is Rgba8 || f is Rgb8 || f is G8 || f is Ga8 {
        let os = out_samples(f);
        lemma_row_bytes_exact(wi, os);
        assert(hi * (wi * os) == hi * wi * os) by (nonlinear_arith);
    }
    if f is Rgba16 || f is Ga16 {
        let os = out_samples(f);
        lemma_row_bytes_exact(wi, os);
        assert(hi * (2 * (wi * os)) == 2 * hi * wi * os) by (nonlinear_arith);
    }
    if f is Png && h.bit_depth == 16 {
        assert(n == 2 * (hi * (wi * isv)));
        assert((2 * (hi * (wi * isv))) % 2 == 0) by (nonlinear_arith);
    }
    if !(f is Png || f is Raw) {
        let os = out_samples(f);
        assert(wi * hi <= hi * wi * os && wi * hi <= 2 * hi * wi * os) by (nonlinear_arith)
            requires
                1 <= os,
                1 <= wi,
                1 <= hi,
        ;
    }
}

/// Computes the scanline geometry of a header and checks that the inflated
/// data `raw` holds exactly one filter byte plus one row of data per row.
/// Returns the row stride and the filter unit.
#[verifier::spinoff_prover]
#[verifier::rlimit(100)]
fn check_raw_len(h: Ihdr, c: ColorType, raw: &Vec<u8>) -> (r: Result<(usize, usize), Error>)
    requires
        crate::format::ihdr_ok(h),
        c == spec_color_type(h.color_type as int)->Ok_0,
    ensures
        ({
            let d = h.bit_depth as int;
            let stride = row_bytes(h.width as int, samples_of(c), d);
            let expected = h.height * (stride + 1);
            match r {
                Ok(p) => {
                    &&& 1 <= p.0 && 1 <= p.1
                    &&& p.0 == stride && p.1 == bpp_of(samples_of(c), d)
                    &&& raw@.len() == expected
                },
                Err(e) => raw@.len() != expected && e == (if raw@.len() < expected {
                    Error::IdatTooShort
                } else {
                    Error::IdatStream
                }),
            }
        }),
{
    let is = c.samples();
    let d = h.bit_depth;
    let w64 = h.width as u64;
    let is64 = is as u64;
    let d64 = d as u64;
    proof {
        assert(1 <= w64 * is64 * d64 <= 0xFFFF_FFFFu64 * 4 * 16) by (nonlinear_arith)
            requires
                1 <= w64 <= 0xFFFF_FFFFu64,
                1 <= is64 <= 4,
                1 <= d64 <= 16,
        ;
    }
    let stride64: u64 = (w64 * is64 * d64 + 7) / 8;
    proof {
        assert((h.height as u128) * ((stride64 as u128) + 1) <= 0xFFFF_FFFFu128 * (
        0xFFFF_FFFF_FFFF_FFFFu128 + 1)) by (nonlinear_arith)
            requires
                h.height <= 0xFFFF_FFFFu32,
                stride64 <= 0xFFFF_FFFF_FFFF_FFFFu64,
        ;
    }
    let expected128: u128 = (h.height as u128) * ((stride64 as u128) + 1);
    proof {
        assert((stride64 as u128) + 1 <= expected128) by (nonlinear_arith)
            requires
                expected128 == (h.height as u128) * ((stride64 as u128) + 1),
                1 <= h.height,
        ;
    }
    let rl = raw.len();
    if (rl as u128) < expected128 {
        return Err(Error::IdatTooShort);
    }
    if (rl as u128) > expected128 {
        return Err(Error::IdatStream);
    }
    let stride: usize = stride64 as usize;
    let bpp64: u64 = if is64 * d64 < 8 {
        1
    } else {
        (is64 * d64) / 8
    };
    Ok((stride, bpp64 as usize))
}

/// The post-inflation phase of a decode: checks the raw scanline geometry,
/// reverses the filters, and converts into the front of `out`; the exec
/// counterpart of [`post_inflate`].
#[verifier::spinoff_prover]
#[verifier::rlimit(100)]
fn finish_decode(
    h: Ihdr,
    out_format: Format,
    raw: &Vec<u8>,
    plte: &Vec<u8>,
    n: usize,
    out: &mut Vec<u8>,
) -> (r: Result<(), Error>)
    requires
        crate::format::ihdr_ok(h),
        spec_decoded_size(h, out_format) == Ok::<int, Error>(n as int),
        old(out)@.len() >= n,
    ensures
        final(out)@.len() == old(out)@.len(),
        match r {
            Ok(_) => post_inflate(h, out_format, raw@, plte@, n as int) matches Ok(img) && final(out)@ == img + old(out)@.skip(n as int),
            Err(e) => final(out)@ == old(out)@ && post_inflate(
                h,
                out_format,
                raw@,
                plte@,
                n as int,
            ) == Err::<Seq<u8>, Error>(e),
        },
{
    let c = match ColorType::from_raw(h.color_type) {
        Ok(c) => c,
        Err(_) => {
            return Err(Error::ColorType);
        },
    };
    let d = h.bit_depth;
    let hh: usize = h.height as usize;
    let u: Vec<u8>;
    let stride: usize;
    if h.interlace_method != 0 {
        // The negotiated size admits interlacing only at whole-byte depths.
        assert(d == 8 || d == 16);
        let is = c.samples();
        let bpx: usize = if d == 16 {
            2 * is
        } else {
            is
        };
        proof {
            lemma_row_bytes_exact(h.width as int, samples_of(c));
            assert(bpx as int == bpp_of(samples_of(c), d as int));
            if d == 16 {
                assert((h.width as int) * (2 * samples_of(c)) == 2 * ((h.width as int)
                    * samples_of(c))) by (nonlinear_arith);
            }
            assert((h.width as int) * (bpx as int) == row_bytes(
                h.width as int,
                samples_of(c),
                d as int,
            ));
            assert((h.width as u128) * (bpx as u128) <= 0xFFFF_FFFFu128 * 8) by (nonlinear_arith)
                requires
                    h.width <= 0xFFFF_FFFFu32,
                    bpx <= 8,
            ;
            assert((h.height as u128) * ((h.width as u128) * (bpx as u128)) <= 0xFFFF_FFFFu128 * (
            0xFFFF_FFFFu128 * 8)) by (nonlinear_arith)
                requires
                    h.height <= 0xFFFF_FFFFu32,
                    (h.width as u128) * (bpx as u128) <= 0xFFFF_FFFFu128 * 8,
            ;
        }
        let stride128: u128 = (h.width as u128) * (bpx as u128);
        let hs128: u128 = (h.height as u128) * stride128;
        if hs128 > usize::MAX as u128 {
            return Err(Error::Overflow);
        }
        let total128 = interlaced_total(h.width, h.height, bpx);
        let rl = raw.len();
        if (rl as u128) < total128 {
            return Err(Error::IdatTooShort);
        }
        if (rl as u128) > total128 {
            return Err(Error::IdatStream);
        }
        proof {
            assert((stride128 as int) <= (hs128 as int)) by (nonlinear_arith)
                requires
                    hs128 == (h.height as u128) * stride128,
                    1 <= h.height,
            ;
        }
        u = match deinterlace(raw, h.width, h.height, bpx) {
            Ok(v) => v,
            Err(e) => {
                return Err(e);
            },
        };
        stride = ((h.width as u64) * (bpx as u64)) as usize;
    } else {
        let pr = match check_raw_len(h, c, raw) {
            Ok(p) => p,
            Err(e) => {
                return Err(e);
            },
        };
        u = match unfilter(raw, pr.0, pr.1, hh) {
            Ok(v) => v,
            Err(e) => {
                return Err(e);
            },
        };
        stride = pr.0;
    }
    proof {
        lemma_decode_geometry(h, c, out_format, n as int);
    }
    let passthrough = matches!(out_format, Format::Png) || matches!(out_format, Format::Raw);
    if !passthrough && matches!(c, ColorType::Indexed) {
        let entries = plte.len() / 3;
        proof {
            vstd::arithmetic::div_mod::lemma_fundamental_div_mod(plte@.len() as int, 3);
            vstd::arithmetic::div_mod::lemma_mod_bound(plte@.len() as int, 3);
        }
        if entries == 0 {
            return Err(Error::Noplte);
        }
        if !crate::pixels::check_indices(&u, d, h.width, h.height, stride, entries) {
            return Err(Error::PlteIdx);
        }
    }
    convert(out_format, c, d, h.width, h.height, stride, plte, &u, out, n);
    proof {
        let di = d as int;
        let wi = h.width as int;
        if h.interlace_method != 0 {
            assert(u@ == deinterlaced(raw@, wi, h.height as int, bpp_of(samples_of(c), di)));
        } else {
            assert(u@ == unfiltered(raw@, row_bytes(wi, samples_of(c), di), bpp_of(
                samples_of(c), di), h.height as int));
        }
        assert(finish_output(h, out_format, plte@, u@, n as int) == Ok::<Seq<u8>, Error>(
            output_bytes(out_format, c, di, wi, stride as int, plte@, u@, n as int),
        ));
        assert(post_inflate(h, out_format, raw@, plte@, n as int) == finish_output(
            h,
            out_format,
            plte@,
            u@,
            n as int,
        ));
    }
    Ok(())
}

impl RawContext<MemSource> {
    /// Set the input buffer. The input buffer or stream may only be set once
    /// per context.
    pub fn set_png_buffer(&mut self, buf: Vec<u8>) -> (r: Result<(), Error>)
        requires
            old(self).wf(),
        ensures
            final(self).wf(),
            final(self).config() == old(self).config(),
            final(self).header_opt() == old(self).header_opt(),
            match old(self).state() {
                CtxState::Poisoned => r == Err::<(), Error>(Error::Badstate) && final(self).state()
                    is Poisoned && final(self).src_remaining() == old(self).src_remaining()
                    && final(self).src_never_fails() == old(self).src_never_fails(),
                CtxState::Unbound => r == Ok::<(), Error>(()) && final(self).state() is Bound
                    && final(self).src_remaining() == buf@ && final(self).src_never_fails(),
                _ => r == Err::<(), Error>(Error::BufSet) && final(self).state() == old(self).state() && final(self).src_remaining() == old(self).src_remaining() && final(self).src_never_fails() == old(self).src_never_fails(),
            },
    {
        self.set_png_stream(MemSource::new(buf))
    }
}

/// Helper trait for converting optional ancillary results into `Option<T>`.
pub trait ChunkAvail<T>: Sized {
    /// What the conversion yields: availability errors become an absent
    /// value, everything else is kept.
    spec fn avail_spec(self) -> Result<Option<T>, Error>;

    /// Converts `Err(Error::Chunkavail)` into `Ok(None)`.
    fn chunk_avail(self) -> (r: Result<Option<T>, Error>)
        ensures
            r == self.avail_spec(),
    ;
}

impl<T> ChunkAvail<T> for Result<T, Error> {
    open spec fn avail_spec(self) -> Result<Option<T>, Error> {
        match self {
            Ok(v) => Ok(Some(v)),
            Err(Error::Chunkavail) => Ok(None),
            Err(e) => Err(e),
        }
    }

    fn chunk_avail(self) -> (r: Result<Option<T>, Error>) {
        match self {
            Ok(value) => Ok(Some(value)),
            Err(Error::Chunkavail) => Ok(None),
            Err(error) => Err(error),
        }
    }
}

} // verus!
