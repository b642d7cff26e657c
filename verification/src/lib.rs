//! PNG image decoding.
//!
//! A decoder for the PNG container format with a two-phase protocol: read
//! the image header, negotiate the output buffer size for a chosen pixel
//! format, then decode the image exactly once into a caller-supplied
//! buffer.  Input arrives through the pull-based [`ByteSource`]
//! abstraction; every operation returns a typed [`Error`] kind rather than
//! failing in any other way.

use vstd::prelude::*;

pub mod chunk;
pub mod error;
pub mod flags;
pub mod format;
pub mod interlace;
pub mod pixels;
pub mod raw;
pub mod source;

pub use error::Error;
pub use flags::{ContextFlags, CrcAction, DecodeFlags};
pub use format::{BitDepth, ColorType, Format, Ihdr, Info, Limits, OutputInfo};
pub use raw::{CtxState, RawContext};
pub use source::{ByteSource, FillStatus, MemSource, ReadOutcome};

use chunk::{header_bytes, spec_parse_ihdr};
use format::{default_limits, spec_decoded_size, spec_info, spec_output_info};
use raw::spec_decode_output;

verus! {

/// PNG decoder
#[derive(Debug)]
pub struct Decoder<R> {
    reader: R,
    limits: Limits,
    context_flags: ContextFlags,
    decode_flags: DecodeFlags,
    output_format: Format,
}

impl<R: ByteSource> Decoder<R> {
    /// The bytes the configured source will deliver.
    pub closed spec fn source_bytes(&self) -> Seq<u8> {
        self.reader.remaining()
    }

    /// Whether the configured source's transport never fails.
    pub closed spec fn source_never_fails(&self) -> bool {
        self.reader.never_fails()
    }

    /// The configured decoding limits.
    pub closed spec fn limits_spec(&self) -> Limits {
        self.limits
    }

    /// The configured context flags.
    pub closed spec fn context_flags_spec(&self) -> ContextFlags {
        self.context_flags
    }

    /// The configured decode flags.
    pub closed spec fn decode_flags_spec(&self) -> DecodeFlags {
        self.decode_flags
    }

    /// The configured output format.
    pub closed spec fn output_format_spec(&self) -> Format {
        self.output_format
    }

    /// Create a new `png` decoder with the default limits
    pub fn new(reader: R) -> (r: Decoder<R>)
        ensures
            r.source_bytes() == reader.remaining(),
            r.source_never_fails() == reader.never_fails(),
            r.limits_spec() == default_limits(),
            r.context_flags_spec().bits == 0,
            r.decode_flags_spec().bits == 0,
            r.output_format_spec() is Png,
    {
        let decode_flags = DecodeFlags::empty();
        let context_flags = ContextFlags::empty();
        let output_format = Format::Png;
        let limits = Limits::default();
        Decoder { reader, limits, context_flags, decode_flags, output_format }
    }

    pub fn with_limits(self, limits: Limits) -> (r: Decoder<R>)
        ensures
            r.limits_spec() == limits,
            r.source_bytes() == self.source_bytes(),
            r.source_never_fails() == self.source_never_fails(),
            r.context_flags_spec() == self.context_flags_spec(),
            r.decode_flags_spec() == self.decode_flags_spec(),
            r.output_format_spec() == self.output_format_spec(),
    {
        let mut this = self;
        this.limits = limits;
        this
    }

    pub fn with_context_flags(self, context_flags: ContextFlags) -> (r: Decoder<R>)
        ensures
            r.context_flags_spec() == context_flags,
            r.source_bytes() == self.source_bytes(),
            r.source_never_fails() == self.source_never_fails(),
            r.limits_spec() == self.limits_spec(),
            r.decode_flags_spec() == self.decode_flags_spec(),
            r.output_format_spec() == self.output_format_spec(),
    {
        let mut this = self;
        this.context_flags = context_flags;
        this
    }

    pub fn with_decode_flags(self, decode_flags: DecodeFlags) -> (r: Decoder<R>)
        ensures
            r.decode_flags_spec() == decode_flags,
            r.source_bytes() == self.source_bytes(),
            r.source_never_fails() == self.source_never_fails(),
            r.limits_spec() == self.limits_spec(),
            r.context_flags_spec() == self.context_flags_spec(),
            r.output_format_spec() == self.output_format_spec(),
    {
        let mut this = self;
        this.decode_flags = decode_flags;
        this
    }

    pub fn with_output_format(self, output_format: Format) -> (r: Decoder<R>)
        ensures
            r.output_format_spec() == output_format,
            r.source_bytes() == self.source_bytes(),
            r.source_never_fails() == self.source_never_fails(),
            r.limits_spec() == self.limits_spec(),
            r.context_flags_spec() == self.context_flags_spec(),
            r.decode_flags_spec() == self.decode_flags_spec(),
    {
        let mut this = self;
        this.output_format = output_format;
        this
    }

    /// Set the limits
    pub fn set_limits(&mut self, limits: Limits)
        ensures
            final(self).limits_spec() == limits,
            final(self).source_bytes() == old(self).source_bytes(),
            final(self).source_never_fails() == old(self).source_never_fails(),
            final(self).context_flags_spec() == old(self).context_flags_spec(),
            final(self).decode_flags_spec() == old(self).decode_flags_spec(),
            final(self).output_format_spec() == old(self).output_format_spec(),
    {
        self.limits = limits;
    }

    /// Set the decoding flags
    pub fn set_decode_flags(&mut self, decode_flags: DecodeFlags)
        ensures
            final(self).decode_flags_spec() == decode_flags,
            final(self).source_bytes() == old(self).source_bytes(),
            final(self).source_never_fails() == old(self).source_never_fails(),
            final(self).limits_spec() == old(self).limits_spec(),
            final(self).context_flags_spec() == old(self).context_flags_spec(),
            final(self).output_format_spec() == old(self).output_format_spec(),
    {
        self.decode_flags = decode_flags;
    }

    /// Set the output image format
    pub fn set_output_format(&mut self, output_format: Format)
        ensures
            final(self).output_format_spec() == output_format,
            final(self).source_bytes() == old(self).source_bytes(),
            final(self).source_never_fails() == old(self).source_never_fails(),
            final(self).limits_spec() == old(self).limits_spec(),
            final(self).context_flags_spec() == old(self).context_flags_spec(),
            final(self).decode_flags_spec() == old(self).decode_flags_spec(),
    {
        self.output_format = output_format;
    }

    pub fn set_context_flags(&mut self, context_flags: ContextFlags)
        ensures
            final(self).context_flags_spec() == context_flags,
            final(self).source_bytes() == old(self).source_bytes(),
            final(self).source_never_fails() == old(self).source_never_fails(),
            final(self).limits_spec() == old(self).limits_spec(),
            final(self).decode_flags_spec() == old(self).decode_flags_spec(),
            final(self).output_format_spec() == old(self).output_format_spec(),
    {
        self.context_flags = context_flags;
    }

    /// Read the `png` header and initialize decoding.
    ///
    /// Consumes the decoder, binds its source to a fresh context, parses and
    /// validates the header, and negotiates the output buffer size for the
    /// configured output format.  Returns a [`Reader`] holding all of that,
    /// or the exact error the configuration or the stream owes.
    pub fn read_info(self) -> (r: Result<Reader<R>, Error>)
        ensures
            match r {
                Ok(rd) => {
                    &&& rd.wf()
                    &&& self.limits_spec().max_width <= 0x7FFF_FFFF
                    &&& self.limits_spec().max_height <= 0x7FFF_FFFF
                    &&& spec_parse_ihdr(self.source_bytes(), self.limits_spec(), true) == Ok::<
                        Ihdr,
                        Error,
                    >(rd.header_spec())
                    &&& spec_decoded_size(rd.header_spec(), self.output_format_spec()) == Ok::<
                        int,
                        Error,
                    >(rd.size_spec() as int)
                    &&& rd.info_spec() == spec_info(rd.header_spec())->Ok_0
                    &&& rd.output_format_spec() == self.output_format_spec()
                    &&& rd.decode_flags_spec() == self.decode_flags_spec()
                    &&& rd.state() is HeaderReady
                    &&& rd.src_remaining() == self.source_bytes().skip(header_bytes())
                    &&& rd.src_never_fails() == self.source_never_fails()
                },
                Err(e) => {
                    if self.limits_spec().max_width > 0x7FFF_FFFF || self.limits_spec().max_height
                        > 0x7FFF_FFFF {
                        e == Error::Inval
                    } else {
                        (e == Error::IoError && !self.source_never_fails()) || match spec_parse_ihdr(
                            self.source_bytes(),
                            self.limits_spec(),
                            true,
                        ) {
                            Err(pe) => e == pe,
                            Ok(h) => spec_decoded_size(h, self.output_format_spec()) == Err::<
                                int,
                                Error,
                            >(e),
                        }
                    }
                },
            },
    {
        let mut ctx = match RawContext::<R>::with_flags(self.context_flags) {
            Ok(c) => c,
            Err(e) => {
                return Err(e);
            },
        };
        match ctx.set_image_limits(self.limits.max_width, self.limits.max_height) {
            Ok(_) => {},
            Err(e) => {
                return Err(e);
            },
        }
        match ctx.set_png_stream(self.reader) {
            Ok(_) => {},
            Err(e) => {
                return Err(e);
            },
        }
        let ihdr = match ctx.get_ihdr() {
            Ok(h) => h,
            Err(e) => {
                return Err(e);
            },
        };
        let output_buffer_size = match ctx.decoded_image_size(self.output_format) {
            Ok(n) => n,
            Err(e) => {
                return Err(e);
            },
        };
        proof {
            ctx.lemma_wf_header();
        }
        let info = match Info::from_ihdr(&ihdr) {
            Ok(i) => i,
            Err(e) => {
                return Err(e);
            },
        };
        Ok(
            Reader {
                ctx,
                ihdr,
                info,
                output_buffer_size,
                output_format: self.output_format,
                decode_flags: self.decode_flags,
            },
        )
    }
}

/// PNG reader
///
/// The header-read phase's result: the parsed header, the negotiated output
/// size for the chosen format, and the context that will perform the single
/// decode.
#[derive(Debug)]
pub struct Reader<R> {
    ctx: RawContext<R>,
    ihdr: Ihdr,
    info: Info,
    output_buffer_size: usize,
    output_format: Format,
    decode_flags: DecodeFlags,
}

impl<R: ByteSource> Reader<R> {
    /// The parsed image header.
    pub closed spec fn header_spec(&self) -> Ihdr {
        self.ihdr
    }

    /// The typed image information.
    pub closed spec fn info_spec(&self) -> Info {
        self.info
    }

    /// The negotiated output buffer size.
    pub closed spec fn size_spec(&self) -> usize {
        self.output_buffer_size
    }

    /// The output format the decode will produce.
    pub closed spec fn output_format_spec(&self) -> Format {
        self.output_format
    }

    /// The flags the decode will be performed with.
    pub closed spec fn decode_flags_spec(&self) -> DecodeFlags {
        self.decode_flags
    }

    /// The phase the owned context is in.
    pub closed spec fn state(&self) -> CtxState {
        self.ctx.state()
    }

    /// The bytes the owned source has not yet delivered.
    pub closed spec fn src_remaining(&self) -> Seq<u8> {
        self.ctx.src_remaining()
    }

    /// Whether the owned source's transport never fails.
    pub closed spec fn src_never_fails(&self) -> bool {
        self.ctx.src_never_fails()
    }

    /// What every reader keeps: a well-formed context holding exactly the
    /// cached header, past its header-read phase, with the default checksum
    /// policy and chunk limit, and an information record and output size
    /// that are exactly the ones derived from the header.
    pub closed spec fn wf(&self) -> bool {
        &&& self.ctx.wf()
        &&& self.ctx.header_opt() == Some(self.ihdr)
        &&& (self.ctx.state() is HeaderReady || self.ctx.state() is Decoded || self.ctx.state()
            is Poisoned)
        &&& self.ctx.crit_check() && self.ctx.anc_check()
        &&& self.ctx.chunk_limit_spec() == 0x7FFF_FFFFu32
        &&& spec_info(self.ihdr) == Ok::<Info, Error>(self.info)
        &&& spec_decoded_size(self.ihdr, self.output_format) == Ok::<int, Error>(
            self.output_buffer_size as int,
        )
    }

    /// Returns input information
    pub fn info(&self) -> (r: Info)
        ensures
            r == self.info_spec(),
    {
        self.info
    }

    /// Returns the minimum buffer size required for `next_frame`.
    ///
    /// A stable value: it is cached at header-read time and every call
    /// returns the same result.
    pub fn output_buffer_size(&self) -> (r: usize)
        ensures
            r == self.size_spec(),
    {
        self.output_buffer_size
    }

    /// Decodes the `png` into the front of `output`. This may only be
    /// called once.
    ///
    /// The buffer must hold at least [`output_buffer_size`] bytes; a shorter
    /// buffer is refused with a size error before anything is written.  A
    /// second call returns a state error, writes nothing, and touches no
    /// buffer.  Decode flags name work this decoder does not perform, so a
    /// nonzero flag set is refused with the flags error rather than silently
    /// skipped.  On success exactly the negotiated number of bytes has been
    /// written and the returned description's `buffer_size` equals it.
    ///
    /// [`output_buffer_size`]: Reader::output_buffer_size
    pub fn next_frame(&mut self, output: &mut Vec<u8>) -> (r: Result<OutputInfo, Error>)
        requires
            old(self).wf(),
        ensures
            final(self).wf(),
            final(output)@.len() == old(output)@.len(),
            final(self).header_spec() == old(self).header_spec(),
            final(self).info_spec() == old(self).info_spec(),
            final(self).size_spec() == old(self).size_spec(),
            final(self).output_format_spec() == old(self).output_format_spec(),
            final(self).decode_flags_spec() == old(self).decode_flags_spec(),
            final(self).src_never_fails() == old(self).src_never_fails(),
            !(old(self).state() is HeaderReady) ==> {
                &&& r == Err::<OutputInfo, Error>(Error::Badstate)
                &&& final(output)@ == old(output)@
                &&& final(self).state() == old(self).state()
                &&& final(self).src_remaining() == old(self).src_remaining()
            },
            (old(self).state() is HeaderReady && old(self).decode_flags_spec().bits == 0
                && old(output)@.len() >= old(self).size_spec() && old(self).src_never_fails()
                && spec_decode_output(
                old(self).header_spec(),
                old(self).output_format_spec(),
                old(self).src_remaining(),
                true,
                true,
                0x7FFF_FFFF,
                old(self).size_spec() as int,
            ) is Ok) ==> r is Ok,
            old(self).state() is HeaderReady ==> {
                let h = old(self).header_spec();
                let n = old(self).size_spec();
                let untouched = final(output)@ == old(output)@ && final(self).state()
                    is HeaderReady && final(self).src_remaining() == old(self).src_remaining();
                if old(self).decode_flags_spec().bits != 0 {
                    r == Err::<OutputInfo, Error>(Error::Flags) && untouched
                } else if old(output)@.len() < n {
                    r == Err::<OutputInfo, Error>(Error::Bufsiz) && untouched
                } else {
                    let dres = spec_decode_output(
                        h,
                        old(self).output_format_spec(),
                        old(self).src_remaining(),
                        true,
                        true,
                        0x7FFF_FFFF,
                        n as int,
                    );
                    match r {
                        Ok(oi) => {
                            &&& dres matches Ok(img) && final(output)@ == img + old(
                                output,
                            )@.skip(n as int)
                            &&& spec_output_info(h, old(self).output_format_spec(), n as int)
                                == Ok::<OutputInfo, Error>(oi)
                            &&& oi.buffer_size == n
                            &&& final(self).state() is Decoded
                        },
                        Err(e) => {
                            &&& final(output)@ == old(output)@
                            &&& final(self).state() is Poisoned
                            &&& ((e == Error::IoError && !old(self).src_never_fails()) || dres
                                == Err::<Seq<u8>, Error>(e))
                        },
                    }
                }
            },
    {
        match self.ctx.decode_image(output, self.output_format, self.decode_flags) {
            Err(e) => Err(e),
            Ok(_) => {
                match OutputInfo::from_ihdr_format_buffer_size(
                    &self.ihdr,
                    self.output_format,
                    self.output_buffer_size,
                ) {
                    Ok(oi) => Ok(oi),
                    Err(e) => Err(e),
                }
            },
        }
    }

    /// Returns a reference to the `RawContext`.
    pub fn raw_context(&self) -> (r: &RawContext<R>)
        requires
            self.wf(),
        ensures
            r.state() == self.state(),
            r.header_opt() == Some(self.header_spec()),
    {
        &self.ctx
    }
}

/// The one outcome the whole protocol owes a session over input `bytes`
/// with output format `f`, under the default configuration: the header
/// parse, the size negotiation, and the decode, composed.
pub open spec fn spec_session_output(bytes: Seq<u8>, f: Format) -> Result<Seq<u8>, Error> {
    match spec_parse_ihdr(bytes, default_limits(), true) {
        Err(e) => Err(e),
        Ok(h) => match spec_decoded_size(h, f) {
            Err(e) => Err(e),
            Ok(n) => spec_decode_output(
                h,
                f,
                bytes.skip(header_bytes()),
                true,
                true,
                0x7FFF_FFFF,
                n,
            ),
        },
    }
}

/// Independent sessions share no state: a session's outcome is a function
/// of its own input bytes and requested format alone, so two sessions over
/// two sources can never influence one another — equal inputs give equal
/// outcomes, whatever other sessions ran.
pub proof fn lemma_sessions_independent(b1: Seq<u8>, f1: Format, b2: Seq<u8>, f2: Format)
    requires
        b1 == b2,
        f1 == f2,
    ensures
        spec_session_output(b1, f1) == spec_session_output(b2, f2),
{
}

/// Decode `png` data.
///
/// The one-shot convenience: reads the header, sizes and allocates the
/// output buffer, decodes once, and returns the output description together
/// with the decoded bytes.
pub fn decode<R: ByteSource>(reader: R, output_format: Format) -> (r: Result<
    (OutputInfo, Vec<u8>),
    Error,
>)
    ensures
        r matches Ok(p) ==> spec_session_output(reader.remaining(), output_format) == Ok::<
            Seq<u8>,
            Error,
        >(p.1@),
        r matches Err(e) ==> (e == Error::IoError && !reader.never_fails())
            || spec_session_output(reader.remaining(), output_format) == Err::<Seq<u8>, Error>(e),
        match r {
            Ok(p) => {
                &&& spec_parse_ihdr(reader.remaining(), default_limits(), true) matches Ok(h)
                    && spec_decoded_size(h, output_format) == Ok::<int, Error>(p.1@.len() as int)
                    && spec_decode_output(
                    h,
                    output_format,
                    reader.remaining().skip(header_bytes()),
                    true,
                    true,
                    0x7FFF_FFFF,
                    p.1@.len() as int,
                ) == Ok::<Seq<u8>, Error>(p.1@) && spec_output_info(
                    h,
                    output_format,
                    p.1@.len() as int,
                ) == Ok::<OutputInfo, Error>(p.0)
                &&& p.0.buffer_size == p.1@.len()
            },
            Err(e) => (e == Error::IoError && !reader.never_fails()) || match spec_parse_ihdr(
                reader.remaining(),
                default_limits(),
                true,
            ) {
                Err(pe) => e == pe,
                Ok(h) => match spec_decoded_size(h, output_format) {
                    Err(se) => e == se,
                    Ok(n) => spec_decode_output(
                        h,
                        output_format,
                        reader.remaining().skip(header_bytes()),
                        true,
                        true,
                        0x7FFF_FFFF,
                        n,
                    ) == Err::<Seq<u8>, Error>(e),
                },
            },
        },
{
    let decoder = Decoder::new(reader).with_output_format(output_format);
    let mut rd = match decoder.read_info() {
        Ok(rd) => rd,
        Err(e) => {
            return Err(e);
        },
    };
    let size = rd.output_buffer_size();
    let mut out = chunk::zeros(size);
    let out_info = match rd.next_frame(&mut out) {
        Ok(oi) => oi,
        Err(e) => {
            return Err(e);
        },
    };
    proof {
        assert(out@ =~= out@ + Seq::<u8>::empty());
    }
    Ok((out_info, out))
}

/// Returns the library version: `(major, minor, patch)`
pub fn version() -> (r: (u32, u32, u32))
    ensures
        r == (0u32, 2u32, 0u32),
{
    (0, 2, 0)
}

} // verus!
