use vstd::prelude::*;
verus! {
/// The closed taxonomy of status conditions this library reports.
///
/// Every operation that can fail returns one of these kinds.  Each kind has a
/// stable numeric status code, recovered by [`code_of`]; the exec translation
/// from a raw code back to a kind is [`check_err`].  Codes unknown to this
/// taxonomy degrade to the generic [`Error::Inval`] kind rather than failing.
#[derive(Debug, Copy, Clone, PartialEq, Eq, Hash, Structural)]
pub enum Error {
    IoError,
    IoEof,
    Inval,
    Mem,
    Overflow,
    Signature,
    Width,
    Height,
    UserWidth,
    UserHeight,
    BitDepth,
    ColorType,
    CompressionMethod,
    FilterMethod,
    InterlaceMethod,
    IhdrSize,
    Noihdr,
    ChunkPos,
    ChunkSize,
    ChunkCrc,
    ChunkType,
    ChunkUnknownCritical,
    DupPlte,
    DupChrm,
    DupGama,
    DupIccp,
    DupSbit,
    DupSrgb,
    DupBkgd,
    DupHist,
    DupTrns,
    DupPhys,
    DupTime,
    DupOffs,
    DupExif,
    Chrm,
    PlteIdx,
    TrnsColorType,
    TrnsNoPlte,
    Gama,
    IccpName,
    IccpCompressionMethod,
    Sbit,
    Srgb,
    Text,
    TextKeyword,
    Ztxt,
    ZtxtCompressionMethod,
    Itxt,
    ItxtCompressionFlag,
    ItxtCompressionMethod,
    ItxtLangTag,
    ItxtTranslatedKey,
    BkgdNoPlte,
    BkgdPlteIdx,
    HistNoPlte,
    Phys,
    SpltName,
    SpltDupName,
    SpltDepth,
    Time,
    Offs,
    Exif,
    IdatTooShort,
    IdatStream,
    Zlib,
    Filter,
    Bufsiz,
    Io,
    Eof,
    BufSet,
    Badstate,
    Fmt,
    Flags,
    Chunkavail,
    NcodeOnly,
    Oi,
    Noplte,
    ChunkLimits,
    ZlibInit,
    ChunkStdlen,
    Internal,
    CtxType,
    NoSrc,
    NoDst,
    OpState,
    NotFinal,
}

/// The numeric status code of each error kind.
///
/// The mapping is total and injective: distinct kinds carry distinct codes,
/// and no kind uses the success code 0 (see [`lemma_code_of_injective`]).
pub open spec fn code_of(e: Error) -> int {
    match e {
        Error::IoError => -2,
        Error::IoEof => -1,
        Error::Inval => 1,
        Error::Mem => 2,
        Error::Overflow => 3,
        Error::Signature => 4,
        Error::Width => 5,
        Error::Height => 6,
        Error::UserWidth => 7,
        Error::UserHeight => 8,
        Error::BitDepth => 9,
        Error::ColorType => 10,
        Error::CompressionMethod => 11,
        Error::FilterMethod => 12,
        Error::InterlaceMethod => 13,
        Error::IhdrSize => 14,
        Error::Noihdr => 15,
        Error::ChunkPos => 16,
        Error::ChunkSize => 17,
        Error::ChunkCrc => 18,
        Error::ChunkType => 19,
        Error::ChunkUnknownCritical => 20,
        Error::DupPlte => 21,
        Error::DupChrm => 22,
        Error::DupGama => 23,
        Error::DupIccp => 24,
        Error::DupSbit => 25,
        Error::DupSrgb => 26,
        Error::DupBkgd => 27,
        Error::DupHist => 28,
        Error::DupTrns => 29,
        Error::DupPhys => 30,
        Error::DupTime => 31,
        Error::DupOffs => 32,
        Error::DupExif => 33,
        Error::Chrm => 34,
        Error::PlteIdx => 35,
        Error::TrnsColorType => 36,
        Error::TrnsNoPlte => 37,
        Error::Gama => 38,
        Error::IccpName => 39,
        Error::IccpCompressionMethod => 40,
        Error::Sbit => 41,
        Error::Srgb => 42,
        Error::Text => 43,
        Error::TextKeyword => 44,
        Error::Ztxt => 45,
        Error::ZtxtCompressionMethod => 46,
        Error::Itxt => 47,
        Error::ItxtCompressionFlag => 48,
        Error::ItxtCompressionMethod => 49,
        Error::ItxtLangTag => 50,
        Error::ItxtTranslatedKey => 51,
        Error::BkgdNoPlte => 52,
        Error::BkgdPlteIdx => 53,
        Error::HistNoPlte => 54,
        Error::Phys => 55,
        Error::SpltName => 56,
        Error::SpltDupName => 57,
        Error::SpltDepth => 58,
        Error::Time => 59,
        Error::Offs => 60,
        Error::Exif => 61,
        Error::IdatTooShort => 62,
        Error::IdatStream => 63,
        Error::Zlib => 64,
        Error::Filter => 65,
        Error::Bufsiz => 66,
        Error::Io => 67,
        Error::Eof => 68,
        Error::BufSet => 69,
        Error::Badstate => 70,
        Error::Fmt => 71,
        Error::Flags => 72,
        Error::Chunkavail => 73,
        Error::NcodeOnly => 74,
        Error::Oi => 75,
        Error::Noplte => 76,
        Error::ChunkLimits => 77,
        Error::ZlibInit => 78,
        Error::ChunkStdlen => 79,
        Error::Internal => 80,
        Error::CtxType => 81,
        Error::NoSrc => 82,
        Error::NoDst => 83,
        Error::OpState => 84,
        Error::NotFinal => 85,
    }
}

/// The error kind that a raw status code denotes.
///
/// Total over all nonzero codes: a code outside the taxonomy maps to the
/// generic [`Error::Inval`] kind.
pub open spec fn error_of(c: int) -> Error {
    if c == -2 { Error::IoError }
    else if c == -1 { Error::IoEof }
    else if c == 2 { Error::Mem }
    else if c == 3 { Error::Overflow }
    else if c == 4 { Error::Signature }
    else if c == 5 { Error::Width }
    else if c == 6 { Error::Height }
    else if c == 7 { Error::UserWidth }
    else if c == 8 { Error::UserHeight }
    else if c == 9 { Error::BitDepth }
    else if c == 10 { Error::ColorType }
    else if c == 11 { Error::CompressionMethod }
    else if c == 12 { Error::FilterMethod }
    else if c == 13 { Error::InterlaceMethod }
    else if c == 14 { Error::IhdrSize }
    else if c == 15 { Error::Noihdr }
    else if c == 16 { Error::ChunkPos }
    else if c == 17 { Error::ChunkSize }
    else if c == 18 { Error::ChunkCrc }
    else if c == 19 { Error::ChunkType }
    else if c == 20 { Error::ChunkUnknownCritical }
    else if c == 21 { Error::DupPlte }
    else if c == 22 { Error::DupChrm }
    else if c == 23 { Error::DupGama }
    else if c == 24 { Error::DupIccp }
    else if c == 25 { Error::DupSbit }
    else if c == 26 { Error::DupSrgb }
    else if c == 27 { Error::DupBkgd }
    else if c == 28 { Error::DupHist }
    else if c == 29 { Error::DupTrns }
    else if c == 30 { Error::DupPhys }
    else if c == 31 { Error::DupTime }
    else if c == 32 { Error::DupOffs }
    else if c == 33 { Error::DupExif }
    else if c == 34 { Error::Chrm }
    else if c == 35 { Error::PlteIdx }
    else if c == 36 { Error::TrnsColorType }
    else if c == 37 { Error::TrnsNoPlte }
    else if c == 38 { Error::Gama }
    else if c == 39 { Error::IccpName }
    else if c == 40 { Error::IccpCompressionMethod }
    else if c == 41 { Error::Sbit }
    else if c == 42 { Error::Srgb }
    else if c == 43 { Error::Text }
    else if c == 44 { Error::TextKeyword }
    else if c == 45 { Error::Ztxt }
    else if c == 46 { Error::ZtxtCompressionMethod }
    else if c == 47 { Error::Itxt }
    else if c == 48 { Error::ItxtCompressionFlag }
    else if c == 49 { Error::ItxtCompressionMethod }
    else if c == 50 { Error::ItxtLangTag }
    else if c == 51 { Error::ItxtTranslatedKey }
    else if c == 52 { Error::BkgdNoPlte }
    else if c == 53 { Error::BkgdPlteIdx }
    else if c == 54 { Error::HistNoPlte }
    else if c == 55 { Error::Phys }
    else if c == 56 { Error::SpltName }
    else if c == 57 { Error::SpltDupName }
    else if c == 58 { Error::SpltDepth }
    else if c == 59 { Error::Time }
    else if c == 60 { Error::Offs }
    else if c == 61 { Error::Exif }
    else if c == 62 { Error::IdatTooShort }
    else if c == 63 { Error::IdatStream }
    else if c == 64 { Error::Zlib }
    else if c == 65 { Error::Filter }
    else if c == 66 { Error::Bufsiz }
    else if c == 67 { Error::Io }
    else if c == 68 { Error::Eof }
    else if c == 69 { Error::BufSet }
    else if c == 70 { Error::Badstate }
    else if c == 71 { Error::Fmt }
    else if c == 72 { Error::Flags }
    else if c == 73 { Error::Chunkavail }
    else if c == 74 { Error::NcodeOnly }
    else if c == 75 { Error::Oi }
    else if c == 76 { Error::Noplte }
    else if c == 77 { Error::ChunkLimits }
    else if c == 78 { Error::ZlibInit }
    else if c == 79 { Error::ChunkStdlen }
    else if c == 80 { Error::Internal }
    else if c == 81 { Error::CtxType }
    else if c == 82 { Error::NoSrc }
    else if c == 83 { Error::NoDst }
    else if c == 84 { Error::OpState }
    else if c == 85 { Error::NotFinal }
    else { Error::Inval }
}

/// Decoding a kind's own code recovers the kind: the numeric mapping loses
/// nothing, and is therefore injective.
pub proof fn lemma_code_of_injective(e1: Error, e2: Error)
    ensures
        error_of(code_of(e1)) == e1,
        code_of(e1) != 0,
        code_of(e1) == code_of(e2) ==> e1 == e2,
{
    assert(error_of(code_of(e1)) == e1);
    assert(error_of(code_of(e2)) == e2);
}

/// Translates a raw status code into a typed outcome.
///
/// Succeeds exactly for the success code 0.  Every nonzero code maps to the
/// kind given by [`error_of`]; unrecognized codes are coerced to
/// [`Error::Inval`] instead of failing.
pub fn check_err(c: i32) -> (r: Result<(), Error>)
    ensures
        r is Ok <==> c == 0,
        r matches Err(e) ==> e == error_of(c as int),
{
    if c == 0 {
        Ok(())
    } else {
        Err(code_to_error(c))
    }
}

/// The exec counterpart of [`error_of`].
fn code_to_error(c: i32) -> (e: Error)
    ensures
        e == error_of(c as int),
{
    match c {
        -2 => Error::IoError,
        -1 => Error::IoEof,
        2 => Error::Mem,
        3 => Error::Overflow,
        4 => Error::Signature,
        5 => Error::Width,
        6 => Error::Height,
        7 => Error::UserWidth,
        8 => Error::UserHeight,
        9 => Error::BitDepth,
        10 => Error::ColorType,
        11 => Error::CompressionMethod,
        12 => Error::FilterMethod,
        13 => Error::InterlaceMethod,
        14 => Error::IhdrSize,
        15 => Error::Noihdr,
        16 => Error::ChunkPos,
        17 => Error::ChunkSize,
        18 => Error::ChunkCrc,
        19 => Error::ChunkType,
        20 => Error::ChunkUnknownCritical,
        21 => Error::DupPlte,
        22 => Error::DupChrm,
        23 => Error::DupGama,
        24 => Error::DupIccp,
        25 => Error::DupSbit,
        26 => Error::DupSrgb,
        27 => Error::DupBkgd,
        28 => Error::DupHist,
        29 => Error::DupTrns,
        30 => Error::DupPhys,
        31 => Error::DupTime,
        32 => Error::DupOffs,
        33 => Error::DupExif,
        34 => Error::Chrm,
        35 => Error::PlteIdx,
        36 => Error::TrnsColorType,
        37 => Error::TrnsNoPlte,
        38 => Error::Gama,
        39 => Error::IccpName,
        40 => Error::IccpCompressionMethod,
        41 => Error::Sbit,
        42 => Error::Srgb,
        43 => Error::Text,
        44 => Error::TextKeyword,
        45 => Error::Ztxt,
        46 => Error::ZtxtCompressionMethod,
        47 => Error::Itxt,
        48 => Error::ItxtCompressionFlag,
        49 => Error::ItxtCompressionMethod,
        50 => Error::ItxtLangTag,
        51 => Error::ItxtTranslatedKey,
        52 => Error::BkgdNoPlte,
        53 => Error::BkgdPlteIdx,
        54 => Error::HistNoPlte,
        55 => Error::Phys,
        56 => Error::SpltName,
        57 => Error::SpltDupName,
        58 => Error::SpltDepth,
        59 => Error::Time,
        60 => Error::Offs,
        61 => Error::Exif,
        62 => Error::IdatTooShort,
        63 => Error::IdatStream,
        64 => Error::Zlib,
        65 => Error::Filter,
        66 => Error::Bufsiz,
        67 => Error::Io,
        68 => Error::Eof,
        69 => Error::BufSet,
        70 => Error::Badstate,
        71 => Error::Fmt,
        72 => Error::Flags,
        73 => Error::Chunkavail,
        74 => Error::NcodeOnly,
        75 => Error::Oi,
        76 => Error::Noplte,
        77 => Error::ChunkLimits,
        78 => Error::ZlibInit,
        79 => Error::ChunkStdlen,
        80 => Error::Internal,
        81 => Error::CtxType,
        82 => Error::NoSrc,
        83 => Error::NoDst,
        84 => Error::OpState,
        85 => Error::NotFinal,
        _ => Error::Inval,
    }
}

/// The fixed description of each error kind; the text [`Error::describe`]
/// returns.  Each kind has its own message, fixed at build time.
pub open spec fn message_of(e: Error) -> Seq<char> {
    match e {
        Error::IoError => "stream read error"@,
        Error::IoEof => "end of stream"@,
        Error::Inval => "invalid argument"@,
        Error::Mem => "out of memory"@,
        Error::Overflow => "arithmetic overflow"@,
        Error::Signature => "invalid signature"@,
        Error::Width => "invalid image width"@,
        Error::Height => "invalid image height"@,
        Error::UserWidth => "image width exceeds user limit"@,
        Error::UserHeight => "image height exceeds user limit"@,
        Error::BitDepth => "invalid bit depth"@,
        Error::ColorType => "invalid color type"@,
        Error::CompressionMethod => "invalid compression method"@,
        Error::FilterMethod => "invalid filter method"@,
        Error::InterlaceMethod => "invalid interlace method"@,
        Error::IhdrSize => "invalid image header chunk size"@,
        Error::Noihdr => "missing image header chunk"@,
        Error::ChunkPos => "invalid chunk position"@,
        Error::ChunkSize => "invalid chunk size"@,
        Error::ChunkCrc => "invalid chunk checksum"@,
        Error::ChunkType => "invalid chunk type"@,
        Error::ChunkUnknownCritical => "unknown critical chunk"@,
        Error::DupPlte => "duplicate palette chunk"@,
        Error::DupChrm => "duplicate chromaticity chunk"@,
        Error::DupGama => "duplicate gamma chunk"@,
        Error::DupIccp => "duplicate color profile chunk"@,
        Error::DupSbit => "duplicate significant bits chunk"@,
        Error::DupSrgb => "duplicate rendering intent chunk"@,
        Error::DupBkgd => "duplicate background chunk"@,
        Error::DupHist => "duplicate histogram chunk"@,
        Error::DupTrns => "duplicate transparency chunk"@,
        Error::DupPhys => "duplicate physical dimensions chunk"@,
        Error::DupTime => "duplicate modification time chunk"@,
        Error::DupOffs => "duplicate offset chunk"@,
        Error::DupExif => "duplicate exif chunk"@,
        Error::Chrm => "invalid chromaticity chunk"@,
        Error::PlteIdx => "invalid palette index"@,
        Error::TrnsColorType => "transparency chunk with invalid color type"@,
        Error::TrnsNoPlte => "transparency chunk without palette"@,
        Error::Gama => "invalid gamma chunk"@,
        Error::IccpName => "invalid color profile name"@,
        Error::IccpCompressionMethod => "invalid color profile compression method"@,
        Error::Sbit => "invalid significant bits chunk"@,
        Error::Srgb => "invalid rendering intent chunk"@,
        Error::Text => "invalid text chunk"@,
        Error::TextKeyword => "invalid text chunk keyword"@,
        Error::Ztxt => "invalid compressed text chunk"@,
        Error::ZtxtCompressionMethod => "invalid compressed text chunk compression method"@,
        Error::Itxt => "invalid international text chunk"@,
        Error::ItxtCompressionFlag => "invalid international text chunk compression flag"@,
        Error::ItxtCompressionMethod => "invalid international text chunk compression method"@,
        Error::ItxtLangTag => "invalid international text chunk language tag"@,
        Error::ItxtTranslatedKey => "invalid international text chunk translated keyword"@,
        Error::BkgdNoPlte => "background chunk without palette"@,
        Error::BkgdPlteIdx => "invalid background palette index"@,
        Error::HistNoPlte => "histogram chunk without palette"@,
        Error::Phys => "invalid physical dimensions chunk"@,
        Error::SpltName => "invalid suggested palette name"@,
        Error::SpltDupName => "duplicate suggested palette name"@,
        Error::SpltDepth => "invalid suggested palette sample depth"@,
        Error::Time => "invalid modification time chunk"@,
        Error::Offs => "invalid offset chunk"@,
        Error::Exif => "invalid exif chunk"@,
        Error::IdatTooShort => "image data is too short"@,
        Error::IdatStream => "invalid image data stream"@,
        Error::Zlib => "zlib error"@,
        Error::Filter => "invalid scanline filter"@,
        Error::Bufsiz => "output buffer is too small"@,
        Error::Io => "input/output error"@,
        Error::Eof => "unexpected end of file"@,
        Error::BufSet => "input source was already set"@,
        Error::Badstate => "invalid operation for the current state"@,
        Error::Fmt => "invalid or unsupported output format"@,
        Error::Flags => "invalid flags"@,
        Error::Chunkavail => "chunk is not available"@,
        Error::NcodeOnly => "operation is valid for encoders only"@,
        Error::Oi => "end of image"@,
        Error::Noplte => "missing palette chunk"@,
        Error::ChunkLimits => "chunk exceeds configured limits"@,
        Error::ZlibInit => "zlib initialization error"@,
        Error::ChunkStdlen => "chunk length exceeds the standard maximum"@,
        Error::Internal => "internal error"@,
        Error::CtxType => "invalid context type"@,
        Error::NoSrc => "no input source set"@,
        Error::NoDst => "no output destination set"@,
        Error::OpState => "invalid operation for the current decoding state"@,
        Error::NotFinal => "scanline is not final"@,
    }
}

impl Error {
    /// The numeric status code of this kind; the exec counterpart of [`code_of`].
    pub fn code(&self) -> (c: i32)
        ensures
            c as int == code_of(*self),
    {
        match *self {
            Error::IoError => -2,
            Error::IoEof => -1,
            Error::Inval => 1,
            Error::Mem => 2,
            Error::Overflow => 3,
            Error::Signature => 4,
            Error::Width => 5,
            Error::Height => 6,
            Error::UserWidth => 7,
            Error::UserHeight => 8,
            Error::BitDepth => 9,
            Error::ColorType => 10,
            Error::CompressionMethod => 11,
            Error::FilterMethod => 12,
            Error::InterlaceMethod => 13,
            Error::IhdrSize => 14,
            Error::Noihdr => 15,
            Error::ChunkPos => 16,
            Error::ChunkSize => 17,
            Error::ChunkCrc => 18,
            Error::ChunkType => 19,
            Error::ChunkUnknownCritical => 20,
            Error::DupPlte => 21,
            Error::DupChrm => 22,
            Error::DupGama => 23,
            Error::DupIccp => 24,
            Error::DupSbit => 25,
            Error::DupSrgb => 26,
            Error::DupBkgd => 27,
            Error::DupHist => 28,
            Error::DupTrns => 29,
            Error::DupPhys => 30,
            Error::DupTime => 31,
            Error::DupOffs => 32,
            Error::DupExif => 33,
            Error::Chrm => 34,
            Error::PlteIdx => 35,
            Error::TrnsColorType => 36,
            Error::TrnsNoPlte => 37,
            Error::Gama => 38,
            Error::IccpName => 39,
            Error::IccpCompressionMethod => 40,
            Error::Sbit => 41,
            Error::Srgb => 42,
            Error::Text => 43,
            Error::TextKeyword => 44,
            Error::Ztxt => 45,
            Error::ZtxtCompressionMethod => 46,
            Error::Itxt => 47,
            Error::ItxtCompressionFlag => 48,
            Error::ItxtCompressionMethod => 49,
            Error::ItxtLangTag => 50,
            Error::ItxtTranslatedKey => 51,
            Error::BkgdNoPlte => 52,
            Error::BkgdPlteIdx => 53,
            Error::HistNoPlte => 54,
            Error::Phys => 55,
            Error::SpltName => 56,
            Error::SpltDupName => 57,
            Error::SpltDepth => 58,
            Error::Time => 59,
            Error::Offs => 60,
            Error::Exif => 61,
            Error::IdatTooShort => 62,
            Error::IdatStream => 63,
            Error::Zlib => 64,
            Error::Filter => 65,
            Error::Bufsiz => 66,
            Error::Io => 67,
            Error::Eof => 68,
            Error::BufSet => 69,
            Error::Badstate => 70,
            Error::Fmt => 71,
            Error::Flags => 72,
            Error::Chunkavail => 73,
            Error::NcodeOnly => 74,
            Error::Oi => 75,
            Error::Noplte => 76,
            Error::ChunkLimits => 77,
            Error::ZlibInit => 78,
            Error::ChunkStdlen => 79,
            Error::Internal => 80,
            Error::CtxType => 81,
            Error::NoSrc => 82,
            Error::NoDst => 83,
            Error::OpState => 84,
            Error::NotFinal => 85,
        }
    }

    /// A short human-readable description of this kind: exactly the text of
    /// [`message_of`], never empty.
    pub fn describe(&self) -> (r: &'static str)
        ensures
            r@ == message_of(*self),
            r@.len() > 0,
    {
        match *self {
            Error::IoError => {
                proof {
                    reveal_strlit("stream read error");
                }
                "stream read error"
            },
            Error::IoEof => {
                proof {
                    reveal_strlit("end of stream");
                }
                "end of stream"
            },
            Error::Inval => {
                proof {
                    reveal_strlit("invalid argument");
                }
                "invalid argument"
            },
            Error::Mem => {
                proof {
                    reveal_strlit("out of memory");
                }
                "out of memory"
            },
            Error::Overflow => {
                proof {
                    reveal_strlit("arithmetic overflow");
                }
                "arithmetic overflow"
            },
            Error::Signature => {
                proof {
                    reveal_strlit("invalid signature");
                }
                "invalid signature"
            },
            Error::Width => {
                proof {
                    reveal_strlit("invalid image width");
                }
                "invalid image width"
            },
            Error::Height => {
                proof {
                    reveal_strlit("invalid image height");
                }
                "invalid image height"
            },
            Error::UserWidth => {
                proof {
                    reveal_strlit("image width exceeds user limit");
                }
                "image width exceeds user limit"
            },
            Error::UserHeight => {
                proof {
                    reveal_strlit("image height exceeds user limit");
                }
                "image height exceeds user limit"
            },
            Error::BitDepth => {
                proof {
                    reveal_strlit("invalid bit depth");
                }
                "invalid bit depth"
            },
            Error::ColorType => {
                proof {
                    reveal_strlit("invalid color type");
                }
                "invalid color type"
            },
            Error::CompressionMethod => {
                proof {
                    reveal_strlit("invalid compression method");
                }
                "invalid compression method"
            },
            Error::FilterMethod => {
                proof {
                    reveal_strlit("invalid filter method");
                }
                "invalid filter method"
            },
            Error::InterlaceMethod => {
                proof {
                    reveal_strlit("invalid interlace method");
                }
                "invalid interlace method"
            },
            Error::IhdrSize => {
                proof {
                    reveal_strlit("invalid image header chunk size");
                }
                "invalid image header chunk size"
            },
            Error::Noihdr => {
                proof {
                    reveal_strlit("missing image header chunk");
                }
                "missing image header chunk"
            },
            Error::ChunkPos => {
                proof {
                    reveal_strlit("invalid chunk position");
                }
                "invalid chunk position"
            },
            Error::ChunkSize => {
                proof {
                    reveal_strlit("invalid chunk size");
                }
                "invalid chunk size"
            },
            Error::ChunkCrc => {
                proof {
                    reveal_strlit("invalid chunk checksum");
                }
                "invalid chunk checksum"
            },
            Error::ChunkType => {
                proof {
                    reveal_strlit("invalid chunk type");
                }
                "invalid chunk type"
            },
            Error::ChunkUnknownCritical => {
                proof {
                    reveal_strlit("unknown critical chunk");
                }
                "unknown critical chunk"
            },
            Error::DupPlte => {
                proof {
                    reveal_strlit("duplicate palette chunk");
                }
                "duplicate palette chunk"
            },
            Error::DupChrm => {
                proof {
                    reveal_strlit("duplicate chromaticity chunk");
                }
                "duplicate chromaticity chunk"
            },
            Error::DupGama => {
                proof {
                    reveal_strlit("duplicate gamma chunk");
                }
                "duplicate gamma chunk"
            },
            Error::DupIccp => {
                proof {
                    reveal_strlit("duplicate color profile chunk");
                }
                "duplicate color profile chunk"
            },
            Error::DupSbit => {
                proof {
                    reveal_strlit("duplicate significant bits chunk");
                }
                "duplicate significant bits chunk"
            },
            Error::DupSrgb => {
                proof {
                    reveal_strlit("duplicate rendering intent chunk");
                }
                "duplicate rendering intent chunk"
            },
            Error::DupBkgd => {
                proof {
                    reveal_strlit("duplicate background chunk");
                }
                "duplicate background chunk"
            },
            Error::DupHist => {
                proof {
                    reveal_strlit("duplicate histogram chunk");
                }
                "duplicate histogram chunk"
            },
            Error::DupTrns => {
                proof {
                    reveal_strlit("duplicate transparency chunk");
                }
                "duplicate transparency chunk"
            },
            Error::DupPhys => {
                proof {
                    reveal_strlit("duplicate physical dimensions chunk");
                }
                "duplicate physical dimensions chunk"
            },
            Error::DupTime => {
                proof {
                    reveal_strlit("duplicate modification time chunk");
                }
                "duplicate modification time chunk"
            },
            Error::DupOffs => {
                proof {
                    reveal_strlit("duplicate offset chunk");
                }
                "duplicate offset chunk"
            },
            Error::DupExif => {
                proof {
                    reveal_strlit("duplicate exif chunk");
                }
                "duplicate exif chunk"
            },
            Error::Chrm => {
                proof {
                    reveal_strlit("invalid chromaticity chunk");
                }
                "invalid chromaticity chunk"
            },
            Error::PlteIdx => {
                proof {
                    reveal_strlit("invalid palette index");
                }
                "invalid palette index"
            },
            Error::TrnsColorType => {
                proof {
                    reveal_strlit("transparency chunk with invalid color type");
                }
                "transparency chunk with invalid color type"
            },
            Error::TrnsNoPlte => {
                proof {
                    reveal_strlit("transparency chunk without palette");
                }
                "transparency chunk without palette"
            },
            Error::Gama => {
                proof {
                    reveal_strlit("invalid gamma chunk");
                }
                "invalid gamma chunk"
            },
            Error::IccpName => {
                proof {
                    reveal_strlit("invalid color profile name");
                }
                "invalid color profile name"
            },
            Error::IccpCompressionMethod => {
                proof {
                    reveal_strlit("invalid color profile compression method");
                }
                "invalid color profile compression method"
            },
            Error::Sbit => {
                proof {
                    reveal_strlit("invalid significant bits chunk");
                }
                "invalid significant bits chunk"
            },
            Error::Srgb => {
                proof {
                    reveal_strlit("invalid rendering intent chunk");
                }
                "invalid rendering intent chunk"
            },
            Error::Text => {
                proof {
                    reveal_strlit("invalid text chunk");
                }
                "invalid text chunk"
            },
            Error::TextKeyword => {
                proof {
                    reveal_strlit("invalid text chunk keyword");
                }
                "invalid text chunk keyword"
            },
            Error::Ztxt => {
                proof {
                    reveal_strlit("invalid compressed text chunk");
                }
                "invalid compressed text chunk"
            },
            Error::ZtxtCompressionMethod => {
                proof {
                    reveal_strlit("invalid compressed text chunk compression method");
                }
                "invalid compressed text chunk compression method"
            },
            Error::Itxt => {
                proof {
                    reveal_strlit("invalid international text chunk");
                }
                "invalid international text chunk"
            },
            Error::ItxtCompressionFlag => {
                proof {
                    reveal_strlit("invalid international text chunk compression flag");
                }
                "invalid international text chunk compression flag"
            },
            Error::ItxtCompressionMethod => {
                proof {
                    reveal_strlit("invalid international text chunk compression method");
                }
                "invalid international text chunk compression method"
            },
            Error::ItxtLangTag => {
                proof {
                    reveal_strlit("invalid international text chunk language tag");
                }
                "invalid international text chunk language tag"
            },
            Error::ItxtTranslatedKey => {
                proof {
                    reveal_strlit("invalid international text chunk translated keyword");
                }
                "invalid international text chunk translated keyword"
            },
            Error::BkgdNoPlte => {
                proof {
                    reveal_strlit("background chunk without palette");
                }
                "background chunk without palette"
            },
            Error::BkgdPlteIdx => {
                proof {
                    reveal_strlit("invalid background palette index");
                }
                "invalid background palette index"
            },
            Error::HistNoPlte => {
                proof {
                    reveal_strlit("histogram chunk without palette");
                }
                "histogram chunk without palette"
            },
            Error::Phys => {
                proof {
                    reveal_strlit("invalid physical dimensions chunk");
                }
                "invalid physical dimensions chunk"
            },
            Error::SpltName => {
                proof {
                    reveal_strlit("invalid suggested palette name");
                }
                "invalid suggested palette name"
            },
            Error::SpltDupName => {
                proof {
                    reveal_strlit("duplicate suggested palette name");
                }
                "duplicate suggested palette name"
            },
            Error::SpltDepth => {
                proof {
                    reveal_strlit("invalid suggested palette sample depth");
                }
                "invalid suggested palette sample depth"
            },
            Error::Time => {
                proof {
                    reveal_strlit("invalid modification time chunk");
                }
                "invalid modification time chunk"
            },
            Error::Offs => {
                proof {
                    reveal_strlit("invalid offset chunk");
                }
                "invalid offset chunk"
            },
            Error::Exif => {
                proof {
                    reveal_strlit("invalid exif chunk");
                }
                "invalid exif chunk"
            },
            Error::IdatTooShort => {
                proof {
                    reveal_strlit("image data is too short");
                }
                "image data is too short"
            },
            Error::IdatStream => {
                proof {
                    reveal_strlit("invalid image data stream");
                }
                "invalid image data stream"
            },
            Error::Zlib => {
                proof {
                    reveal_strlit("zlib error");
                }
                "zlib error"
            },
            Error::Filter => {
                proof {
                    reveal_strlit("invalid scanline filter");
                }
                "invalid scanline filter"
            },
            Error::Bufsiz => {
                proof {
                    reveal_strlit("output buffer is too small");
                }
                "output buffer is too small"
            },
            Error::Io => {
                proof {
                    reveal_strlit("input/output error");
                }
                "input/output error"
            },
            Error::Eof => {
                proof {
                    reveal_strlit("unexpected end of file");
                }
                "unexpected end of file"
            },
            Error::BufSet => {
                proof {
                    reveal_strlit("input source was already set");
                }
                "input source was already set"
            },
            Error::Badstate => {
                proof {
                    reveal_strlit("invalid operation for the current state");
                }
                "invalid operation for the current state"
            },
            Error::Fmt => {
                proof {
                    reveal_strlit("invalid or unsupported output format");
                }
                "invalid or unsupported output format"
            },
            Error::Flags => {
                proof {
                    reveal_strlit("invalid flags");
                }
                "invalid flags"
            },
            Error::Chunkavail => {
                proof {
                    reveal_strlit("chunk is not available");
                }
                "chunk is not available"
            },
            Error::NcodeOnly => {
                proof {
                    reveal_strlit("operation is valid for encoders only");
                }
                "operation is valid for encoders only"
            },
            Error::Oi => {
                proof {
                    reveal_strlit("end of image");
                }
                "end of image"
            },
            Error::Noplte => {
                proof {
                    reveal_strlit("missing palette chunk");
                }
                "missing palette chunk"
            },
            Error::ChunkLimits => {
                proof {
                    reveal_strlit("chunk exceeds configured limits");
                }
                "chunk exceeds configured limits"
            },
            Error::ZlibInit => {
                proof {
                    reveal_strlit("zlib initialization error");
                }
                "zlib initialization error"
            },
            Error::ChunkStdlen => {
                proof {
                    reveal_strlit("chunk length exceeds the standard maximum");
                }
                "chunk length exceeds the standard maximum"
            },
            Error::Internal => {
                proof {
                    reveal_strlit("internal error");
                }
                "internal error"
            },
            Error::CtxType => {
                proof {
                    reveal_strlit("invalid context type");
                }
                "invalid context type"
            },
            Error::NoSrc => {
                proof {
                    reveal_strlit("no input source set");
                }
                "no input source set"
            },
            Error::NoDst => {
                proof {
                    reveal_strlit("no output destination set");
                }
                "no output destination set"
            },
            Error::OpState => {
                proof {
                    reveal_strlit("invalid operation for the current decoding state");
                }
                "invalid operation for the current decoding state"
            },
            Error::NotFinal => {
                proof {
                    reveal_strlit("scanline is not final");
                }
                "scanline is not final"
            },
        }
    }
}

} // verus!
