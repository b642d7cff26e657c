use vstd::prelude::*;

verus! {

/// How a mismatching chunk checksum is handled during decoding.
#[derive(Debug, Copy, Clone, PartialEq, Eq, Hash, Structural)]
pub enum CrcAction {
    /// Report a checksum error (the default).
    Error,
    /// Skip the chunk; not valid for critical chunks.
    Discard,
    /// Proceed without checking the checksum.
    Use,
}

/// Flags chosen when a decoding context is created.
///
/// A bitset: flags combine with [`ContextFlags::union`].
#[derive(Debug, Copy, Clone, PartialEq, Eq, Hash, Structural)]
pub struct ContextFlags {
    pub bits: u32,
}

impl ContextFlags {
    /// No flags set.
    pub fn empty() -> (r: ContextFlags)
        ensures
            r.bits == 0,
    {
        ContextFlags { bits: 0 }
    }

    /// Ignore the checksum in `DEFLATE` streams.
    pub fn ignore_adler32() -> (r: ContextFlags)
        ensures
            r.bits == 1,
    {
        ContextFlags { bits: 1 }
    }

    /// The raw bit representation.
    pub fn bits(&self) -> (r: u32)
        ensures
            r == self.bits,
    {
        self.bits
    }

    /// The flag set carrying `b`, provided every bit of `b` names a known flag.
    pub fn from_bits(b: u32) -> (r: Option<ContextFlags>)
        ensures
            r matches Some(f) ==> f.bits == b,
            r is Some <==> b & 1 == b,
    {
        if b & 1 == b {
            Some(ContextFlags { bits: b })
        } else {
            None
        }
    }

    /// Whether every flag of `other` is also set in `self`.
    pub fn contains(&self, other: ContextFlags) -> (r: bool)
        ensures
            r == (self.bits & other.bits == other.bits),
    {
        self.bits & other.bits == other.bits
    }

    /// The flags set in either operand.
    pub fn union(&self, other: ContextFlags) -> (r: ContextFlags)
        ensures
            r.bits == self.bits | other.bits,
    {
        ContextFlags { bits: self.bits | other.bits }
    }
}

/// Flags chosen for the single decode call.
///
/// A bitset: flags combine with [`DecodeFlags::union`].
#[derive(Debug, Copy, Clone, PartialEq, Eq, Hash, Structural)]
pub struct DecodeFlags {
    pub bits: u32,
}

impl DecodeFlags {
    /// No flags set.
    pub fn empty() -> (r: DecodeFlags)
        ensures
            r.bits == 0,
    {
        DecodeFlags { bits: 0 }
    }

    /// Apply transparency.
    pub fn transparency() -> (r: DecodeFlags)
        ensures
            r.bits == 1,
    {
        DecodeFlags { bits: 1 }
    }

    /// Apply gamma correction.
    pub fn gamma() -> (r: DecodeFlags)
        ensures
            r.bits == 2,
    {
        DecodeFlags { bits: 2 }
    }

    /// Reduce samples to the significant bits.
    pub fn use_sbit() -> (r: DecodeFlags)
        ensures
            r.bits == 8,
    {
        DecodeFlags { bits: 8 }
    }

    /// Initialize for progressive, row-by-row reads.
    pub fn progressive() -> (r: DecodeFlags)
        ensures
            r.bits == 256,
    {
        DecodeFlags { bits: 256 }
    }

    /// The raw bit representation.
    pub fn bits(&self) -> (r: u32)
        ensures
            r == self.bits,
    {
        self.bits
    }

    /// The flag set carrying `b`, provided every bit of `b` names a known flag.
    pub fn from_bits(b: u32) -> (r: Option<DecodeFlags>)
        ensures
            r matches Some(f) ==> f.bits == b,
            r is Some <==> b & 267 == b,
    {
        if b & 267 == b {
            Some(DecodeFlags { bits: b })
        } else {
            None
        }
    }

    /// Whether every flag of `other` is also set in `self`.
    pub fn contains(&self, other: DecodeFlags) -> (r: bool)
        ensures
            r == (self.bits & other.bits == other.bits),
    {
        self.bits & other.bits == other.bits
    }

    /// The flags set in either operand.
    pub fn union(&self, other: DecodeFlags) -> (r: DecodeFlags)
        ensures
            r.bits == self.bits | other.bits,
    {
        DecodeFlags { bits: self.bits | other.bits }
    }
}

} // verus!
