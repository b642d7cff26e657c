use vstd::prelude::*;

verus! {

/// The outcome of one read step of a [`ByteSource`].
#[derive(Debug, Copy, Clone, PartialEq, Eq, Structural)]
pub enum ReadOutcome {
    /// This many bytes were delivered; always at least one.
    Data(usize),
    /// The source has no bytes left.
    End,
    /// The underlying transport failed.
    Failure,
}

/// A pull-based byte source: the input abstraction a decoding context reads
/// the container from.
///
/// A source delivers the bytes of [`ByteSource::remaining`] in order, in
/// chunks of its own choosing, and reports [`ReadOutcome::End`] exactly when
/// it is exhausted.  A source whose transport cannot fail says so through
/// [`ByteSource::never_fails`]; the decoder's contracts are exact for such
/// sources and allow a `Failure` outcome anywhere for the others.
pub trait ByteSource: Sized {
    /// The bytes this source will deliver, in order, if read to exhaustion.
    spec fn remaining(&self) -> Seq<u8>;

    /// Whether this source's transport never reports a failure.
    spec fn never_fails(&self) -> bool;

    /// Reads at least one byte into `dest[offset..]`, returning how many
    /// bytes were delivered, that the source is exhausted, or that the
    /// transport failed.  Bytes before `offset` are left unchanged.
    fn read_into(&mut self, dest: &mut Vec<u8>, offset: usize) -> (r: ReadOutcome)
        requires
            offset < old(dest)@.len(),
        ensures
            final(dest)@.len() == old(dest)@.len(),
            final(self).never_fails() == old(self).never_fails(),
            match r {
                ReadOutcome::Data(n) => {
                    &&& 1 <= n
                    &&& offset + n <= old(dest)@.len()
                    &&& n <= old(self).remaining().len()
                    &&& final(dest)@ == old(dest)@.take(offset as int) + old(
                        self,
                    ).remaining().take(n as int) + old(dest)@.skip(offset + n)
                    &&& final(self).remaining() == old(self).remaining().skip(n as int)
                },
                ReadOutcome::End => {
                    &&& old(self).remaining().len() == 0
                    &&& final(self).remaining() == old(self).remaining()
                    &&& final(dest)@ == old(dest)@
                },
                ReadOutcome::Failure => {
                    &&& !old(self).never_fails()
                    &&& final(dest)@.take(offset as int) == old(dest)@.take(offset as int)
                },
            },
    ;
}

/// An in-memory byte source over an owned buffer; it delivers the buffer's
/// bytes from front to back and never fails.
#[derive(Debug)]
pub struct MemSource {
    data: Vec<u8>,
    pos: usize,
}

impl MemSource {
    /// A source that delivers exactly the bytes of `data`.
    pub fn new(data: Vec<u8>) -> (r: MemSource)
        ensures
            r.remaining() == data@,
            r.never_fails(),
    {
        MemSource { data, pos: 0 }
    }
}

impl ByteSource for MemSource {
    closed spec fn remaining(&self) -> Seq<u8> {
        if self.pos <= self.data@.len() {
            self.data@.skip(self.pos as int)
        } else {
            Seq::empty()
        }
    }

    closed spec fn never_fails(&self) -> bool {
        true
    }

    #[verifier::loop_isolation(false)]
    fn read_into(&mut self, dest: &mut Vec<u8>, offset: usize) -> (r: ReadOutcome) {
        if self.pos >= self.data.len() {
            return ReadOutcome::End;
        }
        let avail = self.data.len() - self.pos;
        let space = dest.len() - offset;
        let n = if avail < space {
            avail
        } else {
            space
        };
        let mut i: usize = 0;
        while i < n
            invariant
                i <= n,
                dest@.len() == old(dest)@.len(),
                forall|j: int| 0 <= j < offset ==> dest@[j] == old(dest)@[j],
                forall|j: int|
                    offset <= j < offset + i ==> dest@[j] == self.data@[self.pos + (j - offset)],
                forall|j: int| offset + i <= j < dest@.len() ==> dest@[j] == old(dest)@[j],
            decreases n - i,
        {
            let b = self.data[self.pos + i];
            dest.set(offset + i, b);
            i = i + 1;
        }
        proof {
            assert(dest@ =~= old(dest)@.take(offset as int) + self.remaining().take(n as int) + old(
                dest,
            )@.skip(offset + n));
        }
        self.pos = self.pos + n;
        proof {
            assert(self.remaining() =~= old(self).remaining().skip(n as int));
        }
        ReadOutcome::Data(n)
    }
}

/// The status the fill loop reports to the decoder: the buffer was filled
/// completely, the source ended first, or the transport failed.
#[derive(Debug, Copy, Clone, PartialEq, Eq, Structural)]
pub enum FillStatus {
    Filled,
    Eof,
    Failed,
}

/// Fills `dest` completely from `source`, or reports why it could not.
///
/// This is the bridge between the pull-based source and the decoder's
/// fixed-length reads: the source is read repeatedly into the unfilled tail
/// of `dest`, so partial reads are transparently retried and the decoder
/// never sees a short read.  An end of input before `dest` is full is
/// reported as [`FillStatus::Eof`]; a transport failure as
/// [`FillStatus::Failed`]; [`FillStatus::Filled`] is reported only once every
/// byte of `dest` has been filled, in order, from the source.
#[verifier::loop_isolation(false)]
pub fn fill_exact<R: ByteSource>(source: &mut R, dest: &mut Vec<u8>) -> (r: FillStatus)
    ensures
        final(dest)@.len() == old(dest)@.len(),
        final(source).never_fails() == old(source).never_fails(),
        old(source).never_fails() ==> r != FillStatus::Failed,
        old(source).never_fails() && old(source).remaining().len() >= old(dest)@.len() ==> r
            == FillStatus::Filled,
        match r {
            FillStatus::Filled => {
                &&& old(dest)@.len() <= old(source).remaining().len()
                &&& final(dest)@ == old(source).remaining().take(old(dest)@.len() as int)
                &&& final(source).remaining() == old(source).remaining().skip(
                    old(dest)@.len() as int,
                )
            },
            FillStatus::Eof => {
                &&& old(source).remaining().len() < old(dest)@.len()
                &&& final(source).remaining().len() == 0
                &&& final(dest)@ == old(source).remaining() + old(dest)@.skip(
                    old(source).remaining().len() as int,
                )
            },
            FillStatus::Failed => !old(source).never_fails(),
        },
{
    let len = dest.len();
    let mut offset: usize = 0;
    while offset < len
        invariant
            offset <= len,
            len == dest@.len(),
            dest@.len() == old(dest)@.len(),
            source.never_fails() == old(source).never_fails(),
            offset <= old(source).remaining().len(),
            dest@ == old(source).remaining().take(offset as int) + old(dest)@.skip(offset as int),
            source.remaining() == old(source).remaining().skip(offset as int),
        decreases len - offset,
    {
        let ghost prev_dest = dest@;
        let ghost prev_rem = source.remaining();
        match source.read_into(dest, offset) {
            ReadOutcome::Data(n) => {
                proof {
                    assert(prev_rem.take(n as int) =~= old(source).remaining().subrange(
                        offset as int,
                        offset + n,
                    ));
                    assert(prev_dest.take(offset as int) =~= old(source).remaining().take(
                        offset as int,
                    ));
                    assert(prev_dest.skip(offset + n) =~= old(dest)@.skip(offset + n));
                    assert(dest@ =~= old(source).remaining().take(offset + n) + old(dest)@.skip(
                        offset + n,
                    ));
                    assert(source.remaining() =~= old(source).remaining().skip(offset + n));
                }
                offset = offset + n;
            },
            ReadOutcome::End => {
                proof {
                    assert(old(source).remaining().len() == offset);
                    assert(dest@ =~= old(source).remaining() + old(dest)@.skip(
                        old(source).remaining().len() as int,
                    ));
                }
                return FillStatus::Eof;
            },
            ReadOutcome::Failure => {
                return FillStatus::Failed;
            },
        }
    }
    proof {
        assert(dest@ =~= old(source).remaining().take(old(dest)@.len() as int));
    }
    FillStatus::Filled
}

} // verus!
