use vstd::prelude::*;

verus! {

/// An error reported by one read attempt on a [`ReadStream`].
#[derive(Debug)]
pub enum StreamError<E> {
    /// A transient interruption: nothing was transferred and the very same
    /// attempt should simply be retried.
    Interrupted,
    /// A real failure of the stream, to be handed on to the caller unchanged.
    Other(E),
}

/// An error reported by an operation that needs an exact number of bytes.
#[derive(Debug)]
pub enum ReadError<E> {
    /// The stream ended before the requested count was delivered.
    UnexpectedEnd,
    /// The stream itself failed; the underlying error is passed on unchanged.
    Stream(E),
}

/// A readable byte stream: the one capability the typed read operations
/// consume. A stream is modelled by the sequence of bytes it has yet to
/// deliver; each successful read hands out a prefix of that sequence.
pub trait ReadStream {
    /// The error type of the underlying stream.
    type Error;

    /// The bytes this stream has yet to deliver, in order. The body here is
    /// only a default so that unverified collaborators need not spell out a
    /// model; a verified implementation overrides it.
    open spec fn remaining(&self) -> Seq<u8> {
        Seq::empty()
    }

    /// How many transient interruptions this stream may still report. The
    /// budget shrinks with every interruption, so that retrying immediately,
    /// as the fill loop does, comes to an end.
    open spec fn interruptions(&self) -> nat {
        0
    }

    /// Whether this kind of stream can ever report a real failure. An
    /// implementation that cannot fail — the in-memory [`crate::Cursor`] —
    /// refuses the `Other` arm below outright, and a read on it is then
    /// known to succeed whenever enough bytes are there. The default keeps
    /// every failure open.
    open spec fn may_fail() -> bool {
        true
    }

    /// Attempt one read into `buf[from..]`, returning the count actually
    /// transferred: `Ok(0)` on end of stream (or an empty region), `Ok(n)`
    /// when the next `n` bytes of the stream were placed at `buf[from..]`,
    /// and an error otherwise. Bytes below `from` are left alone.
    fn read(&mut self, buf: &mut Vec<u8>, from: usize) -> (r: Result<
        usize,
        StreamError<Self::Error>,
    >)
        requires
            from <= old(buf).len(),
        ensures
            final(buf).len() == old(buf).len(),
            final(buf)@.subrange(0, from as int) == old(buf)@.subrange(0, from as int),
            match r {
                Ok(n) => {
                    &&& from + n <= old(buf).len()
                    &&& n <= old(self).remaining().len()
                    &&& final(buf)@.subrange(from as int, from + n) == old(self).remaining()
                        .subrange(0, n as int)
                    &&& final(self).remaining() == old(self).remaining().skip(n as int)
                    &&& (n == 0 ==> old(self).remaining().len() == 0 || from == old(buf).len())
                },
                Err(StreamError::Interrupted) => {
                    &&& final(self).remaining() == old(self).remaining()
                    &&& final(self).interruptions() < old(self).interruptions()
                },
                Err(StreamError::Other(_)) => Self::may_fail(),
            },
    ;
}

/// A writable byte stream: the one capability the typed write operations
/// consume. A stream is modelled by the sequence of bytes it has accepted;
/// a successful `write_all` appends the whole buffer to it.
pub trait WriteStream {
    /// The error type of the underlying stream.
    type Error;

    /// The bytes this stream has accepted so far, in order. The body here is
    /// only a default so that unverified collaborators need not spell out a
    /// model; a verified implementation overrides it.
    open spec fn written(&self) -> Seq<u8> {
        Seq::empty()
    }

    /// Whether this kind of stream can ever fail a write. An implementation
    /// that cannot — the in-memory [`crate::Cursor`] — refuses the error arm
    /// below outright, and a write on it is then known to succeed. The
    /// default keeps every failure open.
    open spec fn may_fail() -> bool {
        true
    }

    /// Write all of `buf`, blocking until it is done or the stream fails.
    fn write_all(&mut self, buf: &[u8]) -> (r: Result<(), Self::Error>)
        ensures
            match r {
                Ok(()) => final(self).written() == old(self).written() + buf@,
                Err(_) => Self::may_fail(),
            },
    ;
}

} // verus!
