use vstd::prelude::*;

use crate::stream::ReadStream;
use crate::stream::StreamError;
use crate::stream::WriteStream;

verus! {

/// An in-memory byte stream. Reads consume the buffer from the front, one
/// position at a time; writes append to its end. A cursor never interrupts
/// and never fails, which makes it the reference collaborator for both
/// stream traits.
pub struct Cursor {
    bytes: Vec<u8>,
    pos: usize,
}

/// The suffix of `bytes` from `pos` on; empty when `pos` lies past the end.
spec fn suffix_from(bytes: Seq<u8>, pos: int) -> Seq<u8> {
    if pos <= bytes.len() {
        bytes.skip(pos)
    } else {
        Seq::empty()
    }
}

impl Cursor {
    /// A cursor over `bytes`, positioned at the start.
    pub fn new(bytes: Vec<u8>) -> (c: Cursor)
        ensures
            c.remaining() == bytes@,
            c.written() == bytes@,
    {
        let c = Cursor { bytes, pos: 0 };
        proof {
            assert(c.remaining() =~= c.bytes@);
        }
        c
    }

    /// Give the buffer back, with everything that was written to it.
    pub fn into_inner(self) -> (r: Vec<u8>)
        ensures
            r@ == self.written(),
    {
        self.bytes
    }
}

impl ReadStream for Cursor {
    type Error = ();

    closed spec fn remaining(&self) -> Seq<u8> {
        suffix_from(self.bytes@, self.pos as int)
    }

    closed spec fn interruptions(&self) -> nat {
        0
    }

    open spec fn may_fail() -> bool {
        false
    }

    #[verifier::loop_isolation(false)]
    fn read(&mut self, buf: &mut Vec<u8>, from: usize) -> (r: Result<usize, StreamError<()>>) {
        if self.pos >= self.bytes.len() || from == buf.len() {
            proof {
                assert(self.remaining().skip(0) =~= self.remaining());
                assert(buf@.subrange(from as int, from as int) =~= self.remaining().subrange(0, 0));
            }
            return Ok(0);
        }
        let space = buf.len() - from;
        let avail = self.bytes.len() - self.pos;
        let n = if space < avail {
            space
        } else {
            avail
        };
        let ghost buf_start = buf@;
        let mut i: usize = 0;
        while i < n
            invariant
                i <= n,
                buf.len() == buf_start.len(),
                forall|j: int| 0 <= j < buf_start.len() && !(from <= j < from + i)
                    ==> buf@[j] == buf_start[j],
                forall|j: int| 0 <= j < i ==> #[trigger] buf@[from + j] == self.bytes@[self.pos
                    + j],
            decreases n - i,
        {
            let b = self.bytes[self.pos + i];
            buf.set(from + i, b);
            i += 1;
        }
        proof {
            assert(buf@.subrange(0, from as int) =~= buf_start.subrange(0, from as int));
            assert forall|j: int| 0 <= j < n implies buf@.subrange(from as int, from + n)[j]
                == self.remaining().subrange(0, n as int)[j] by {
                assert(buf@[from + j] == self.bytes@[self.pos + j]);
                assert(self.remaining().subrange(0, n as int)[j] == self.bytes@[self.pos + j]);
            }
            assert(buf@.subrange(from as int, from + n) =~= self.remaining().subrange(0, n as int));
            assert(suffix_from(self.bytes@, self.pos + n) =~= self.remaining().skip(n as int));
        }
        self.pos = self.pos + n;
        Ok(n)
    }
}

impl WriteStream for Cursor {
    type Error = ();

    closed spec fn written(&self) -> Seq<u8> {
        self.bytes@
    }

    open spec fn may_fail() -> bool {
        false
    }

    fn write_all(&mut self, buf: &[u8]) -> (r: Result<(), ()>) {
        let ghost bytes_start = self.bytes@;
        let mut i: usize = 0;
        while i < buf.len()
            invariant
                i <= buf@.len(),
                self.bytes@ == bytes_start + buf@.subrange(0, i as int),
            decreases buf@.len() - i,
        {
            let b = buf[i];
            self.bytes.push(b);
            proof {
                assert(self.bytes@ =~= bytes_start + buf@.subrange(0, i + 1));
            }
            i += 1;
        }
        proof {
            assert(bytes_start + buf@.subrange(0, buf@.len() as int) =~= bytes_start + buf@);
        }
        Ok(())
    }
}

} // verus!
