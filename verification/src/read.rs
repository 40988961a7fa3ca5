use vstd::prelude::*;

use crate::endian::Endianness;
use crate::endian::decode_u16;
use crate::endian::decode_u32;
use crate::endian::decode_u64;
use crate::endian::u16_from_bytes;
use crate::endian::u32_from_bytes;
use crate::endian::u64_from_bytes;
use crate::stream::ReadError;
use crate::stream::ReadStream;
use crate::stream::StreamError;

verus! {

/// Fill all of `buf` from `reader` or fail: reads are repeated until every
/// byte of `buf` is populated, a transient interruption is absorbed by
/// retrying at once, a read of zero bytes before `buf` is full is the
/// end-of-stream error, and any other stream error is passed on unchanged.
/// `buf` is never left short on success: it holds exactly the next
/// `buf.len()` bytes of the stream. An empty buffer asks nothing of the
/// stream and always succeeds.
pub fn fill_buf<R: ReadStream>(reader: &mut R, buf: &mut Vec<u8>) -> (r: Result<
    (),
    ReadError<R::Error>,
>)
    ensures
        final(buf).len() == old(buf).len(),
        old(buf).len() == 0 ==> r is Ok,
        match r {
            Ok(()) => {
                &&& old(reader).remaining().len() >= old(buf).len()
                &&& final(buf)@ == old(reader).remaining().subrange(0, old(buf).len() as int)
                &&& final(reader).remaining() == old(reader).remaining().skip(
                    old(buf).len() as int,
                )
            },
            Err(ReadError::UnexpectedEnd) => {
                &&& old(reader).remaining().len() < old(buf).len()
                &&& final(reader).remaining().len() == 0
            },
            Err(ReadError::Stream(_)) => R::may_fail(),
        },
{
    let ghost source = reader.remaining();
    let ghost buf_len = buf.len();
    let mut idx: usize = 0;
    while idx != buf.len()
        invariant
            source == old(reader).remaining(),
            buf_len == old(buf).len(),
            idx <= buf.len(),
            buf.len() == buf_len,
            idx <= source.len(),
            reader.remaining() == source.skip(idx as int),
            buf@.subrange(0, idx as int) == source.subrange(0, idx as int),
        decreases buf.len() - idx, reader.interruptions(),
    {
        let ghost buf_before = buf@;
        let ghost rest_before = reader.remaining();
        match reader.read(buf, idx) {
            Ok(0) => {
                return Err(ReadError::UnexpectedEnd);
            },
            Ok(n) => {
                proof {
                    assert(reader.remaining() =~= source.skip(idx + n)) by {
                        assert(rest_before.skip(n as int) =~= source.skip(idx + n));
                    }
                    assert(buf@.subrange(0, idx + n) =~= source.subrange(0, idx + n)) by {
                        assert forall|i: int| 0 <= i < idx + n implies buf@[i] == source[i] by {
                            if i < idx {
                                assert(buf@.subrange(0, idx as int)[i] == buf_before.subrange(
                                    0,
                                    idx as int,
                                )[i]);
                            } else {
                                assert(buf@.subrange(idx as int, idx + n)[i - idx]
                                    == rest_before.subrange(0, n as int)[i - idx]);
                            }
                        }
                    }
                }
                idx += n;
            },
            Err(StreamError::Interrupted) => {
            },
            Err(StreamError::Other(e)) => {
                return Err(ReadError::Stream(e));
            },
        }
    }
    proof {
        assert(buf@ =~= source.subrange(0, buf_len as int));
    }
    Ok(())
}

/// Additional typed read methods for a readable stream. Each method consumes
/// exactly the width of the requested value (or exactly `len` bytes for
/// [`Self::read_exact`]), decodes them in the chosen byte order, and never
/// returns a partial value: when the stream ends early or fails, the error
/// is reported instead.
pub trait ReadPodExt: ReadStream {
    /// Read a u64
    fn read_u64<T: Endianness>(&mut self) -> (r: Result<u64, ReadError<Self::Error>>)
        ensures
            match r {
                Ok(v) => {
                    &&& old(self).remaining().len() >= 8
                    &&& v == u64_from_bytes(
                        T::spec_little_endian(),
                        old(self).remaining().subrange(0, 8),
                    )
                    &&& final(self).remaining() == old(self).remaining().skip(8)
                },
                Err(ReadError::UnexpectedEnd) => {
                    &&& old(self).remaining().len() < 8
                    &&& final(self).remaining().len() == 0
                },
                Err(ReadError::Stream(_)) => Self::may_fail(),
            },
    ;

    /// Read a u32
    fn read_u32<T: Endianness>(&mut self) -> (r: Result<u32, ReadError<Self::Error>>)
        ensures
            match r {
                Ok(v) => {
                    &&& old(self).remaining().len() >= 4
                    &&& v == u32_from_bytes(
                        T::spec_little_endian(),
                        old(self).remaining().subrange(0, 4),
                    )
                    &&& final(self).remaining() == old(self).remaining().skip(4)
                },
                Err(ReadError::UnexpectedEnd) => {
                    &&& old(self).remaining().len() < 4
                    &&& final(self).remaining().len() == 0
                },
                Err(ReadError::Stream(_)) => Self::may_fail(),
            },
    ;

    /// Read a u16
    fn read_u16<T: Endianness>(&mut self) -> (r: Result<u16, ReadError<Self::Error>>)
        ensures
            match r {
                Ok(v) => {
                    &&& old(self).remaining().len() >= 2
                    &&& v == u16_from_bytes(
                        T::spec_little_endian(),
                        old(self).remaining().subrange(0, 2),
                    )
                    &&& final(self).remaining() == old(self).remaining().skip(2)
                },
                Err(ReadError::UnexpectedEnd) => {
                    &&& old(self).remaining().len() < 2
                    &&& final(self).remaining().len() == 0
                },
                Err(ReadError::Stream(_)) => Self::may_fail(),
            },
    ;

    /// Read a u8
    fn read_u8(&mut self) -> (r: Result<u8, ReadError<Self::Error>>)
        ensures
            match r {
                Ok(v) => {
                    &&& old(self).remaining().len() >= 1
                    &&& v == old(self).remaining()[0]
                    &&& final(self).remaining() == old(self).remaining().skip(1)
                },
                Err(ReadError::UnexpectedEnd) => {
                    &&& old(self).remaining().len() == 0
                    &&& final(self).remaining().len() == 0
                },
                Err(ReadError::Stream(_)) => Self::may_fail(),
            },
    ;

    /// Read a i64
    fn read_i64<T: Endianness>(&mut self) -> (r: Result<i64, ReadError<Self::Error>>)
        ensures
            match r {
                Ok(v) => {
                    &&& old(self).remaining().len() >= 8
                    &&& v == u64_from_bytes(
                        T::spec_little_endian(),
                        old(self).remaining().subrange(0, 8),
                    ) as i64
                    &&& final(self).remaining() == old(self).remaining().skip(8)
                },
                Err(ReadError::UnexpectedEnd) => {
                    &&& old(self).remaining().len() < 8
                    &&& final(self).remaining().len() == 0
                },
                Err(ReadError::Stream(_)) => Self::may_fail(),
            },
    ;

    /// Read a i32
    fn read_i32<T: Endianness>(&mut self) -> (r: Result<i32, ReadError<Self::Error>>)
        ensures
            match r {
                Ok(v) => {
                    &&& old(self).remaining().len() >= 4
                    &&& v == u32_from_bytes(
                        T::spec_little_endian(),
                        old(self).remaining().subrange(0, 4),
                    ) as i32
                    &&& final(self).remaining() == old(self).remaining().skip(4)
                },
                Err(ReadError::UnexpectedEnd) => {
                    &&& old(self).remaining().len() < 4
                    &&& final(self).remaining().len() == 0
                },
                Err(ReadError::Stream(_)) => Self::may_fail(),
            },
    ;

    /// Read a i16
    fn read_i16<T: Endianness>(&mut self) -> (r: Result<i16, ReadError<Self::Error>>)
        ensures
            match r {
                Ok(v) => {
                    &&& old(self).remaining().len() >= 2
                    &&& v == u16_from_bytes(
                        T::spec_little_endian(),
                        old(self).remaining().subrange(0, 2),
                    ) as i16
                    &&& final(self).remaining() == old(self).remaining().skip(2)
                },
                Err(ReadError::UnexpectedEnd) => {
                    &&& old(self).remaining().len() < 2
                    &&& final(self).remaining().len() == 0
                },
                Err(ReadError::Stream(_)) => Self::may_fail(),
            },
    ;

    /// Read a i8
    fn read_i8(&mut self) -> (r: Result<i8, ReadError<Self::Error>>)
        ensures
            match r {
                Ok(v) => {
                    &&& old(self).remaining().len() >= 1
                    &&& v == old(self).remaining()[0] as i8
                    &&& final(self).remaining() == old(self).remaining().skip(1)
                },
                Err(ReadError::UnexpectedEnd) => {
                    &&& old(self).remaining().len() == 0
                    &&& final(self).remaining().len() == 0
                },
                Err(ReadError::Stream(_)) => Self::may_fail(),
            },
    ;

    /// Read a specific number of bytes, `len` may be 0, into a fresh buffer
    fn read_exact(&mut self, len: usize) -> (r: Result<Vec<u8>, ReadError<Self::Error>>)
        ensures
            len == 0 ==> r is Ok,
            match r {
                Ok(b) => {
                    &&& old(self).remaining().len() >= len
                    &&& b@ == old(self).remaining().subrange(0, len as int)
                    &&& final(self).remaining() == old(self).remaining().skip(len as int)
                },
                Err(ReadError::UnexpectedEnd) => {
                    &&& old(self).remaining().len() < len
                    &&& final(self).remaining().len() == 0
                },
                Err(ReadError::Stream(_)) => Self::may_fail(),
            },
    ;
}

impl<R: ReadStream> ReadPodExt for R {
    fn read_u64<T: Endianness>(&mut self) -> Result<u64, ReadError<Self::Error>> {
        let mut buf: Vec<u8> = vec![0u8; 8];
        match fill_buf(self, &mut buf) {
            Ok(()) => Ok(decode_u64(T::is_little_endian(), buf.as_slice())),
            Err(e) => Err(e),
        }
    }

    fn read_u32<T: Endianness>(&mut self) -> Result<u32, ReadError<Self::Error>> {
        let mut buf: Vec<u8> = vec![0u8; 4];
        match fill_buf(self, &mut buf) {
            Ok(()) => Ok(decode_u32(T::is_little_endian(), buf.as_slice())),
            Err(e) => Err(e),
        }
    }

    fn read_u16<T: Endianness>(&mut self) -> Result<u16, ReadError<Self::Error>> {
        let mut buf: Vec<u8> = vec![0u8; 2];
        match fill_buf(self, &mut buf) {
            Ok(()) => Ok(decode_u16(T::is_little_endian(), buf.as_slice())),
            Err(e) => Err(e),
        }
    }

    fn read_u8(&mut self) -> Result<u8, ReadError<Self::Error>> {
        let mut buf: Vec<u8> = vec![0u8; 1];
        match fill_buf(self, &mut buf) {
            Ok(()) => Ok(buf[0]),
            Err(e) => Err(e),
        }
    }

    fn read_i64<T: Endianness>(&mut self) -> Result<i64, ReadError<Self::Error>> {
        match self.read_u64::<T>() {
            Ok(v) => Ok(v as i64),
            Err(e) => Err(e),
        }
    }

    fn read_i32<T: Endianness>(&mut self) -> Result<i32, ReadError<Self::Error>> {
        match self.read_u32::<T>() {
            Ok(v) => Ok(v as i32),
            Err(e) => Err(e),
        }
    }

    fn read_i16<T: Endianness>(&mut self) -> Result<i16, ReadError<Self::Error>> {
        match self.read_u16::<T>() {
            Ok(v) => Ok(v as i16),
            Err(e) => Err(e),
        }
    }

    fn read_i8(&mut self) -> Result<i8, ReadError<Self::Error>> {
        match self.read_u8() {
            Ok(v) => Ok(v as i8),
            Err(e) => Err(e),
        }
    }

    fn read_exact(&mut self, len: usize) -> Result<Vec<u8>, ReadError<Self::Error>> {
        let mut buf: Vec<u8> = vec![0u8; len];
        match fill_buf(self, &mut buf) {
            Ok(()) => Ok(buf),
            Err(e) => Err(e),
        }
    }
}

} // verus!
