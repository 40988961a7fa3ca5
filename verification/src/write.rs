use vstd::prelude::*;

use crate::endian::Endianness;
use crate::endian::encode_u16;
use crate::endian::encode_u32;
use crate::endian::encode_u64;
use crate::endian::u16_to_bytes;
use crate::endian::u32_to_bytes;
use crate::endian::u64_to_bytes;
use crate::stream::WriteStream;

verus! {

/// Additional typed write methods for a writable stream. Each method encodes
/// one value into its byte representation in the chosen byte order and hands
/// the whole buffer to the stream; signed values are reinterpreted as the
/// unsigned bit pattern of matching width, so the full native range is valid.
pub trait WritePodExt: WriteStream {
    /// Write a u64
    fn write_u64<T: Endianness>(&mut self, val: u64) -> (r: Result<(), Self::Error>)
        ensures
            match r {
                Ok(()) => final(self).written() == old(self).written() + u64_to_bytes(
                    T::spec_little_endian(),
                    val,
                ),
                Err(_) => Self::may_fail(),
            },
    ;

    /// Write a u32
    fn write_u32<T: Endianness>(&mut self, val: u32) -> (r: Result<(), Self::Error>)
        ensures
            match r {
                Ok(()) => final(self).written() == old(self).written() + u32_to_bytes(
                    T::spec_little_endian(),
                    val,
                ),
                Err(_) => Self::may_fail(),
            },
    ;

    /// Write a u16
    fn write_u16<T: Endianness>(&mut self, val: u16) -> (r: Result<(), Self::Error>)
        ensures
            match r {
                Ok(()) => final(self).written() == old(self).written() + u16_to_bytes(
                    T::spec_little_endian(),
                    val,
                ),
                Err(_) => Self::may_fail(),
            },
    ;

    /// Write a u8
    fn write_u8(&mut self, val: u8) -> (r: Result<(), Self::Error>)
        ensures
            match r {
                Ok(()) => final(self).written() == old(self).written() + seq![val],
                Err(_) => Self::may_fail(),
            },
    ;

    /// Write a i64
    fn write_i64<T: Endianness>(&mut self, val: i64) -> (r: Result<(), Self::Error>)
        ensures
            match r {
                Ok(()) => final(self).written() == old(self).written() + u64_to_bytes(
                    T::spec_little_endian(),
                    val as u64,
                ),
                Err(_) => Self::may_fail(),
            },
    ;

    /// Write a i32
    fn write_i32<T: Endianness>(&mut self, val: i32) -> (r: Result<(), Self::Error>)
        ensures
            match r {
                Ok(()) => final(self).written() == old(self).written() + u32_to_bytes(
                    T::spec_little_endian(),
                    val as u32,
                ),
                Err(_) => Self::may_fail(),
            },
    ;

    /// Write a i16
    fn write_i16<T: Endianness>(&mut self, val: i16) -> (r: Result<(), Self::Error>)
        ensures
            match r {
                Ok(()) => final(self).written() == old(self).written() + u16_to_bytes(
                    T::spec_little_endian(),
                    val as u16,
                ),
                Err(_) => Self::may_fail(),
            },
    ;

    /// Write a i8
    fn write_i8(&mut self, val: i8) -> (r: Result<(), Self::Error>)
        ensures
            match r {
                Ok(()) => final(self).written() == old(self).written() + seq![val as u8],
                Err(_) => Self::may_fail(),
            },
    ;
}

impl<W: WriteStream> WritePodExt for W {
    fn write_u64<T: Endianness>(&mut self, val: u64) -> Result<(), Self::Error> {
        let buf = encode_u64(T::is_little_endian(), val);
        self.write_all(buf.as_slice())
    }

    fn write_u32<T: Endianness>(&mut self, val: u32) -> Result<(), Self::Error> {
        let buf = encode_u32(T::is_little_endian(), val);
        self.write_all(buf.as_slice())
    }

    fn write_u16<T: Endianness>(&mut self, val: u16) -> Result<(), Self::Error> {
        let buf = encode_u16(T::is_little_endian(), val);
        self.write_all(buf.as_slice())
    }

    fn write_u8(&mut self, val: u8) -> Result<(), Self::Error> {
        let mut buf: Vec<u8> = Vec::new();
        buf.push(val);
        proof {
            assert(buf@ =~= seq![val]);
        }
        self.write_all(buf.as_slice())
    }

    fn write_i64<T: Endianness>(&mut self, val: i64) -> Result<(), Self::Error> {
        self.write_u64::<T>(val as u64)
    }

    fn write_i32<T: Endianness>(&mut self, val: i32) -> Result<(), Self::Error> {
        self.write_u32::<T>(val as u32)
    }

    fn write_i16<T: Endianness>(&mut self, val: i16) -> Result<(), Self::Error> {
        self.write_u16::<T>(val as u16)
    }

    fn write_i8(&mut self, val: i8) -> Result<(), Self::Error> {
        self.write_u8(val as u8)
    }
}

} // verus!
