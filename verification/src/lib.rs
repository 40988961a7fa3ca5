//! Endian-aware reading and writing of fixed-width integers for byte streams.
//!
//! The crate is built from two pieces. The first is the byte-order strategy:
//! the tag types [`LittleEndian`] and [`BigEndian`] select, through the
//! [`Endianness`] trait and at compile time, how the bytes of a value are
//! ordered within its encoding. The second is the pair of extension traits
//! [`ReadPodExt`] and [`WritePodExt`], which give every readable or writable
//! stream — any implementor of [`ReadStream`] or [`WriteStream`] — typed
//! read and write methods for the fixed-width integers, plus the
//! variable-length [`ReadPodExt::read_exact`].
//!
//! Every typed read funnels through [`fill_buf`], the loop that populates a
//! buffer completely: it retries transient interruptions at once, treats a
//! read of zero bytes before the buffer is full as the distinguished
//! end-of-stream error [`ReadError::UnexpectedEnd`], and passes any other
//! stream error on unchanged. No partial value is ever returned.
//!
//! [`Cursor`] is the in-memory stream over a byte buffer; it implements both
//! stream traits and never interrupts or fails.

mod cursor;
mod endian;
mod read;
mod stream;
mod write;

pub use cursor::Cursor;
pub use endian::BigEndian;
pub use endian::Endianness;
pub use endian::LittleEndian;
pub use endian::decode_u16;
pub use endian::decode_u32;
pub use endian::decode_u64;
pub use endian::encode_u16;
pub use endian::encode_u32;
pub use endian::encode_u64;
pub use endian::lemma_bytes_round_trip_u16;
pub use endian::lemma_bytes_round_trip_u32;
pub use endian::lemma_bytes_round_trip_u64;
pub use endian::lemma_round_trip_i16;
pub use endian::lemma_round_trip_i32;
pub use endian::lemma_round_trip_i64;
pub use endian::lemma_round_trip_u16;
pub use endian::lemma_round_trip_u32;
pub use endian::lemma_round_trip_u64;
pub use endian::u16_from_bytes;
pub use endian::u16_to_bytes;
pub use endian::u32_from_bytes;
pub use endian::u32_to_bytes;
pub use endian::u64_from_bytes;
pub use endian::u64_to_bytes;
pub use read::ReadPodExt;
pub use read::fill_buf;
pub use stream::ReadError;
pub use stream::ReadStream;
pub use stream::StreamError;
pub use stream::WriteStream;
pub use write::WritePodExt;
