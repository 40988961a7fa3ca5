use podio::BigEndian;
use podio::Cursor;
use podio::LittleEndian;
use podio::ReadError;
use podio::ReadPodExt;
use podio::ReadStream;
use podio::StreamError;
use podio::WritePodExt;
use podio::fill_buf;

/// Delivers its bytes at most `chunk` at a time, interrupting before every
/// delivery as many times as `interrupts` says.
struct ChunkReader {
    bytes: Vec<u8>,
    pos: usize,
    chunk: usize,
    interrupts: u32,
    fail_next: bool,
}

impl ChunkReader {
    fn new(bytes: Vec<u8>, chunk: usize, interrupts: u32) -> ChunkReader {
        ChunkReader { bytes, pos: 0, chunk, interrupts, fail_next: false }
    }
}

impl ReadStream for ChunkReader {
    type Error = &'static str;

    fn read(&mut self, buf: &mut Vec<u8>, from: usize) -> Result<usize, StreamError<&'static str>> {
        if self.fail_next {
            return Err(StreamError::Other("stream failure"));
        }
        if self.interrupts > 0 {
            self.interrupts -= 1;
            return Err(StreamError::Interrupted);
        }
        let space = buf.len() - from;
        let avail = self.bytes.len() - self.pos;
        let n = space.min(avail).min(self.chunk);
        for i in 0..n {
            buf[from + i] = self.bytes[self.pos + i];
        }
        self.pos += n;
        Ok(n)
    }
}

#[test]
fn blob_reads() {
    // Reading lengths 2, 1, 0, 5 consumes all eight bytes, nothing left over.
    let mut r = Cursor::new(vec![1, 2, 3, 4, 5, 6, 7, 8]);
    assert_eq!(r.read_exact(2).unwrap(), vec![1, 2]);
    assert_eq!(r.read_exact(1).unwrap(), vec![3]);
    assert_eq!(r.read_exact(0).unwrap(), Vec::<u8>::new());
    assert_eq!(r.read_exact(5).unwrap(), vec![4, 5, 6, 7, 8]);
    assert!(matches!(r.read_exact(1), Err(ReadError::UnexpectedEnd)));
}

#[test]
fn exact_sequence() {
    let mut r = Cursor::new(vec![0, 1, 2, 3]);
    assert_eq!(r.read_exact(1).unwrap(), vec![0]);
    assert_eq!(r.read_exact(2).unwrap(), vec![1, 2]);
    assert_eq!(r.read_exact(0).unwrap(), Vec::<u8>::new());
    assert_eq!(r.read_exact(1).unwrap(), vec![3]);
    assert!(r.read_exact(1).is_err());
}

#[test]
fn eof_is_error() {
    // A stream shorter than the requested width must fail, for every width.
    assert!(matches!(Cursor::new(vec![]).read_u8(), Err(ReadError::UnexpectedEnd)));
    assert!(matches!(
        Cursor::new(vec![1]).read_u16::<LittleEndian>(),
        Err(ReadError::UnexpectedEnd)
    ));
    assert!(matches!(
        Cursor::new(vec![1, 2, 3]).read_u32::<BigEndian>(),
        Err(ReadError::UnexpectedEnd)
    ));
    assert!(matches!(
        Cursor::new(vec![1, 2, 3, 4, 5, 6, 7]).read_u64::<LittleEndian>(),
        Err(ReadError::UnexpectedEnd)
    ));
}

#[test]
fn width_isolation() {
    // One-byte values have no byte order: the output is always the raw byte.
    let mut w = Cursor::new(Vec::new());
    w.write_u8(0xAB).unwrap();
    w.write_i8(-1).unwrap();
    assert_eq!(w.into_inner(), vec![0xAB, 0xFF]);
    let mut r = Cursor::new(vec![0xAB, 0xFF]);
    assert_eq!(r.read_u8().unwrap(), 0xAB);
    assert_eq!(r.read_i8().unwrap(), -1);
}

#[test]
fn fill_buf_fills_exactly() {
    let mut r = Cursor::new(vec![9, 8, 7, 6, 5]);
    // An empty buffer asks nothing of the stream and always succeeds.
    let mut buf = Vec::new();
    fill_buf(&mut r, &mut buf).unwrap();
    assert_eq!(buf, Vec::<u8>::new());
    let mut buf = vec![0u8; 3];
    fill_buf(&mut r, &mut buf).unwrap();
    assert_eq!(buf, vec![9, 8, 7]);
    let mut buf = vec![0u8; 2];
    fill_buf(&mut r, &mut buf).unwrap();
    assert_eq!(buf, vec![6, 5]);
    let mut buf = vec![0u8; 1];
    assert!(matches!(fill_buf(&mut r, &mut buf), Err(ReadError::UnexpectedEnd)));
}

#[test]
fn short_reads_accumulate() {
    // A collaborator that hands out one byte per call still fills the buffer.
    let mut r = ChunkReader::new(vec![0x67, 0x45, 0x23, 0x01], 1, 0);
    assert_eq!(r.read_u32::<LittleEndian>().unwrap(), 0x01234567);
}

#[test]
fn interruption_equivalent() {
    // Interruptions before each delivery must not change what is decoded.
    let mut calm = ChunkReader::new(vec![0xDE, 0xAD, 0xBE, 0xEF], 2, 0);
    let mut jumpy = ChunkReader::new(vec![0xDE, 0xAD, 0xBE, 0xEF], 2, 3);
    let a = calm.read_u32::<BigEndian>().unwrap();
    let b = jumpy.read_u32::<BigEndian>().unwrap();
    assert_eq!(a, b);
    assert_eq!(b, 0xDEADBEEF);
}

#[test]
fn stream_error_passed_on() {
    let mut r = ChunkReader::new(vec![1, 2, 3, 4], 4, 0);
    r.fail_next = true;
    match r.read_u32::<LittleEndian>() {
        Err(ReadError::Stream(e)) => assert_eq!(e, "stream failure"),
        _ => panic!("the underlying error must be passed on unchanged"),
    }
}
