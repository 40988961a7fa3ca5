use podio::BigEndian;
use podio::Cursor;
use podio::LittleEndian;
use podio::ReadPodExt;
use podio::WritePodExt;

fn rt_u16(v: u16) {
    let mut c = Cursor::new(Vec::new());
    c.write_u16::<LittleEndian>(v).unwrap();
    c.write_u16::<BigEndian>(v).unwrap();
    let mut c = Cursor::new(c.into_inner());
    assert_eq!(c.read_u16::<LittleEndian>().unwrap(), v);
    assert_eq!(c.read_u16::<BigEndian>().unwrap(), v);
}

fn rt_u32(v: u32) {
    let mut c = Cursor::new(Vec::new());
    c.write_u32::<LittleEndian>(v).unwrap();
    c.write_u32::<BigEndian>(v).unwrap();
    let mut c = Cursor::new(c.into_inner());
    assert_eq!(c.read_u32::<LittleEndian>().unwrap(), v);
    assert_eq!(c.read_u32::<BigEndian>().unwrap(), v);
}

fn rt_u64(v: u64) {
    let mut c = Cursor::new(Vec::new());
    c.write_u64::<LittleEndian>(v).unwrap();
    c.write_u64::<BigEndian>(v).unwrap();
    let mut c = Cursor::new(c.into_inner());
    assert_eq!(c.read_u64::<LittleEndian>().unwrap(), v);
    assert_eq!(c.read_u64::<BigEndian>().unwrap(), v);
}

fn rt_i16(v: i16) {
    let mut c = Cursor::new(Vec::new());
    c.write_i16::<LittleEndian>(v).unwrap();
    c.write_i16::<BigEndian>(v).unwrap();
    let mut c = Cursor::new(c.into_inner());
    assert_eq!(c.read_i16::<LittleEndian>().unwrap(), v);
    assert_eq!(c.read_i16::<BigEndian>().unwrap(), v);
}

fn rt_i32(v: i32) {
    let mut c = Cursor::new(Vec::new());
    c.write_i32::<LittleEndian>(v).unwrap();
    c.write_i32::<BigEndian>(v).unwrap();
    let mut c = Cursor::new(c.into_inner());
    assert_eq!(c.read_i32::<LittleEndian>().unwrap(), v);
    assert_eq!(c.read_i32::<BigEndian>().unwrap(), v);
}

fn rt_i64(v: i64) {
    let mut c = Cursor::new(Vec::new());
    c.write_i64::<LittleEndian>(v).unwrap();
    c.write_i64::<BigEndian>(v).unwrap();
    let mut c = Cursor::new(c.into_inner());
    assert_eq!(c.read_i64::<LittleEndian>().unwrap(), v);
    assert_eq!(c.read_i64::<BigEndian>().unwrap(), v);
}

fn rt_u8(v: u8) {
    let mut c = Cursor::new(Vec::new());
    c.write_u8(v).unwrap();
    let mut c = Cursor::new(c.into_inner());
    assert_eq!(c.read_u8().unwrap(), v);
}

fn rt_i8(v: i8) {
    let mut c = Cursor::new(Vec::new());
    c.write_i8(v).unwrap();
    let mut c = Cursor::new(c.into_inner());
    assert_eq!(c.read_i8().unwrap(), v);
}

fn rt_f32(v: f32) {
    let mut c = Cursor::new(Vec::new());
    c.write_u32::<LittleEndian>(v.to_bits()).unwrap();
    c.write_u32::<BigEndian>(v.to_bits()).unwrap();
    let mut c = Cursor::new(c.into_inner());
    assert_eq!(f32::from_bits(c.read_u32::<LittleEndian>().unwrap()), v);
    assert_eq!(f32::from_bits(c.read_u32::<BigEndian>().unwrap()), v);
}

fn rt_f64(v: f64) {
    let mut c = Cursor::new(Vec::new());
    c.write_u64::<LittleEndian>(v.to_bits()).unwrap();
    c.write_u64::<BigEndian>(v.to_bits()).unwrap();
    let mut c = Cursor::new(c.into_inner());
    assert_eq!(f64::from_bits(c.read_u64::<LittleEndian>().unwrap()), v);
    assert_eq!(f64::from_bits(c.read_u64::<BigEndian>().unwrap()), v);
}

#[test]
fn round_trip_unsigned() {
    for v in [0u16, 1, 0x1234, u16::MAX] {
        rt_u16(v);
    }
    for v in [0u32, 1, 0x12345678, u32::MAX] {
        rt_u32(v);
    }
    for v in [0u64, 1, 0x123456789ABCDEF0, u64::MAX] {
        rt_u64(v);
    }
    for v in [0u8, 1, 0x7F, u8::MAX] {
        rt_u8(v);
    }
}

#[test]
fn round_trip_signed() {
    for v in [i16::MIN, -1, 0, 1, 0x1234, i16::MAX] {
        rt_i16(v);
    }
    for v in [i32::MIN, -1, 0, 1, 0x12345678, i32::MAX] {
        rt_i32(v);
    }
    for v in [i64::MIN, -1, 0, 1, 0x123456789ABCDEF0, i64::MAX] {
        rt_i64(v);
    }
    for v in [i8::MIN, -1, 0, 1, i8::MAX] {
        rt_i8(v);
    }
}

#[test]
fn round_trip_float() {
    for v in [0.0f32, -0.0, 1.5, 10.12, f32::MIN, f32::MAX, f32::INFINITY] {
        rt_f32(v);
    }
    for v in [0.0f64, -0.0, 1.5, 10.12, f64::MIN, f64::MAX, f64::NEG_INFINITY] {
        rt_f64(v);
    }
    // NaN compares unequal to itself; its bit pattern must still survive.
    let mut c = Cursor::new(Vec::new());
    let bits = f32::NAN.to_bits();
    c.write_u32::<LittleEndian>(bits).unwrap();
    let mut c = Cursor::new(c.into_inner());
    assert_eq!(c.read_u32::<LittleEndian>().unwrap(), bits);
}
