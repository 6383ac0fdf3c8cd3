use accd_core::accd_error::ProtocolError;
use accd_core::accd_wire::{write_f32, write_i32, write_u16, write_u8, ByteCursor, WireFloat};

#[test]
fn read_u8_takes_one_byte_and_advances() {
    let data: Vec<u8> = vec![7, 9];
    let mut cur = ByteCursor::new(&data);
    assert_eq!(cur.read_u8(), Ok(7));
    assert_eq!(cur.pos, 1);
    assert_eq!(cur.read_u8(), Ok(9));
    assert_eq!(cur.pos, 2);
    assert_eq!(cur.remaining(), 0);
}

#[test]
fn read_u8_fails_at_the_end() {
    let data: Vec<u8> = vec![];
    let mut cur = ByteCursor::new(&data);
    assert_eq!(cur.read_u8(), Err(ProtocolError::MalformedMessage));
    assert_eq!(cur.pos, 0);
}

#[test]
fn read_u16_is_little_endian() {
    let data: Vec<u8> = vec![0x34, 0x12, 0xff, 0xff];
    let mut cur = ByteCursor::new(&data);
    assert_eq!(cur.read_u16(), Ok(0x1234));
    assert_eq!(cur.pos, 2);
    assert_eq!(cur.read_u16(), Ok(65535));
    assert_eq!(cur.pos, 4);
}

#[test]
fn read_u16_fails_on_one_byte_and_stays() {
    let data: Vec<u8> = vec![1, 2, 3];
    let mut cur = ByteCursor::new(&data);
    assert_eq!(cur.read_u16(), Ok(0x0201));
    assert_eq!(cur.read_u16(), Err(ProtocolError::MalformedMessage));
    assert_eq!(cur.pos, 2);
    assert_eq!(cur.remaining(), 1);
}

#[test]
fn read_i32_is_little_endian_twos_complement() {
    let data: Vec<u8> = vec![42, 0, 0, 0, 0xfe, 0xff, 0xff, 0xff, 0, 0, 0, 0x80, 0xff, 0xff, 0xff, 0x7f];
    let mut cur = ByteCursor::new(&data);
    assert_eq!(cur.read_i32(), Ok(42));
    assert_eq!(cur.read_i32(), Ok(-2));
    assert_eq!(cur.read_i32(), Ok(i32::MIN));
    assert_eq!(cur.read_i32(), Ok(i32::MAX));
    assert_eq!(cur.pos, 16);
}

#[test]
fn read_i32_fails_on_three_bytes() {
    let data: Vec<u8> = vec![1, 2, 3];
    let mut cur = ByteCursor::new(&data);
    assert_eq!(cur.read_i32(), Err(ProtocolError::MalformedMessage));
    assert_eq!(cur.pos, 0);
}

#[test]
fn read_f32_keeps_the_bit_pattern() {
    let mut data: Vec<u8> = Vec::new();
    data.extend_from_slice(&0.5f32.to_le_bytes());
    data.extend_from_slice(&(-1234.25f32).to_le_bytes());
    let mut cur = ByteCursor::new(&data);
    let first = cur.read_f32().unwrap();
    let second = cur.read_f32().unwrap();
    assert_eq!(first.bits, 0x3f00_0000);
    assert_eq!(f32::from_bits(first.bits), 0.5);
    assert_eq!(f32::from_bits(second.bits), -1234.25);
    assert_eq!(cur.read_f32(), Err(ProtocolError::MalformedMessage));
    assert_eq!(cur.pos, 8);
}

#[test]
fn a_cursor_beyond_the_end_reads_nothing() {
    let data: Vec<u8> = vec![1, 2, 3];
    let mut cur = ByteCursor { data: &data, pos: 10 };
    assert_eq!(cur.remaining(), 0);
    assert_eq!(cur.read_u8(), Err(ProtocolError::MalformedMessage));
    assert_eq!(cur.pos, 10);
}

#[test]
fn writes_append_little_endian_bytes() {
    let mut buffer: Vec<u8> = vec![0xaa];
    write_u8(&mut buffer, 7);
    write_u16(&mut buffer, 0x1234);
    write_i32(&mut buffer, -2);
    write_i32(&mut buffer, 42);
    write_f32(&mut buffer, WireFloat { bits: 1.0f32.to_bits() });
    assert_eq!(
        buffer,
        vec![0xaa, 7, 0x34, 0x12, 0xfe, 0xff, 0xff, 0xff, 42, 0, 0, 0, 0x00, 0x00, 0x80, 0x3f]
    );
}

#[test]
fn scalars_written_are_read_back() {
    let mut buffer: Vec<u8> = Vec::new();
    write_u16(&mut buffer, 51234);
    write_i32(&mut buffer, -123456789);
    write_f32(&mut buffer, WireFloat { bits: 0xdead_beef });
    write_u8(&mut buffer, 200);
    let mut cur = ByteCursor::new(&buffer);
    assert_eq!(cur.read_u16(), Ok(51234));
    assert_eq!(cur.read_i32(), Ok(-123456789));
    assert_eq!(cur.read_f32(), Ok(WireFloat { bits: 0xdead_beef }));
    assert_eq!(cur.read_u8(), Ok(200));
    assert_eq!(cur.remaining(), 0);
}
