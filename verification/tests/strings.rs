use accd_core::accd_error::ProtocolError;
use accd_core::accd_utils::{read_string, read_strings, string_from_bytes, write_string};
use accd_core::accd_wire::ByteCursor;

fn round_trip(text: &str) {
    let written = text.to_string();
    let mut buffer: Vec<u8> = vec![9, 9, 9];
    write_string(&mut buffer, &written).unwrap();
    buffer.push(0x55);
    let mut cur = ByteCursor { data: &buffer, pos: 3 };
    let back = read_string(&mut cur).unwrap();
    assert_eq!(back, written);
    assert_eq!(cur.pos, 3 + 2 + written.len());
}

#[test]
fn write_string_puts_the_length_first() {
    let mut buffer: Vec<u8> = Vec::new();
    write_string(&mut buffer, &"OK".to_string()).unwrap();
    assert_eq!(buffer, vec![2, 0, b'O', b'K']);
}

#[test]
fn write_string_counts_bytes_not_characters() {
    let mut buffer: Vec<u8> = Vec::new();
    write_string(&mut buffer, &"é".to_string()).unwrap();
    assert_eq!(buffer, vec![2, 0, 0xc3, 0xa9]);
}

#[test]
fn an_empty_string_is_two_zero_bytes() {
    let mut buffer: Vec<u8> = Vec::new();
    write_string(&mut buffer, &String::new()).unwrap();
    assert_eq!(buffer, vec![0, 0]);
    let mut cur = ByteCursor::new(&buffer);
    assert_eq!(read_string(&mut cur), Ok(String::new()));
    assert_eq!(cur.pos, 2);
}

#[test]
fn strings_written_are_read_back() {
    round_trip("");
    round_trip("Ferrari");
    round_trip("Nürburgring 24h – Ω ✓ 🏁");
    round_trip("a string with\nline breaks\tand tabs\0and a zero");
}

#[test]
fn the_longest_string_is_read_back() {
    let text = "x".repeat(65535);
    round_trip(&text);
    let mut buffer: Vec<u8> = Vec::new();
    write_string(&mut buffer, &text).unwrap();
    assert_eq!(&buffer[..2], &[0xffu8, 0xff][..]);
    assert_eq!(buffer.len(), 65537);
    let mut cur = ByteCursor::new(&buffer);
    assert_eq!(read_string(&mut cur), Ok(text));
    assert_eq!(cur.pos, 65537);
}

#[test]
fn a_longer_string_is_refused_and_the_buffer_stays() {
    let mut buffer: Vec<u8> = vec![1, 2, 3];
    let text = "y".repeat(65536);
    assert_eq!(write_string(&mut buffer, &text), Err(ProtocolError::StringTooLong));
    assert_eq!(buffer, vec![1, 2, 3]);
    let text = "é".repeat(32768);
    assert_eq!(text.chars().count(), 32768);
    assert_eq!(write_string(&mut buffer, &text), Err(ProtocolError::StringTooLong));
    assert_eq!(buffer, vec![1, 2, 3]);
    let text = "y".repeat(65536 + 3);
    assert_eq!(write_string(&mut buffer, &text), Err(ProtocolError::StringTooLong));
    assert_eq!(buffer, vec![1, 2, 3]);
    let text = "é".repeat(32767);
    assert_eq!(write_string(&mut buffer, &text), Ok(()));
    assert_eq!(buffer.len(), 3 + 2 + 65534);
    assert_eq!(&buffer[3..5], &[0xfeu8, 0xff][..]);
}

#[test]
fn read_string_fails_when_bytes_are_missing() {
    let data: Vec<u8> = vec![5, 0, b'a', b'b', b'c', b'd'];
    let mut cur = ByteCursor::new(&data);
    assert_eq!(read_string(&mut cur), Err(ProtocolError::MalformedMessage));
    assert_eq!(cur.pos, 0);
    let short: Vec<u8> = vec![5];
    let mut cur = ByteCursor::new(&short);
    assert_eq!(read_string(&mut cur), Err(ProtocolError::MalformedMessage));
    assert_eq!(cur.pos, 0);
}

#[test]
fn read_string_fails_on_bytes_that_are_not_utf8() {
    let data: Vec<u8> = vec![2, 0, 0xff, 0xfe, 1];
    let mut cur = ByteCursor::new(&data);
    assert_eq!(read_string(&mut cur), Err(ProtocolError::MalformedMessage));
    assert_eq!(cur.pos, 0);
    let cut: Vec<u8> = vec![1, 0, 0xc3, 0xa9];
    let mut cur = ByteCursor::new(&cut);
    assert_eq!(read_string(&mut cur), Err(ProtocolError::MalformedMessage));
}

#[test]
fn string_from_bytes_decodes_or_refuses() {
    assert_eq!(string_from_bytes(vec![b'O', b'K']), Ok("OK".to_string()));
    assert_eq!(string_from_bytes(vec![0xe2, 0x9c, 0x93]), Ok("✓".to_string()));
    assert_eq!(string_from_bytes(vec![]), Ok(String::new()));
    assert_eq!(string_from_bytes(vec![0x80]), Err(ProtocolError::MalformedMessage));
    assert_eq!(string_from_bytes(vec![0xed, 0xa0, 0x80]), Err(ProtocolError::MalformedMessage));
}

#[test]
fn read_strings_takes_them_in_order() {
    let mut data: Vec<u8> = Vec::new();
    write_string(&mut data, &"one".to_string()).unwrap();
    write_string(&mut data, &"".to_string()).unwrap();
    write_string(&mut data, &"three".to_string()).unwrap();
    let mut cur = ByteCursor::new(&data);
    let strings = read_strings(&mut cur, 3).unwrap();
    assert_eq!(strings, vec!["one".to_string(), String::new(), "three".to_string()]);
    assert_eq!(cur.pos, data.len());
    let mut cur = ByteCursor::new(&data);
    assert_eq!(read_strings(&mut cur, 0), Ok(Vec::new()));
    assert_eq!(cur.pos, 0);
}

#[test]
fn read_strings_fails_as_a_whole() {
    let mut data: Vec<u8> = Vec::new();
    write_string(&mut data, &"one".to_string()).unwrap();
    write_string(&mut data, &"two".to_string()).unwrap();
    let mut cur = ByteCursor::new(&data);
    assert_eq!(read_strings(&mut cur, 3), Err(ProtocolError::MalformedMessage));
    assert_eq!(cur.pos, 0);
}
