use sumo_traci::error::TraciError;
use sumo_traci::storage::Storage;

fn is_protocol<T>(r: &Result<T, TraciError>) -> bool {
    matches!(r, Err(TraciError::Protocol(_)))
}

#[test]
fn u8_round_trip() {
    let mut s = Storage::new();
    s.write_u8(0);
    s.write_u8(200);
    s.write_u8(255);
    assert_eq!(s.as_bytes(), &[0u8, 200, 255][..]);
    assert_eq!(s.read_u8().unwrap(), 0);
    assert_eq!(s.read_u8().unwrap(), 200);
    assert_eq!(s.read_u8().unwrap(), 255);
    assert_eq!(s.position(), 3);
    assert!(!s.valid_pos());
}

#[test]
fn i32_round_trip_big_endian() {
    let mut s = Storage::new();
    s.write_i32(0x0102_0304);
    s.write_i32(-2);
    s.write_i32(i32::MIN);
    assert_eq!(&s.as_bytes()[0..4], &[1u8, 2, 3, 4][..]);
    assert_eq!(&s.as_bytes()[4..8], &[0xffu8, 0xff, 0xff, 0xfe][..]);
    assert_eq!(s.read_i32().unwrap(), 0x0102_0304);
    assert_eq!(s.read_i32().unwrap(), -2);
    assert_eq!(s.read_i32().unwrap(), i32::MIN);
}

#[test]
fn i16_round_trip() {
    let mut s = Storage::new();
    s.write_i16(-300);
    s.write_i16(0x1234);
    assert_eq!(s.as_bytes(), &[0xfeu8, 0xd4, 0x12, 0x34][..]);
    assert_eq!(s.read_i16().unwrap(), -300);
    assert_eq!(s.read_i16().unwrap(), 0x1234);
}

#[test]
fn f64_round_trip_bits() {
    let mut s = Storage::new();
    s.write_f64(27.5f64.to_bits());
    s.write_f64((-0.0f64).to_bits());
    // 27.5 = 0x403B800000000000
    assert_eq!(&s.as_bytes()[0..8], &[0x40u8, 0x3b, 0x80, 0, 0, 0, 0, 0][..]);
    assert_eq!(f64::from_bits(s.read_f64().unwrap()), 27.5);
    assert_eq!(s.read_f64().unwrap(), (-0.0f64).to_bits());
}

#[test]
fn signed_byte_round_trip() {
    let mut s = Storage::new();
    assert!(s.write_byte(-1).is_ok());
    assert!(s.write_byte(127).is_ok());
    assert!(s.write_byte(-128).is_ok());
    assert_eq!(s.as_bytes(), &[0xffu8, 0x7f, 0x80][..]);
    assert_eq!(s.read_byte().unwrap(), -1);
    assert_eq!(s.read_byte().unwrap(), 127);
    assert_eq!(s.read_byte().unwrap(), -128);
}

#[test]
fn signed_byte_out_of_range_is_refused() {
    let mut s = Storage::new();
    assert!(is_protocol(&s.write_byte(128)));
    assert!(is_protocol(&s.write_byte(-129)));
    assert!(s.is_empty());
}

#[test]
fn string_round_trip() {
    let mut s = Storage::new();
    s.write_string("v0");
    s.write_string("");
    s.write_string("Grüße");
    assert_eq!(&s.as_bytes()[0..6], &[0u8, 0, 0, 2, b'v', b'0'][..]);
    assert_eq!(s.read_string().unwrap(), "v0");
    assert_eq!(s.read_string().unwrap(), "");
    assert_eq!(s.read_string().unwrap(), "Grüße");
    assert!(!s.valid_pos());
}

#[test]
fn string_list_round_trip() {
    let list = vec!["a".to_string(), "".to_string(), "edge_1".to_string()];
    let mut s = Storage::new();
    s.write_string_list(&list);
    assert_eq!(s.len(), 4 + (4 + 1) + 4 + (4 + 6));
    assert_eq!(s.read_string_list().unwrap(), list);
}

#[test]
fn empty_string_list_round_trip() {
    let mut s = Storage::new();
    s.write_string_list(&[]);
    assert_eq!(s.as_bytes(), &[0u8, 0, 0, 0][..]);
    assert_eq!(s.read_string_list().unwrap(), Vec::<String>::new());
}

#[test]
fn f64_list_round_trip() {
    let list: Vec<u64> = vec![1.5f64.to_bits(), (-3.25f64).to_bits()];
    let mut s = Storage::new();
    s.write_f64_list(&list);
    assert_eq!(s.len(), 4 + 16);
    assert_eq!(s.read_f64_list().unwrap(), list);
}

#[test]
fn read_past_end_fails_with_protocol() {
    let mut s = Storage::from_bytes(vec![1, 2, 3]);
    assert!(is_protocol(&s.read_i32()));
    let mut s = Storage::from_bytes(vec![1, 2, 3, 4, 5, 6, 7]);
    assert!(is_protocol(&s.read_f64()));
    let mut s = Storage::new();
    assert!(is_protocol(&s.read_u8()));
    assert!(is_protocol(&s.read_i16()));
}

#[test]
fn string_longer_than_buffer_fails() {
    let mut s = Storage::new();
    s.write_i32(10);
    s.write_packet(b"abc");
    assert!(is_protocol(&s.read_string()));
}

#[test]
fn negative_string_length_fails() {
    let mut s = Storage::new();
    s.write_i32(-1);
    s.write_packet(b"abc");
    assert!(is_protocol(&s.read_string()));
}

#[test]
fn invalid_utf8_fails() {
    let mut s = Storage::new();
    s.write_i32(2);
    s.write_packet(&[0xc3, 0x28]);
    assert!(is_protocol(&s.read_string()));
}

#[test]
fn truncated_list_fails() {
    let mut s = Storage::new();
    s.write_i32(3);
    s.write_string("only one");
    assert!(is_protocol(&s.read_string_list()));
    let mut s = Storage::new();
    s.write_i32(2);
    s.write_f64(1.0f64.to_bits());
    assert!(is_protocol(&s.read_f64_list()));
}

#[test]
fn negative_list_count_reads_empty() {
    let mut s = Storage::new();
    s.write_i32(-5);
    assert_eq!(s.read_string_list().unwrap(), Vec::<String>::new());
    assert_eq!(s.position(), 4);
}

#[test]
fn writes_do_not_move_cursor() {
    let mut s = Storage::new();
    s.write_u8(7);
    assert_eq!(s.read_u8().unwrap(), 7);
    s.write_i32(42);
    assert_eq!(s.position(), 1);
    assert_eq!(s.read_i32().unwrap(), 42);
    s.reset_pos();
    assert_eq!(s.position(), 0);
    assert_eq!(s.len(), 5);
    s.reset();
    assert!(s.is_empty());
    assert_eq!(s.position(), 0);
}

#[test]
fn append_storage_concatenates() {
    let mut a = Storage::from_bytes(vec![1, 2]);
    let b = Storage::from_bytes(vec![3, 4, 5]);
    a.append_storage(&b);
    assert_eq!(a.as_bytes(), &[1u8, 2, 3, 4, 5][..]);
}
