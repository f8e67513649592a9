use sumo_traci::error::TraciError;
use sumo_traci::framing::{frame, payload_len, unframe};
use sumo_traci::storage::Storage;

#[test]
fn frame_prepends_total_length() {
    let payload = Storage::from_bytes(vec![9, 8, 7]);
    let f = frame(&payload);
    assert_eq!(f, vec![0, 0, 0, 7, 9, 8, 7]);
}

#[test]
fn frame_integrity_round_trip() {
    let mut payload = Storage::new();
    payload.write_string("hello");
    payload.write_i32(-7);
    let original = payload.as_bytes().to_vec();
    let f = frame(&payload);
    let back = unframe(&f).unwrap();
    assert_eq!(back.as_bytes(), &original[..]);
    assert_eq!(back.position(), 0);
}

#[test]
fn frame_of_empty_payload() {
    let f = frame(&Storage::new());
    assert_eq!(f, vec![0, 0, 0, 4]);
    let back = unframe(&f).unwrap();
    assert!(back.is_empty());
}

#[test]
fn unframe_ignores_following_bytes() {
    let back = unframe(&[0, 0, 0, 6, 1, 2, 3, 4]).unwrap();
    assert_eq!(back.as_bytes(), &[1u8, 2][..]);
}

#[test]
fn unframe_too_small_total_is_protocol() {
    assert!(matches!(unframe(&[0, 0, 0, 3, 1]), Err(TraciError::Protocol(_))));
}

#[test]
fn unframe_incomplete_is_connection() {
    assert!(matches!(unframe(&[0, 0]), Err(TraciError::Connection(_))));
    assert!(matches!(unframe(&[0, 0, 0, 9, 1, 2]), Err(TraciError::Connection(_))));
}

#[test]
fn payload_len_from_header() {
    assert_eq!(payload_len(&[0, 0, 1, 4]).unwrap(), 256);
    assert_eq!(payload_len(&[0, 0, 0, 4]).unwrap(), 0);
    assert!(matches!(payload_len(&[0, 0, 0, 2]), Err(TraciError::Protocol(_))));
}
