use avif_ffi::error::{
    last_error_length, last_error_message, take_last_error, update_last_error, ErrorKind,
    ErrorSlot, FfiAvifError,
};

fn slot_with(msg: &str) -> ErrorSlot {
    let mut slot = ErrorSlot::new();
    update_last_error(&mut slot, FfiAvifError::new(ErrorKind::DecodeFailure, msg));
    slot
}

#[test]
fn fresh_slot_reports_zero_length() {
    let slot = ErrorSlot::new();
    assert_eq!(last_error_length(&slot), 0);
}

#[test]
fn length_counts_terminator() {
    let slot = slot_with("broken");
    assert_eq!(last_error_length(&slot), 7);
    // Reading the length does not consume the error.
    assert_eq!(last_error_length(&slot), 7);
}

#[test]
fn length_counts_utf8_bytes() {
    let slot = slot_with("é");
    assert_eq!(last_error_length(&slot), 3);
}

#[test]
fn message_read_with_room_writes_and_consumes() {
    let mut slot = slot_with("broken");
    let mut buf = [0xAAu8; 10];
    assert_eq!(last_error_message(&mut slot, &mut buf), 6);
    assert_eq!(&buf[..6], b"broken");
    assert_eq!(buf[6], 0);
    assert_eq!(&buf[7..], &[0xAA, 0xAA, 0xAA]);
    assert_eq!(last_error_length(&slot), 0);
}

#[test]
fn message_read_with_exact_room() {
    let mut slot = slot_with("abc");
    let mut buf = [1u8; 4];
    assert_eq!(last_error_message(&mut slot, &mut buf), 3);
    assert_eq!(buf, [b'a', b'b', b'c', 0]);
}

#[test]
fn message_read_too_small_fails_and_consumes() {
    let mut slot = slot_with("abc");
    let mut buf = [7u8; 3];
    assert_eq!(last_error_message(&mut slot, &mut buf), -1);
    assert_eq!(buf, [7u8; 3]);
    assert_eq!(last_error_length(&slot), 0);
    assert_eq!(last_error_message(&mut slot, &mut buf), 0);
}

#[test]
fn message_read_on_empty_slot_returns_zero() {
    let mut slot = ErrorSlot::new();
    let mut buf = [9u8; 4];
    assert_eq!(last_error_message(&mut slot, &mut buf), 0);
    assert_eq!(buf, [9u8; 4]);
    assert_eq!(last_error_length(&slot), 0);
}

#[test]
fn last_write_wins() {
    let mut slot = slot_with("first");
    update_last_error(&mut slot, FfiAvifError::new(ErrorKind::EncodeFailure, "second one"));
    assert_eq!(last_error_length(&slot), 11);
    let e = take_last_error(&mut slot).unwrap();
    assert_eq!(e.kind, ErrorKind::EncodeFailure);
    assert_eq!(e.message(), "second one");
    assert!(take_last_error(&mut slot).is_none());
}
