use avif_ffi::encode::{deliver_encoded, enc_rgba, NO_INPUT};
use avif_ffi::error::{last_error_length, last_error_message, update_last_error, ErrorKind, ErrorSlot, FfiAvifError};

fn config() -> ravif::Config {
    ravif::Config {
        quality: 80.,
        alpha_quality: 80.,
        speed: 10,
        premultiplied_alpha: false,
        color_space: ravif::ColorSpace::YCbCr,
        threads: 1,
    }
}

fn read_message(slot: &mut ErrorSlot) -> String {
    let mut buf = vec![0u8; 256];
    let n = last_error_message(slot, &mut buf);
    assert!(n >= 0);
    String::from_utf8(buf[..n as usize].to_vec()).unwrap()
}

#[test]
fn missing_input_records_invalid_argument() {
    let mut slot = ErrorSlot::new();
    assert!(enc_rgba(None, &config(), &mut slot).is_none());
    assert_eq!(slot.last.as_ref().unwrap().kind, ErrorKind::InvalidArgument);
    assert_eq!(last_error_length(&slot), NO_INPUT.len() as i32 + 1);
    assert_eq!(read_message(&mut slot), "No input data pointer provided");
    assert_eq!(last_error_length(&slot), 0);
}

#[test]
fn truncated_png_input_fails_with_message() {
    let mut slot = ErrorSlot::new();
    let data = [0x89, b'P', b'N', b'G', 0x0D, 0x0A, 0x1A];
    assert!(enc_rgba(Some(&data), &config(), &mut slot).is_none());
    assert!(last_error_length(&slot) > 0);
    assert_eq!(slot.last.as_ref().unwrap().kind, ErrorKind::DecodeFailure);
}

#[test]
fn later_failure_replaces_earlier_error() {
    let mut slot = ErrorSlot::new();
    update_last_error(&mut slot, FfiAvifError::new(ErrorKind::EncodeFailure, "older"));
    assert!(enc_rgba(Some(&[0u8, 1, 2]), &config(), &mut slot).is_none());
    assert_eq!(slot.last.as_ref().unwrap().kind, ErrorKind::DecodeFailure);
}

#[test]
fn encoder_failure_is_recorded() {
    let mut slot = ErrorSlot::new();
    assert!(deliver_encoded(Err("encoder gave up".to_string()), &mut slot).is_none());
    assert_eq!(slot.last.as_ref().unwrap().kind, ErrorKind::EncodeFailure);
    assert_eq!(read_message(&mut slot), "encoder gave up");
}

#[test]
fn encoder_bytes_are_handed_out() {
    let mut slot = ErrorSlot::new();
    assert_eq!(deliver_encoded(Ok(vec![1, 2, 3]), &mut slot), Some(vec![1, 2, 3]));
    assert!(slot.last.is_none());
}

#[test]
fn png_input_encodes_to_avif() {
    let src = [rgb::RGBA8::new(200, 10, 10, 255); 16];
    let png = lodepng::encode32(&src, 4, 4).unwrap();
    let mut slot = ErrorSlot::new();
    let out = enc_rgba(Some(&png), &config(), &mut slot).unwrap();
    assert!(slot.last.is_none());
    assert!(out.len() > 12);
    assert_eq!(&out[4..8], b"ftyp");
    assert_eq!(&out[8..12], b"avif");
}
