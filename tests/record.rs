use avpipe::record::{gray_record, RecordError};

#[test]
fn record_of_strided_plane() {
    let plane = vec![1u8, 2, 9, 3, 4];
    let r = gray_record(&plane, 2, 2, 3).unwrap();
    let mut expected = b"P5\n2 2\n255\n".to_vec();
    expected.extend_from_slice(&[1, 2, 3, 4]);
    assert_eq!(r, expected);
}

#[test]
fn record_header_digits() {
    let plane = vec![0u8; 1920 * 2];
    let r = gray_record(&plane, 1920, 1, 1920).unwrap();
    assert!(r.starts_with(b"P5\n1920 1\n255\n"));
    assert_eq!(r.len(), b"P5\n1920 1\n255\n".len() + 1920);
}

#[test]
fn record_of_empty_frame() {
    assert_eq!(gray_record(&Vec::new(), 0, 0, 0).unwrap(), b"P5\n0 0\n255\n".to_vec());
}

#[test]
fn record_errors() {
    assert_eq!(gray_record(&vec![0u8; 16], 4, 2, 3), Err(RecordError::StrideTooSmall));
    assert_eq!(gray_record(&vec![0u8; 6], 2, 3, 3), Err(RecordError::PlaneTooShort));
    assert!(gray_record(&vec![0u8; 8], 2, 3, 3).is_ok());
}
