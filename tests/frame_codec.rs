use faces_common_types::encode_decodes_resources::{
    DecodeConfig, EncDecResErr, EncodeConfig, VerifyEncodedAnimationData,
};

fn header(width: u32, height: u32) -> Vec<u8> {
    EncodeConfig::create_encoder_destination_buffer(width, height)
}

#[test]
fn header_layout_is_magic_then_little_endian_dimensions() {
    let h = header(0x0102_0304, 0x0A0B_0C0D);
    assert_eq!(
        h,
        vec![b'F', b'A', b'C', b'E', b'F', b'A', b'C', b'E', 4, 3, 2, 1, 0x0D, 0x0C, 0x0B, 0x0A]
    );
}

#[test]
fn frame_size_round_trips_through_header() {
    for (w, h) in [(0u32, 0u32), (1920, 1080), (u32::MAX, 1), (7, u32::MAX)] {
        let mut bytes = header(w, h);
        bytes.extend_from_slice(&[9, 9, 9]);
        let (hdr, payload) = DecodeConfig::split_header_and_data_into_bytes_buffer(bytes);
        match hdr.get_frame_size() {
            Ok(size) => assert_eq!(size, (w, h)),
            Err(_) => panic!("frame size should decode"),
        }
        assert_eq!(&payload.0[..], &[9, 9, 9]);
    }
}

#[test]
fn split_keeps_empty_payload() {
    let (hdr, payload) = DecodeConfig::split_header_and_data_into_bytes_buffer(header(3, 4));
    assert!(payload.0.is_empty());
    assert!(matches!(hdr.get_frame_size(), Ok((3, 4))));
}

#[test]
fn frame_size_rejects_wrong_magic() {
    let mut bytes = header(5, 6);
    bytes[2] = b'X';
    let (hdr, _) = DecodeConfig::split_header_and_data_into_bytes_buffer(bytes);
    assert!(matches!(
        hdr.get_frame_size(),
        Err(EncDecResErr::FailedToReadFrameDimensionsInStream(_))
    ));
}

#[test]
fn verify_accepts_header_followed_by_data() {
    let mut bytes = header(1, 2);
    bytes.push(0);
    let s: &[u8] = &bytes;
    assert!(s.verify_header_at_offset(0).is_ok());
}

#[test]
fn verify_reports_bare_header_as_too_short() {
    let bytes = header(1, 2);
    let s: &[u8] = &bytes;
    assert!(matches!(s.verify_header_at_offset(0), Err(EncDecResErr::BlobTooShort(16))));
}

#[test]
fn verify_reports_truncated_buffer_as_too_short() {
    let bytes = header(1, 2);
    for len in 0..16 {
        let s: &[u8] = &bytes[..len];
        match s.verify_header_at_offset(0) {
            Err(EncDecResErr::BlobTooShort(n)) => assert_eq!(n, len),
            _ => panic!("expected BlobTooShort"),
        }
    }
}

#[test]
fn verify_detects_each_flipped_magic_byte() {
    let mut bytes = header(10, 20);
    bytes.push(1);
    for i in 0..8 {
        let mut corrupt = bytes.clone();
        corrupt[i] ^= 0xFF;
        let s: &[u8] = &corrupt;
        assert!(matches!(s.verify_header_at_offset(0), Err(EncDecResErr::WrongPrefix(_))));
    }
}

#[test]
fn verify_finds_header_at_offset() {
    let mut bytes = vec![0xAA, 0xBB, 0xCC];
    bytes.extend_from_slice(&header(8, 9));
    bytes.push(0);
    let s: &[u8] = &bytes;
    assert!(s.verify_header_at_offset(3).is_ok());
    assert!(matches!(s.verify_header_at_offset(0), Err(EncDecResErr::WrongPrefix(_))));
    assert!(matches!(s.verify_header_at_offset(4), Err(EncDecResErr::BlobTooShort(20))));
    assert!(matches!(s.verify_header_at_offset(usize::MAX), Err(EncDecResErr::BlobTooShort(20))));
}

#[test]
fn compare_payload_len_accepts_any_length() {
    let bytes = header(1, 1);
    let s: &[u8] = &bytes;
    assert!(s.compare_payload_len(0));
    assert!(s.compare_payload_len(12345));
}

#[test]
fn error_texts_name_kind_and_detail() {
    assert_eq!(
        EncDecResErr::WrongPrefix("Should be FACEFACE".to_string()).to_string(),
        "EncDecResErr WrongPrefix : [\"Should be FACEFACE\"]"
    );
    assert_eq!(
        EncDecResErr::BlobTooShort(12).to_string(),
        "EncDecResErr BlobTooShort [12] bytes"
    );
    assert_eq!(
        EncDecResErr::FailedToReadFrameDimensionsInStream("a\"b".to_string()).to_string(),
        "EncDecResErr FailedToReadFrameDimensionsInStream [\"a\\\"b\"]"
    );
}
