use remarkable_events::framing::{decode_frame, encode_frame, frame_len, FrameError, MAX_FRAME_LEN};

#[test]
fn frame_has_big_endian_length_prefix() {
    let f = encode_frame(&[0xAA, 0xBB, 0xCC]);
    assert_eq!(f, vec![0, 0, 0, 0, 0, 0, 0, 3, 0xAA, 0xBB, 0xCC]);
}

#[test]
fn frame_round_trip() {
    let payload: Vec<u8> = (0..300u32).map(|i| (i % 251) as u8).collect();
    let f = encode_frame(&payload);
    assert_eq!(f.len(), 308);
    assert_eq!(decode_frame(&f, MAX_FRAME_LEN), Ok(payload));
    let empty = encode_frame(&[]);
    assert_eq!(empty, vec![0u8; 8]);
    assert_eq!(decode_frame(&empty, MAX_FRAME_LEN), Ok(vec![]));
}

#[test]
fn oversized_frame_is_refused_before_payload() {
    let header = (MAX_FRAME_LEN as u64 + 1).to_be_bytes();
    assert_eq!(frame_len(&header, MAX_FRAME_LEN), Err(FrameError::TooLarge(1025)));
    assert_eq!(decode_frame(&header, MAX_FRAME_LEN), Err(FrameError::TooLarge(1025)));
    let huge = u64::MAX.to_be_bytes();
    assert_eq!(decode_frame(&huge, MAX_FRAME_LEN), Err(FrameError::TooLarge(u64::MAX)));
}

#[test]
fn frame_len_accepts_the_maximum() {
    let header = (MAX_FRAME_LEN as u64).to_be_bytes();
    assert_eq!(frame_len(&header, MAX_FRAME_LEN), Ok(1024));
    assert_eq!(frame_len(&[0, 0, 0, 0, 0, 0, 1, 2], MAX_FRAME_LEN), Ok(258));
}

#[test]
fn short_and_truncated_frames() {
    assert_eq!(decode_frame(&[0, 0, 0], MAX_FRAME_LEN), Err(FrameError::ShortHeader));
    assert_eq!(decode_frame(&[0, 0, 0, 0, 0, 0, 0, 4, 1, 2], MAX_FRAME_LEN), Err(FrameError::Truncated));
    assert_eq!(decode_frame(&[0, 0, 0, 0, 0, 0, 0, 1, 9, 8, 7], MAX_FRAME_LEN), Ok(vec![9]));
}
