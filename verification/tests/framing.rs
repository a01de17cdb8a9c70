use secmon::framing::{encode_frame, frame_length};

#[test]
fn frame_carries_length_then_payload() {
    let payload = vec![7u8; 300];
    let f = encode_frame(&payload);
    assert_eq!(&f[..4], &[0, 0, 1, 44]);
    assert_eq!(&f[4..], &payload[..]);
}

#[test]
fn header_reads_back_length() {
    let payload = vec![1u8, 2, 3];
    let f = encode_frame(&payload);
    let n = frame_length([f[0], f[1], f[2], f[3]]);
    assert_eq!(n, 3);
    assert_eq!(frame_length([0x12, 0x34, 0x56, 0x78]), 0x12345678);
    assert_eq!(frame_length([0xff, 0xff, 0xff, 0xff]), u32::MAX);
}

#[test]
fn empty_payload_has_zero_header() {
    assert_eq!(encode_frame(&vec![]), vec![0, 0, 0, 0]);
}
