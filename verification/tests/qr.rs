use bili_live_tool::qr::{encode_qr, QrImageError};

#[test]
fn encode_qr_gives_a_png_image() {
    let png = encode_qr("https://passport.bilibili.com/h5-app/passport/login/scan?qrcode_key=8587cf8106a0b863c46d6bab913537f6").unwrap();
    assert_eq!(&png[..8], &[0x89, b'P', b'N', b'G', 0x0d, 0x0a, 0x1a, 0x0a]);
}

#[test]
fn encode_qr_rejects_text_too_long_for_a_qr_code() {
    let text = "x".repeat(5000);
    assert!(matches!(encode_qr(&text), Err(QrImageError::Encode(_))));
}

#[test]
fn encode_qr_gives_a_square_gray_png() {
    let png = encode_qr("hello").unwrap();
    // IHDR: width and height (big endian), bit depth 8, colour type 0 (gray)
    let width = u32::from_be_bytes([png[16], png[17], png[18], png[19]]);
    let height = u32::from_be_bytes([png[20], png[21], png[22], png[23]]);
    assert_eq!(&png[12..16], b"IHDR");
    assert_eq!(width, height);
    // version 1: 21 modules and a quiet zone of 4 on each side, 8 pixels each
    assert_eq!(width, (21 + 8) * 8);
    assert_eq!(png[24], 8);
    assert_eq!(png[25], 0);
}

#[test]
fn encode_qr_is_deterministic() {
    assert_eq!(encode_qr("same text").unwrap(), encode_qr("same text").unwrap());
}
