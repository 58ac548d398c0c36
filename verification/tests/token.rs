use chat_relay::token::{generate, render, TOKEN_BYTES};

#[test]
fn bytes_render_as_upper_case_hex() {
    assert_eq!(render(&[]), "");
    assert_eq!(render(&[0x00]), "00");
    assert_eq!(render(&[0x0A]), "0A");
    assert_eq!(render(&[0xA0]), "A0");
    assert_eq!(render(&[0xFF]), "FF");
    assert_eq!(render(&[0x01, 0x23, 0x45, 0x67, 0x89, 0xAB, 0xCD, 0xEF]), "0123456789ABCDEF");
    assert_eq!(render(&[0xDE, 0xAD, 0xBE, 0xEF, 0x00, 0x10]), "DEADBEEF0010");
}

#[test]
fn every_byte_renders_as_the_formatter_does() {
    for b in 0..=255u8 {
        assert_eq!(render(&[b]), format!("{:02X}", b));
    }
}

#[test]
fn generated_token_is_sixteen_bytes_of_hex() {
    assert_eq!(TOKEN_BYTES, 16);
    let (token, _) = generate();
    assert_eq!(token.len(), 32);
    assert!(token.bytes().all(|c| c.is_ascii_digit() || (b'A'..=b'F').contains(&c)));
}

#[test]
fn generated_tokens_are_random() {
    let (first, filled_first) = generate();
    let (second, filled_second) = generate();
    assert!(filled_first && filled_second);
    assert_ne!(first, "00000000000000000000000000000000");
    assert_ne!(first, second);
}
