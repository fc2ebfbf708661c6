use xiaozhi_rs::crypto::{
    hex_decode_16, AesCtrCipher, CryptoError, UdpAudioHeader, HEADER_SIZE, TYPE_AUDIO,
};
use xiaozhi_rs::text;

#[test]
fn header_build_and_parse_roundtrip() {
    let base = [
        0x01u8, 0x00, 0xAA, 0xBB, 0xCC, 0xDD, 0xEE, 0xFF, 0x11, 0x22, 0x33, 0x44, 0x55, 0x66, 0x77,
        0x88,
    ];
    let h = UdpAudioHeader {
        type_: 0x01,
        flags: 0x00,
        payload_len: 0x1234,
        ssrc: 0,
        timestamp: 0xDEADBEEF,
        sequence: 0x00000007,
    };
    let iv = h.build_iv(&base);
    assert_eq!(iv[0], 0x01);
    assert_eq!(iv[1], 0x00);
    assert_eq!(&iv[4..8], &base[4..8]);
    assert_eq!(&iv[2..4], &[0x12, 0x34]);
    assert_eq!(&iv[8..12], &[0xDE, 0xAD, 0xBE, 0xEF]);
    assert_eq!(&iv[12..16], &[0x00, 0x00, 0x00, 0x07]);

    let parsed = UdpAudioHeader::parse(&iv);
    assert_eq!(parsed.type_, 0x01);
    assert_eq!(parsed.payload_len, 0x1234);
    assert_eq!(parsed.timestamp, 0xDEADBEEF);
    assert_eq!(parsed.sequence, 7);
}

#[test]
fn aes_ctr_roundtrip() {
    let key = [0u8; 16];
    let cipher = AesCtrCipher { key };
    let iv = [0u8; 16];
    let mut data = b"hello xiaozhi udp audio".to_vec();
    let original = data.clone();
    cipher.apply_keystream(&iv, &mut data);
    assert_ne!(data, original);
    cipher.apply_keystream(&iv, &mut data);
    assert_eq!(data, original);
}

#[test]
fn hex_decode_ok_and_bad() {
    assert!(hex_decode_16("0123456789ABCDEF0123456789ABCDEF").is_ok());
    assert!(hex_decode_16("short").is_err());
    assert!(hex_decode_16("ZZ23456789ABCDEF0123456789ABCDEF").is_err());
}

#[test]
fn aes_ctr_matches_published_vector() {
    let cipher = AesCtrCipher::from_hex_key("2b7e151628aed2a6abf7158809cf4f3c").unwrap();
    let iv = hex_decode_16("f0f1f2f3f4f5f6f7f8f9fafbfcfdfeff").unwrap();
    let mut data = hex_decode_16("6bc1bee22e409f96e93d7e117393172a").unwrap().to_vec();
    cipher.clone().apply_keystream(&iv, &mut data);
    assert_eq!(text::to_hex(&data), "874d6191b620e3261bef6864990db6ce");
}

#[test]
fn hex_decode_spells_the_bytes_in_either_case() {
    let bytes = hex_decode_16("00ff10AbCd0123456789abcdefABCDEF").unwrap();
    assert_eq!(
        bytes,
        [
            0x00, 0xff, 0x10, 0xab, 0xcd, 0x01, 0x23, 0x45, 0x67, 0x89, 0xab, 0xcd, 0xef, 0xab,
            0xcd, 0xef
        ]
    );
    assert_eq!(text::to_hex(&bytes), "00ff10abcd0123456789abcdefabcdef");
}

#[test]
fn hex_errors_name_the_length_or_the_first_bad_digit() {
    match hex_decode_16("short") {
        Err(CryptoError::BadHexLen(n)) => assert_eq!(n, 5),
        _ => panic!("length"),
    }
    let e = hex_decode_16("0123456789xBCDEF0123456789ABCDEy").err().unwrap();
    assert_eq!(e.message(), "hex 解码失败: 非法 hex 字符: x");
    assert_eq!(
        CryptoError::BadHexLen(5).message(),
        "hex 长度错误: 期望 32 字符, 得 5"
    );
    // Sixteen characters of two bytes each have the right length and no digit.
    let e = hex_decode_16("éééééééééééééééé").err().unwrap();
    assert_eq!(e.message(), "hex 解码失败: 非法 hex 字符: Ã");
    assert!(AesCtrCipher::from_hex_key("00").is_err());
}

#[test]
fn header_constants() {
    assert_eq!(HEADER_SIZE, 16);
    assert_eq!(TYPE_AUDIO, 1);
}
