use usque_rs::base64::encode_block;
use usque_rs::identity::{
    android_serial_of, android_serial_text, random_android_serial, random_wg_pubkey, wg_pubkey_of,
    wg_pubkey_text,
};
use usque_rs::report::Report;

#[test]
fn base64_of_the_standard_vectors() {
    assert_eq!(encode_block(b""), "");
    assert_eq!(encode_block(b"f"), "Zg==");
    assert_eq!(encode_block(b"fo"), "Zm8=");
    assert_eq!(encode_block(b"foo"), "Zm9v");
    assert_eq!(encode_block(b"foob"), "Zm9vYg==");
    assert_eq!(encode_block(b"fooba"), "Zm9vYmE=");
    assert_eq!(encode_block(b"foobar"), "Zm9vYmFy");
}

#[test]
fn base64_uses_the_whole_alphabet() {
    let bytes = [
        0x00, 0x10, 0x83, 0x10, 0x51, 0x87, 0x20, 0x92, 0x8b, 0x30, 0xd3, 0x8f, 0x41, 0x14, 0x93,
        0x51, 0x55, 0x97, 0x61, 0x96, 0x9b, 0x71, 0xd7, 0x9f, 0x82, 0x18, 0xa3, 0x92, 0x59, 0xa7,
        0xa2, 0x9a, 0xab, 0xb2, 0xdb, 0xaf, 0xc3, 0x1c, 0xb3, 0xd3, 0x5d, 0xb7, 0xe3, 0x9e, 0xbb,
        0xf3, 0xdf, 0xbf,
    ];
    assert_eq!(
        encode_block(&bytes),
        "ABCDEFGHIJKLMNOPQRSTUVWXYZabcdefghijklmnopqrstuvwxyz0123456789+/"
    );
}

#[test]
fn base64_tells_bytes_apart() {
    assert_ne!(encode_block(&[0]), encode_block(&[0, 0]));
    assert_ne!(encode_block(&[0, 1]), encode_block(&[1, 0]));
}

#[test]
fn key_text_is_base64() {
    assert_eq!(
        wg_pubkey_text(&[255; 32]),
        "//////////////////////////////////////////8="
    );
}

#[test]
fn serial_text_is_lower_case_hexadecimal() {
    assert_eq!(
        android_serial_text(&[0x01, 0x23, 0x45, 0x67, 0x89, 0xab, 0xcd, 0xef]),
        "0123456789abcdef"
    );
}

#[test]
fn serial_text_tells_serials_apart() {
    assert_ne!(
        android_serial_text(&[1, 0, 0, 0, 0, 0, 0, 0]),
        android_serial_text(&[0x10, 0, 0, 0, 0, 0, 0, 0])
    );
}

#[test]
fn drawn_bytes_become_their_texts() {
    assert_eq!(
        wg_pubkey_of(Some([0; 32])).unwrap(),
        "AAAAAAAAAAAAAAAAAAAAAAAAAAAAAAAAAAAAAAAAAAA="
    );
    assert_eq!(
        android_serial_of(Some([0xfe; 8])).unwrap(),
        "fefefefefefefefe"
    );
}

#[test]
fn failed_draws_are_failures_of_the_generator() {
    assert_eq!(wg_pubkey_of(None).unwrap_err().message(), "RNG failure");
    assert_eq!(android_serial_of(None).unwrap_err().message(), "RNG failure");
}

#[test]
fn random_texts_differ() {
    let (a, b) = (random_wg_pubkey().unwrap(), random_wg_pubkey().unwrap());
    assert_eq!((a.len(), b.len()), (44, 44));
    assert_ne!(a, b);
    let (a, b) = (
        random_android_serial().unwrap(),
        random_android_serial().unwrap(),
    );
    assert_eq!((a.len(), b.len()), (16, 16));
    assert_ne!(a, b);
}

#[test]
fn reports_say_what_failed() {
    assert_eq!(Report::Plain.message("why"), "why");
    assert_eq!(Report::Prefixed("what").message("why"), "what: why");
    assert_eq!(Report::Context("what").message("why"), "what");
}
