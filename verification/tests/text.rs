use jnat::env::decode_string;
use jnat::BridgeError;

#[test]
fn plain_text_decodes_to_itself() {
    assert_eq!(decode_string(b" - Hello, world!").unwrap(), " - Hello, world!");
    assert_eq!(decode_string(b"").unwrap(), "");
    assert_eq!(decode_string("a\u{E9}\u{65E5}".as_bytes()).unwrap(), "a\u{E9}\u{65E5}");
}

#[test]
fn surrogate_pair_decodes_to_one_char() {
    let bytes = [0xED, 0xA0, 0x81, 0xED, 0xB0, 0x81];
    assert_eq!(decode_string(&bytes).unwrap(), "\u{10401}");
    let mixed = [0x4D, 0xE6, 0x97, 0xA5, 0xED, 0xA0, 0x81, 0xED, 0xB0, 0x81, 0x7F];
    assert_eq!(decode_string(&mixed).unwrap(), "M\u{65E5}\u{10401}\u{7F}");
}

#[test]
fn two_byte_zero_decodes_to_zero() {
    let bytes = [0xC0, 0x80, 0xC0, 0x80];
    assert_eq!(decode_string(&bytes).unwrap(), "\0\0");
    let inside = [0x61, 0xC0, 0x80, 0x62];
    assert_eq!(decode_string(&inside).unwrap(), "a\0b");
}

#[test]
fn malformed_bytes_are_an_error() {
    assert!(matches!(decode_string(&[0xFF]), Err(BridgeError::Decoding)));
    assert!(matches!(decode_string(&[0x61, 0x80]), Err(BridgeError::Decoding)));
    assert!(matches!(decode_string(&[0xC0]), Err(BridgeError::Decoding)));
    assert!(matches!(decode_string(&[0xC0, 0x81]), Err(BridgeError::Decoding)));
    assert!(matches!(decode_string(&[0xED, 0xA0, 0x81]), Err(BridgeError::Decoding)));
    assert!(matches!(
        decode_string(&[0xED, 0xA0, 0x81, 0xED, 0xA0, 0x81]),
        Err(BridgeError::Decoding)
    ));
    assert!(matches!(decode_string(&[0xE6, 0x97]), Err(BridgeError::Decoding)));
}

#[test]
fn no_placeholder_stands_in() {
    match decode_string(&[0x61, 0xFF, 0x62]) {
        Ok(text) => panic!("decoded to {:?}", text),
        Err(error) => assert!(matches!(error, BridgeError::Decoding)),
    }
}
