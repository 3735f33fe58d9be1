use rebe_core::encoding::{hex_decode, hex_encode};

#[test]
fn hex_text_is_two_lower_case_digits_per_byte() {
    assert_eq!(hex_encode(&[]), "");
    assert_eq!(hex_encode(&[1, 2, 3, 15, 16]), "0102030f10");
    assert_eq!(hex_encode(&[0x00, 0x7f, 0x80, 0xab, 0xff]), "007f80abff");
    let all: Vec<u8> = (0..=255).collect();
    assert_eq!(hex_encode(&all), hex::encode(&all));
}

#[test]
fn hex_text_is_read_in_either_case() {
    assert_eq!(hex_decode(""), Some(vec![]));
    assert_eq!(hex_decode("0102030f10"), Some(vec![1, 2, 3, 15, 16]));
    assert_eq!(hex_decode("f9b4ca"), Some(vec![0xf9, 0xb4, 0xca]));
    assert_eq!(hex_decode("F9B4CA"), Some(vec![0xf9, 0xb4, 0xca]));
    assert_eq!(hex_decode("f9B4Ca"), Some(vec![0xf9, 0xb4, 0xca]));
    let all: Vec<u8> = (0..=255).collect();
    assert_eq!(hex_decode(&hex_encode(&all)), Some(all.clone()));
    assert_eq!(hex_decode(&hex::encode_upper(&all)), Some(all));
}

#[test]
fn text_that_is_not_hex_is_refused() {
    for text in ["1", "123", "foo", "0g", "g0", "12 4", " 12", "0x12", "예산", "가0", "0가", "١٢", "-1"] {
        assert_eq!(hex_decode(text), None, "{:?}", text);
        assert!(hex::decode(text).is_err(), "{:?}", text);
    }
}
