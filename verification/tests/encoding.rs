use brawler_profiles::encoding::{decode, encode, encode_then_decode};

#[test]
fn encode_produces_standard_base64() {
    assert_eq!(encode(&vec![1, 2, 3]), "AQID");
    assert_eq!(encode(&vec![104, 101, 108, 108, 111]), "aGVsbG8=");
    assert_eq!(encode(&vec![255]), "/w==");
}

#[test]
fn encode_of_empty_is_empty() {
    assert_eq!(encode(&Vec::new()), "");
}

#[test]
fn decode_reverses_encode() {
    assert_eq!(decode(&"AQID".to_string()), Ok(vec![1, 2, 3]));
    assert_eq!(decode(&"aGVsbG8=".to_string()), Ok(vec![104, 101, 108, 108, 111]));
    assert_eq!(decode(&"".to_string()), Ok(Vec::new()));
}

#[test]
fn decode_rejects_text_that_is_no_encoding() {
    assert!(decode(&"not base64!!".to_string()).is_err());
}

#[test]
fn round_trip_holds_on_sample_sequences() {
    let samples: Vec<Vec<u8>> = vec![
        Vec::new(),
        vec![0],
        vec![1, 2, 3],
        vec![255, 254, 253, 252],
        (0u16..=255).map(|b| b as u8).collect(),
    ];
    for bytes in samples {
        assert_eq!(encode_then_decode(&bytes), Ok(bytes));
    }
}
