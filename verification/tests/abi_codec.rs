use normal_oracle::abi::{abi_decode_string, abi_encode};

fn word(x: u64) -> Vec<u8> {
    let mut w = vec![0u8; 24];
    w.extend_from_slice(&x.to_be_bytes());
    w
}

#[test]
fn encoding_has_offset_length_and_padding() {
    let encoded = abi_encode(&b"hello".to_vec());
    let mut expected = word(32);
    expected.extend(word(5));
    expected.extend_from_slice(b"hello");
    expected.extend(vec![0u8; 27]);
    assert_eq!(encoded, expected);
    assert_eq!(encoded.len(), 96);
}

#[test]
fn empty_and_word_sized_messages() {
    let empty = abi_encode(&Vec::new());
    assert_eq!(empty.len(), 64);
    assert_eq!(abi_decode_string(&empty), Some(Vec::new()));
    let full = vec![7u8; 32];
    let encoded = abi_encode(&full);
    assert_eq!(encoded.len(), 96);
    assert_eq!(abi_decode_string(&encoded), Some(full));
}

#[test]
fn decoding_gives_back_the_message() {
    let message = b"the quick brown fox jumps over the lazy dog".to_vec();
    assert_eq!(abi_decode_string(&abi_encode(&message)), Some(message));
}

#[test]
fn malformed_payloads_are_refused() {
    let good = abi_encode(&b"hi".to_vec());
    assert_eq!(abi_decode_string(&good[..63].to_vec()), None);
    let mut bad_offset = good.clone();
    bad_offset[31] = 64;
    assert_eq!(abi_decode_string(&bad_offset), None);
    let mut bad_length = good.clone();
    bad_length[63] = 40;
    assert_eq!(abi_decode_string(&bad_length), None);
    // a length that still fits the padding decodes to a longer message
    let mut longer = good.clone();
    longer[63] = 3;
    assert_eq!(abi_decode_string(&longer), Some(vec![104, 105, 0]));
    let mut bad_padding = good.clone();
    bad_padding[95] = 1;
    assert_eq!(abi_decode_string(&bad_padding), None);
    let mut too_long = good.clone();
    too_long.extend(vec![0u8; 32]);
    assert_eq!(abi_decode_string(&too_long), None);
    let mut huge_length = good.clone();
    huge_length[40] = 1;
    assert_eq!(abi_decode_string(&huge_length), None);
}
