use signing_provider::DecodingError;
use signing_provider::Ed25519Provider;
use signing_provider::PrivateKey;
use signing_provider::Signature;

fn counting_bytes(len: usize) -> Vec<u8> {
    (0..len).map(|i| (i % 251) as u8).collect()
}

#[test]
fn signature_survives_the_codec() {
    let provider = Ed25519Provider::new(PrivateKey::from_bytes([7; 32]));
    let signature = provider.sign(b"codec");
    let encoded = Ed25519Provider::encode_signature(&signature);
    assert_eq!(encoded.len(), 64);
    assert_eq!(Ed25519Provider::decode_signature(&encoded), Ok(signature));
}

#[test]
fn any_64_bytes_survive_the_codec() {
    let bytes = counting_bytes(64);
    let decoded = Ed25519Provider::decode_signature(&bytes).expect("64 bytes");
    assert_eq!(decoded.to_bytes().to_vec(), bytes);
    assert_eq!(Ed25519Provider::encode_signature(&decoded), bytes);

    let zeros = Ed25519Provider::decode_signature(&[0u8; 64]).expect("64 bytes");
    assert_eq!(zeros, Signature::from_bytes([0; 64]));
    let ones = Ed25519Provider::decode_signature(&[0xffu8; 64]).expect("64 bytes");
    assert_eq!(ones, Signature::from_bytes([0xff; 64]));
}

#[test]
fn encoding_writes_the_bytes_in_order() {
    let mut bytes = [0u8; 64];
    for (i, byte) in bytes.iter_mut().enumerate() {
        *byte = i as u8;
    }
    let encoded = Ed25519Provider::encode_signature(&Signature::from_bytes(bytes));
    assert_eq!(encoded, counting_bytes(64));
}

#[test]
fn decoding_rejects_an_empty_input() {
    assert_eq!(Ed25519Provider::decode_signature(&[]), Err(DecodingError::InvalidLength));
}

#[test]
fn decoding_rejects_63_bytes() {
    assert_eq!(
        Ed25519Provider::decode_signature(&counting_bytes(63)),
        Err(DecodingError::InvalidLength)
    );
}

#[test]
fn decoding_rejects_65_bytes() {
    assert_eq!(
        Ed25519Provider::decode_signature(&counting_bytes(65)),
        Err(DecodingError::InvalidLength)
    );
}

#[test]
fn decoding_rejects_128_bytes() {
    assert_eq!(
        Ed25519Provider::decode_signature(&counting_bytes(128)),
        Err(DecodingError::InvalidLength)
    );
}

#[test]
fn decoding_rejects_every_other_length_up_to_200() {
    for len in 0..200usize {
        let decoded = Ed25519Provider::decode_signature(&counting_bytes(len));
        assert_eq!(decoded.is_ok(), len == 64, "length {}", len);
    }
}

#[test]
fn decoding_error_says_what_is_wrong() {
    assert_eq!(DecodingError::InvalidLength.message(), "Invalid signature length");
}

#[test]
fn signature_keeps_its_bytes() {
    let bytes: [u8; 64] = core::array::from_fn(|i| (255 - i) as u8);
    assert_eq!(Signature::from_bytes(bytes).to_bytes(), bytes);
    assert_ne!(Signature::from_bytes(bytes), Signature::from_bytes([0; 64]));
}
