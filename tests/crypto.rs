use crypto_wasm::{
    decode_key, decode_signature, ecdh, ecdh_keygen, ecdh_keys_from_seed, eddsa_keygen,
    eddsa_keys_from_seed, eddsa_sign_message, eddsa_verify_signature, greet, CryptoError,
};

const RFC8032_SECRET: &str = "9d61b19deffd5a60ba844af492ec2cc44449c5697b326919703bac031cae7f60";
const RFC8032_PUBLIC: &str = "d75a980182b10ab7d54bfed3c964073a0ee172f3daa62325af021a68f707511a";
const RFC8032_EMPTY_SIGNATURE: &str = "e5564300c360ac729086e2cc806e828a84877f1eb8e5d974d873e065224901555fb8821590a33bacc61e39701cf9b46bd25bf5f0595bbe24655141438e7a100b";

fn is_lower_hex(s: &str) -> bool {
    s.chars().all(|c| c.is_ascii_digit() || ('a'..='f').contains(&c))
}

fn flip_hex_bit(s: &str, index: usize) -> String {
    let mut bytes = hex::decode(s).unwrap();
    bytes[index] ^= 1;
    hex::encode(bytes)
}

#[test]
fn test_ecdh() {
    let public = ecdh().unwrap();
    assert_eq!(public.len(), 64);
    assert!(is_lower_hex(&public));
}

#[test]
fn test_greet() {
    let result = greet("World");
    println!("{:?}", result);
    assert_eq!(result, "Hello, World!");
}

#[test]
fn greet_empty_name() {
    assert_eq!(greet(""), "Hello, !");
}

#[test]
fn eddsa_sign_and_verify_round_trip() {
    let keys = eddsa_keygen().unwrap();
    let msg = "hello world";
    let signature = eddsa_sign_message(msg, &keys.secret_key).unwrap();
    assert_eq!(eddsa_verify_signature(msg, &signature, &keys.public_key), Ok(true));
}

#[test]
fn round_trip_on_several_messages() {
    let keys = eddsa_keygen().unwrap();
    for msg in ["", "a", "ünïcödé ✓", "a much longer message with spaces and 123 digits"] {
        let signature = eddsa_sign_message(msg, &keys.secret_key).unwrap();
        assert_eq!(eddsa_verify_signature(msg, &signature, &keys.public_key), Ok(true));
    }
}

#[test]
fn verify_with_other_key_is_false() {
    let keys = eddsa_keygen().unwrap();
    let other = eddsa_keygen().unwrap();
    let msg = "hello world";
    let signature = eddsa_sign_message(msg, &keys.secret_key).unwrap();
    assert_eq!(eddsa_verify_signature(msg, &signature, &keys.public_key), Ok(true));
    assert_eq!(eddsa_verify_signature(msg, &signature, &other.public_key), Ok(false));
}

#[test]
fn signing_is_deterministic() {
    let keys = eddsa_keygen().unwrap();
    let first = eddsa_sign_message("same message", &keys.secret_key).unwrap();
    let second = eddsa_sign_message("same message", &keys.secret_key).unwrap();
    assert_eq!(first, second);
}

#[test]
fn signing_ignores_hex_case_of_key() {
    let upper = RFC8032_SECRET.to_uppercase();
    assert_eq!(
        eddsa_sign_message("x", &upper).unwrap(),
        eddsa_sign_message("x", RFC8032_SECRET).unwrap()
    );
}

#[test]
fn tampered_message_is_false() {
    let keys = eddsa_keygen().unwrap();
    let signature = eddsa_sign_message("hello world", &keys.secret_key).unwrap();
    assert_eq!(eddsa_verify_signature("hello worle", &signature, &keys.public_key), Ok(false));
}

#[test]
fn tampered_signature_is_false() {
    let keys = eddsa_keygen().unwrap();
    let signature = eddsa_sign_message("hello world", &keys.secret_key).unwrap();
    for index in [0, 31, 32, 63] {
        let tampered = flip_hex_bit(&signature, index);
        assert_eq!(eddsa_verify_signature("hello world", &tampered, &keys.public_key), Ok(false));
    }
}

#[test]
fn tampered_public_key_never_accepts() {
    let keys = eddsa_keygen().unwrap();
    let signature = eddsa_sign_message("hello world", &keys.secret_key).unwrap();
    for index in [0, 15, 31] {
        let tampered = flip_hex_bit(&keys.public_key, index);
        let result = eddsa_verify_signature("hello world", &signature, &tampered);
        assert!(result == Ok(false) || result == Err(CryptoError::InvalidPublicKey));
    }
}

#[test]
fn key_lengths() {
    let signing = eddsa_keygen().unwrap();
    assert_eq!(signing.secret_key.len(), 64);
    assert_eq!(signing.public_key.len(), 64);
    assert!(is_lower_hex(&signing.secret_key) && is_lower_hex(&signing.public_key));
    let agreement = ecdh_keygen().unwrap();
    assert_eq!(agreement.secret_key.len(), 64);
    assert_eq!(agreement.public_key.len(), 64);
    assert!(is_lower_hex(&agreement.secret_key) && is_lower_hex(&agreement.public_key));
    let signature = eddsa_sign_message("m", &signing.secret_key).unwrap();
    assert_eq!(signature.len(), 128);
    assert!(is_lower_hex(&signature));
}

#[test]
fn generated_pairs_are_derived() {
    let signing = eddsa_keygen().unwrap();
    let seed = decode_key(&signing.secret_key).unwrap();
    assert_eq!(eddsa_keys_from_seed(&seed), signing);
    let agreement = ecdh_keygen().unwrap();
    let secret = decode_key(&agreement.secret_key).unwrap();
    assert_eq!(ecdh_keys_from_seed(&secret), agreement);
}

#[test]
fn fresh_keys_differ() {
    assert_ne!(eddsa_keygen().unwrap().secret_key, eddsa_keygen().unwrap().secret_key);
    assert_ne!(ecdh_keygen().unwrap().secret_key, ecdh_keygen().unwrap().secret_key);
}

#[test]
fn ed25519_known_vector() {
    let seed = decode_key(RFC8032_SECRET).unwrap();
    let keys = eddsa_keys_from_seed(&seed);
    assert_eq!(keys.secret_key, RFC8032_SECRET);
    assert_eq!(keys.public_key, RFC8032_PUBLIC);
    let signature = eddsa_sign_message("", RFC8032_SECRET).unwrap();
    assert_eq!(signature, RFC8032_EMPTY_SIGNATURE);
    assert_eq!(eddsa_verify_signature("", RFC8032_EMPTY_SIGNATURE, RFC8032_PUBLIC), Ok(true));
    assert_eq!(eddsa_verify_signature("a", RFC8032_EMPTY_SIGNATURE, RFC8032_PUBLIC), Ok(false));
}

#[test]
fn x25519_known_vector() {
    let secret = decode_key("77076d0a7318a57d3c16c17251b26645df4c2f87ebc0992ab177fba51db92c2a").unwrap();
    let keys = ecdh_keys_from_seed(&secret);
    assert_eq!(keys.secret_key, "77076d0a7318a57d3c16c17251b26645df4c2f87ebc0992ab177fba51db92c2a");
    assert_eq!(keys.public_key, "8520f0098930a754748b7ddcb43ef75a0dbf3a0d26381af4eba4a98eaa9b4e6a");
}

#[test]
fn sign_with_non_hex_key_is_encoding_error() {
    assert_eq!(eddsa_sign_message("m", "not-hex"), Err(CryptoError::InvalidEncoding));
}

#[test]
fn sign_with_odd_length_key_is_encoding_error() {
    assert_eq!(eddsa_sign_message("m", "abc"), Err(CryptoError::InvalidEncoding));
}

#[test]
fn sign_with_short_key_is_length_error() {
    assert_eq!(eddsa_sign_message("m", "abcd"), Err(CryptoError::InvalidKeyLength));
    let long = format!("{}00", RFC8032_SECRET);
    assert_eq!(eddsa_sign_message("m", &long), Err(CryptoError::InvalidKeyLength));
}

#[test]
fn verify_with_short_key_is_error() {
    let result = eddsa_verify_signature("m", RFC8032_EMPTY_SIGNATURE, "short");
    assert_eq!(result, Err(CryptoError::InvalidEncoding));
    let result = eddsa_verify_signature("m", RFC8032_EMPTY_SIGNATURE, "abcd");
    assert_eq!(result, Err(CryptoError::InvalidKeyLength));
}

#[test]
fn verify_with_bad_signature_text_is_error() {
    assert_eq!(
        eddsa_verify_signature("m", "zz", RFC8032_PUBLIC),
        Err(CryptoError::InvalidEncoding)
    );
    assert_eq!(
        eddsa_verify_signature("m", RFC8032_PUBLIC, RFC8032_PUBLIC),
        Err(CryptoError::InvalidSignatureLength)
    );
}

#[test]
fn signature_is_checked_before_key() {
    assert_eq!(eddsa_verify_signature("m", "zz", "short"), Err(CryptoError::InvalidEncoding));
}

#[test]
fn verify_with_non_point_key_is_error() {
    let mut rejected = 0;
    for y in 2u8..64 {
        let key = format!("{:02x}{}", y, "00".repeat(31));
        let result = eddsa_verify_signature("m", RFC8032_EMPTY_SIGNATURE, &key);
        assert!(result == Ok(false) || result == Err(CryptoError::InvalidPublicKey));
        if result == Err(CryptoError::InvalidPublicKey) {
            rejected += 1;
        }
    }
    assert!(rejected > 0);
}

#[test]
fn verify_with_small_order_key_is_error() {
    // The identity point and a point of order four.
    for key in [format!("01{}", "00".repeat(31)), "00".repeat(32)] {
        assert_eq!(
            eddsa_verify_signature("m", RFC8032_EMPTY_SIGNATURE, &key),
            Err(CryptoError::InvalidPublicKey)
        );
    }
}

#[test]
fn decode_accepts_upper_case_and_rejects_bad_text() {
    let lower = decode_key(RFC8032_SECRET).unwrap();
    let upper = decode_key(&RFC8032_SECRET.to_uppercase()).unwrap();
    assert_eq!(lower, upper);
    assert_eq!(lower[0], 0x9d);
    assert_eq!(lower[31], 0x60);
    assert_eq!(decode_key("g0"), Err(CryptoError::InvalidEncoding));
    assert_eq!(decode_key(""), Err(CryptoError::InvalidKeyLength));
    let sig = decode_signature(RFC8032_EMPTY_SIGNATURE).unwrap();
    assert_eq!(sig[0], 0xe5);
    assert_eq!(sig[63], 0x0b);
    assert_eq!(decode_signature(RFC8032_SECRET), Err(CryptoError::InvalidSignatureLength));
}
