use pvss::eddsa::{generate_keypair, generate_production_keypair, Digest, PublicKey, SecretKey,
    Signature};
use pvss::errors::CryptoError;

#[test]
fn test_digest_to_vec_and_size() {
    let digest = Digest([7u8; 32]);
    assert_eq!(digest.size(), 32);
    assert_eq!(digest.to_vec(), vec![7u8; 32]);
}

#[test]
fn test_public_key_base64_exact() {
    // 32 zero bytes encode to 43 'A's and one pad character
    let pk = PublicKey([0u8; 32]);
    let expected = format!("{}=", "A".repeat(43));
    assert_eq!(pk.to_base64(), expected);
}

#[test]
fn test_public_key_base64_roundtrip() {
    let (pk, _sk) = generate_keypair();
    let text = pk.to_base64();
    let back = PublicKey::from_base64(&text).unwrap();
    assert!(back == pk);
}

#[test]
fn test_secret_key_base64_roundtrip() {
    let (_pk, sk) = generate_production_keypair();
    let text = sk.to_base64();
    let back = SecretKey::from_base64(&text).unwrap();
    assert_eq!(back.to_base64(), text);
}

#[test]
fn test_from_base64_rejects_short_input() {
    // four characters decode to three bytes, far short of a key
    let r = PublicKey::from_base64("AAAA");
    assert!(matches!(r, Err(CryptoError::DecodeError)));
}

#[test]
fn test_from_base64_rejects_invalid_text() {
    let r = SecretKey::from_base64("!!!not base64!!!");
    assert!(matches!(r, Err(CryptoError::DecodeError)));
}

#[test]
fn test_sign_and_verify() {
    let (pk, sk) = generate_keypair();
    let digest = Digest([42u8; 32]);

    let sig = Signature::new(&digest, &sk).unwrap();
    sig.verify(&digest, &pk).unwrap();
}

#[test]
fn test_signing_is_deterministic() {
    let (_pk, sk) = generate_keypair();
    let digest = Digest([42u8; 32]);

    let sig1 = Signature::new(&digest, &sk).unwrap();
    let sig2 = Signature::new(&digest, &sk).unwrap();
    assert!(sig1 == sig2);
}

#[test]
fn test_verify_rejects_wrong_digest() {
    let (pk, sk) = generate_keypair();
    let digest = Digest([42u8; 32]);
    let other = Digest([43u8; 32]);

    let sig = Signature::new(&digest, &sk).unwrap();
    let r = sig.verify(&other, &pk);
    assert!(matches!(r, Err(CryptoError::InvalidSignature)));
}

#[test]
fn test_verify_rejects_wrong_key() {
    let (_pk, sk) = generate_keypair();
    let (pk2, _sk2) = generate_keypair();
    let digest = Digest([42u8; 32]);

    let sig = Signature::new(&digest, &sk).unwrap();
    let r = sig.verify(&digest, &pk2);
    assert!(matches!(r, Err(CryptoError::InvalidSignature)));
}

#[test]
fn test_signature_flatten_length() {
    let (_pk, sk) = generate_keypair();
    let digest = Digest([1u8; 32]);
    let sig = Signature::new(&digest, &sk).unwrap();
    let flat = sig.flatten();
    assert_eq!(flat.len(), 64);
    assert_eq!(sig.to_base64(), base64::encode(&flat[..]));
}

#[test]
fn test_verify_batch_accepts_valid_votes() {
    let digest = Digest([9u8; 32]);
    let (pk1, sk1) = generate_keypair();
    let (pk2, sk2) = generate_keypair();

    let votes = vec![
        (pk1, Signature::new(&digest, &sk1).unwrap()),
        (pk2, Signature::new(&digest, &sk2).unwrap()),
    ];
    Signature::verify_batch(&digest, &votes).unwrap();
}

#[test]
fn test_verify_batch_rejects_bad_vote() {
    let digest = Digest([9u8; 32]);
    let other = Digest([10u8; 32]);
    let (pk1, sk1) = generate_keypair();
    let (pk2, sk2) = generate_keypair();

    let votes = vec![
        (pk1, Signature::new(&digest, &sk1).unwrap()),
        (pk2, Signature::new(&other, &sk2).unwrap()),
    ];
    let r = Signature::verify_batch(&digest, &votes);
    assert!(matches!(r, Err(CryptoError::InvalidSignature)));
}
