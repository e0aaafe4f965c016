use precompile::{keccak_256, secp256k1_ecdsa_recover, sha2_256, EcdsaVerifyError};

fn hex32(s: &str) -> [u8; 32] {
    let mut out = [0u8; 32];
    for i in 0..32 {
        out[i] = u8::from_str_radix(&s[2 * i..2 * i + 2], 16).unwrap();
    }
    out
}

fn signed(secret: [u8; 32], msg: &[u8; 32]) -> ([u8; 65], [u8; 64]) {
    let key = libsecp256k1::SecretKey::parse(&secret).unwrap();
    let (signature, recovery_id) = libsecp256k1::sign(&libsecp256k1::Message::parse(msg), &key);
    let mut sig = [0u8; 65];
    sig[0..64].copy_from_slice(&signature.serialize());
    sig[64] = recovery_id.serialize();
    let mut public = [0u8; 64];
    public.copy_from_slice(&libsecp256k1::PublicKey::from_secret_key(&key).serialize()[1..65]);
    (sig, public)
}

#[test]
fn sha256_of_empty_input() {
    assert_eq!(
        sha2_256(&[]),
        hex32("e3b0c44298fc1c149afbf4c8996fb92427ae41e4649b934ca495991b7852b855")
    );
}

#[test]
fn sha256_of_abc() {
    assert_eq!(
        sha2_256(b"abc"),
        hex32("ba7816bf8f01cfea414140de5dae2223b00361a396177a9cb410ff61f20015ad")
    );
}

#[test]
fn keccak256_of_empty_input() {
    assert_eq!(
        keccak_256(&[]),
        hex32("c5d2460186f7233c927e7db2dcc703c0e500b653ca82273b7bfad8045d85a470")
    );
}

#[test]
fn keccak256_of_abc() {
    assert_eq!(
        keccak_256(b"abc"),
        hex32("4e03657aea45a94fc7d47ba826c8d667c0d1e6e33a64a036ec44f58fa12d6c45")
    );
}

#[test]
fn hashing_twice_gives_the_same_digest() {
    let data = b"the same bytes, hashed twice";
    assert_eq!(keccak_256(data), keccak_256(data));
    assert_eq!(sha2_256(data), sha2_256(data));
    assert_ne!(keccak_256(data), sha2_256(data));
}

#[test]
fn recover_returns_signer_key() {
    let msg = keccak_256(b"hello precompile");
    let (sig, public) = signed([0x11u8; 32], &msg);
    assert_eq!(secp256k1_ecdsa_recover(&sig, &msg), Ok(public));
}

#[test]
fn recover_twice_gives_the_same_key() {
    let msg = sha2_256(b"message");
    let (sig, _) = signed([0x42u8; 32], &msg);
    assert_eq!(secp256k1_ecdsa_recover(&sig, &msg), secp256k1_ecdsa_recover(&sig, &msg));
}

#[test]
fn recover_accepts_ethereum_recovery_id() {
    let msg = keccak_256(b"ethereum encoding");
    let (sig, public) = signed([0x07u8; 32], &msg);
    let mut shifted = sig;
    shifted[64] = sig[64] + 27;
    assert_eq!(secp256k1_ecdsa_recover(&shifted, &msg), Ok(public));
    assert_eq!(secp256k1_ecdsa_recover(&shifted, &msg), secp256k1_ecdsa_recover(&sig, &msg));
}

#[test]
fn recover_refuses_other_recovery_ids() {
    let msg = keccak_256(b"bad v");
    let (sig, _) = signed([0x23u8; 32], &msg);
    for v in [2u8, 3, 4, 26, 29, 30, 255] {
        let mut bad = sig;
        bad[64] = v;
        assert_eq!(secp256k1_ecdsa_recover(&bad, &msg), Err(EcdsaVerifyError::BadV));
    }
}

#[test]
fn recover_with_flipped_s_bit_does_not_yield_signer() {
    let msg = keccak_256(b"flip");
    let (sig, public) = signed([0x55u8; 32], &msg);
    let mut flipped = sig;
    flipped[40] ^= 0x01;
    match secp256k1_ecdsa_recover(&flipped, &msg) {
        Ok(key) => assert_ne!(key, public),
        Err(e) => assert!(e == EcdsaVerifyError::BadRS || e == EcdsaVerifyError::BadSignature),
    }
}

#[test]
fn recover_with_zero_signature_fails() {
    let msg = [1u8; 32];
    let sig = [0u8; 65];
    assert_eq!(secp256k1_ecdsa_recover(&sig, &msg), Err(EcdsaVerifyError::BadSignature));
}
