use solana_gateway::generate_keypair;
use solana_gateway::sign_message;
use solana_gateway::verify_message;

#[test]
fn generate_keypair_halves_are_consistent() {
    let kp = generate_keypair();
    let secret = bs58::decode(&kp.secret).into_vec().unwrap();
    let public = bs58::decode(&kp.pubkey).into_vec().unwrap();
    assert_eq!(secret.len(), 64);
    assert_eq!(public.len(), 32);
    assert_eq!(&secret[32..], public.as_slice());
}

#[test]
fn generate_keypair_twice_differs() {
    let a = generate_keypair();
    let b = generate_keypair();
    assert_ne!(a.pubkey, b.pubkey);
    assert_ne!(a.secret, b.secret);
}

#[test]
fn sign_message_is_deterministic() {
    let kp = generate_keypair();
    let first = sign_message("hello world", &kp.secret).unwrap();
    let second = sign_message("hello world", &kp.secret).unwrap();
    assert_eq!(first.signature, second.signature);
    assert_eq!(first.public_key, kp.pubkey);
    assert_eq!(first.message, "hello world");
    let sig = base64::Engine::decode(
        &base64::engine::general_purpose::STANDARD,
        &first.signature,
    )
    .unwrap();
    assert_eq!(sig.len(), 64);
}

#[test]
fn sign_message_rejects_bad_secrets() {
    assert_eq!(
        sign_message("", "whatever").unwrap_err(),
        "Missing required fields"
    );
    assert_eq!(
        sign_message("hi", "").unwrap_err(),
        "Missing required fields"
    );
    assert_eq!(
        sign_message("hi", "0bad!base58").unwrap_err(),
        "Invalid base58 secret key format"
    );
    let short = bs58::encode(&[9u8; 32]).into_string();
    assert_eq!(
        sign_message("hi", &short).unwrap_err(),
        "Secret key must be 64 bytes"
    );
}

#[test]
fn sign_then_verify_round_trips() {
    let kp = generate_keypair();
    let signed = sign_message("attack at dawn", &kp.secret).unwrap();
    let verified = verify_message("attack at dawn", &signed.signature, &signed.public_key)
        .unwrap();
    assert!(verified.valid);
    assert_eq!(verified.message, "attack at dawn");
    assert_eq!(verified.pubkey, signed.public_key);
}

#[test]
fn tampered_message_is_invalid_not_error() {
    let kp = generate_keypair();
    let signed = sign_message("attack at dawn", &kp.secret).unwrap();
    let verified = verify_message("attack at dusk", &signed.signature, &signed.public_key)
        .unwrap();
    assert!(!verified.valid);
}

#[test]
fn tampered_signature_is_invalid_not_error() {
    let kp = generate_keypair();
    let signed = sign_message("attack at dawn", &kp.secret).unwrap();
    let mut sig = base64::Engine::decode(
        &base64::engine::general_purpose::STANDARD,
        &signed.signature,
    )
    .unwrap();
    sig[10] ^= 0x01;
    let tampered = base64::Engine::encode(&base64::engine::general_purpose::STANDARD, &sig);
    let verified = verify_message("attack at dawn", &tampered, &signed.public_key).unwrap();
    assert!(!verified.valid);
}

#[test]
fn wrong_key_is_invalid_not_error() {
    let kp = generate_keypair();
    let other = generate_keypair();
    let signed = sign_message("attack at dawn", &kp.secret).unwrap();
    let verified = verify_message("attack at dawn", &signed.signature, &other.pubkey).unwrap();
    assert!(!verified.valid);
}

#[test]
fn verify_rejects_malformed_public_key() {
    assert_eq!(
        verify_message("hi", "c2ln", "0!not-base58").unwrap_err(),
        "Invalid public key format"
    );
    let ten_bytes = bs58::encode(&[1u8; 10]).into_string();
    assert_eq!(
        verify_message("hi", "c2ln", &ten_bytes).unwrap_err(),
        "Invalid public key: signature error: PublicKey must be 32 bytes in length"
    );
}

#[test]
fn verify_reports_non_point_public_keys() {
    // roughly half of all 32-byte strings are no curve point; find one
    let mut saw_decompress_error = false;
    for first in 0u8..=255u8 {
        let mut bytes = [1u8; 32];
        bytes[0] = first;
        let candidate = bs58::encode(&bytes).into_string();
        match verify_message("hi", "c2ln", &candidate) {
            Err(e) if e == "Invalid public key: signature error: Cannot decompress Edwards point" => {
                saw_decompress_error = true;
                break;
            }
            _ => {}
        }
    }
    assert!(saw_decompress_error);
}

#[test]
fn verify_rejects_malformed_signatures() {
    let kp = generate_keypair();
    assert_eq!(
        verify_message("hi", "!!!not-base64!!!", &kp.pubkey).unwrap_err(),
        "Invalid signature format"
    );
    // decodes, but not to 64 bytes
    let short = base64::Engine::encode(&base64::engine::general_purpose::STANDARD, [7u8; 10]);
    assert_eq!(
        verify_message("hi", &short, &kp.pubkey).unwrap_err(),
        "Invalid signature: signature error"
    );
    // 64 bytes, but the scalar half is not reduced
    let unreduced = base64::Engine::encode(
        &base64::engine::general_purpose::STANDARD,
        [0xFFu8; 64],
    );
    assert_eq!(
        verify_message("hi", &unreduced, &kp.pubkey).unwrap_err(),
        "Invalid signature: signature error"
    );
}

#[test]
fn verify_requires_all_fields() {
    assert_eq!(
        verify_message("", "sig", "key").unwrap_err(),
        "Missing required fields"
    );
    assert_eq!(
        verify_message("hi", "", "key").unwrap_err(),
        "Missing required fields"
    );
    assert_eq!(
        verify_message("hi", "sig", "").unwrap_err(),
        "Missing required fields"
    );
}
