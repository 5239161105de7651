use keystore::error::Error;
use keystore::key::{Key, SecretSeed};

// The 24-word phrase that encodes an all-zero 32-byte entropy block.
const ZERO_PHRASE: &str = "abandon abandon abandon abandon abandon abandon abandon abandon abandon abandon abandon abandon abandon abandon abandon abandon abandon abandon abandon abandon abandon abandon abandon art";

// A 12-word phrase: valid, but only 16 bytes of entropy.
const SHORT_PHRASE: &str =
    "abandon abandon abandon abandon abandon abandon abandon abandon abandon abandon abandon about";

#[test]
fn mnemonic_with_full_entropy_derives_the_seed() {
    let key = Key::from_mnemonic(ZERO_PHRASE).unwrap();
    assert_eq!(key.expose_secret().expose_secret(), &vec![0u8; 32]);
}

#[test]
fn mnemonic_with_short_entropy_is_refused() {
    assert!(matches!(
        Key::from_mnemonic(SHORT_PHRASE),
        Err(Error::NotEnoughEntropy)
    ));
}

#[test]
fn gibberish_mnemonic_is_refused() {
    assert!(matches!(
        Key::from_mnemonic("not a mnemonic at all"),
        Err(Error::InvalidMnemonic)
    ));
}

#[test]
fn suri_hex_forms_decode_to_the_seed() {
    let spelled = "000102030405060708090a0b0c0d0e0f101112131415161718191a1b1c1d1e1F";
    let mut expected = Vec::new();
    for i in 0u8..32 {
        expected.push(i);
    }
    let plain = Key::from_suri(spelled).unwrap();
    assert_eq!(plain.expose_secret().expose_secret(), &expected);
    let prefixed = Key::from_suri(&format!("0x{}", spelled)).unwrap();
    assert_eq!(prefixed.expose_secret().expose_secret(), &expected);
}

#[test]
fn malformed_suris_are_refused() {
    assert!(matches!(Key::from_suri("0x1234"), Err(Error::InvalidSuri)));
    assert!(matches!(Key::from_suri(""), Err(Error::InvalidSuri)));
    let with_junction = format!("0x{}//hard", "11".repeat(32));
    assert!(matches!(Key::from_suri(&with_junction), Err(Error::InvalidSuri)));
    let bad_digit = format!("0x{}zz", "11".repeat(31));
    assert!(matches!(Key::from_suri(&bad_digit), Err(Error::InvalidSuri)));
}

#[test]
fn entropy_must_be_exactly_a_seed() {
    let key = Key::from_entropy(&[5u8; 32]).unwrap();
    assert_eq!(key.expose_secret().expose_secret(), &vec![5u8; 32]);
    assert!(matches!(Key::from_entropy(&[5u8; 16]), Err(Error::NotEnoughEntropy)));
    assert!(matches!(Key::from_entropy(&[5u8; 33]), Err(Error::NotEnoughEntropy)));
}

#[test]
fn signatures_verify_under_the_derived_public_key() {
    let key = Key::from_entropy(&[7u8; 32]).unwrap();
    let signer = key.to_signer();
    let message = b"transaction payload";
    let signature = signer.sign(message);
    assert_eq!(signature.len(), 64);
    let public: [u8; 32] = signer.public_key().as_slice().try_into().unwrap();
    let vk = ed25519_dalek::VerifyingKey::from_bytes(&public).unwrap();
    let sig = ed25519_dalek::Signature::from_bytes(signature.as_slice().try_into().unwrap());
    assert!(vk.verify_strict(message, &sig).is_ok());
    assert!(vk.verify_strict(b"another payload", &sig).is_err());
}

#[test]
fn wipe_zeroes_the_seed_in_place() {
    let mut seed = SecretSeed::new(vec![7u8; 32]);
    seed.wipe();
    assert_eq!(seed.expose_secret(), &vec![0u8; 32]);
}

#[test]
fn account_id_is_the_public_counterpart() {
    let key = Key::from_entropy(&[7u8; 32]).unwrap();
    let signer = key.to_signer();
    let account = key.to_account_id();
    assert_eq!(&account.bytes, signer.public_key());
    assert_eq!(account.bytes, signer.account_id().bytes);
    assert_ne!(&account.bytes, key.expose_secret().expose_secret());
    // pure and repeatable
    assert_eq!(account.bytes, key.to_account_id().bytes);
}
