use keystore::cipher::{decrypt, derive_key, encrypt};
use keystore::error::Error;
use keystore::key::Key;
use keystore::keystore::{EncryptedStore, Keystore};
use sha2::{Digest, Sha256};

fn sample_seed() -> Vec<u8> {
    let mut seed = Vec::new();
    let mut i: u8 = 0;
    while i < 32 {
        seed.push(i.wrapping_mul(7).wrapping_add(3));
        i += 1;
    }
    seed
}

#[test]
fn encrypt_then_decrypt_returns_seed() {
    let seed = sample_seed();
    let key = derive_key(b"correct-horse");
    let sealed = encrypt(&key, &seed);
    let opened = decrypt(&key, &sealed).unwrap();
    assert_eq!(opened, seed);
}

#[test]
fn decrypt_with_wrong_key_fails_closed() {
    let seed = sample_seed();
    let key = derive_key(b"correct-horse");
    let sealed = encrypt(&key, &seed);
    let wrong = derive_key(b"battery-staple");
    assert!(matches!(decrypt(&wrong, &sealed), Err(Error::DecryptionFailed)));
}

#[test]
fn sealed_tag_is_the_real_digest_of_the_seed() {
    let seed = sample_seed();
    let key = derive_key(b"pw");
    let sealed = encrypt(&key, &seed);
    assert_eq!(sealed.tag, Sha256::digest(&seed).to_vec());
    // and the derived key is the real digest of the password
    assert_eq!(derive_key(b"pw"), Sha256::digest(b"pw").to_vec());
}

#[test]
fn ciphertext_is_seed_xored_with_key() {
    let seed = sample_seed();
    let key = derive_key(b"pw");
    let sealed = encrypt(&key, &seed);
    let mut expected = Vec::new();
    for i in 0..32 {
        expected.push(seed[i] ^ key[i]);
    }
    assert_eq!(sealed.ciphertext, expected);
    assert_ne!(sealed.ciphertext, seed);
}

#[test]
fn provision_bumps_generation_and_password_unlocks() {
    let mut ks = Keystore::open(EncryptedStore::empty());
    assert_eq!(ks.gen(), 0);
    ks.provision_device(b"correct-horse", 0).unwrap();
    assert_eq!(ks.gen(), 1);
    ks.lock();
    assert!(matches!(ks.unlock(b"wrong"), Err(Error::DecryptionFailed)));
    assert_eq!(ks.gen(), 1);
    ks.unlock(b"correct-horse").unwrap();
    assert!(ks.chain_signer().is_some());
}

#[test]
fn provision_twice_is_refused() {
    let mut ks = Keystore::open(EncryptedStore::empty());
    ks.provision_device(b"pw", 0).unwrap();
    assert!(matches!(ks.provision_device(b"pw", 1), Err(Error::HasDeviceKey)));
    assert_eq!(ks.gen(), 1);
}

#[test]
fn lock_removes_the_signer_until_unlock() {
    let mut ks = Keystore::open(EncryptedStore::empty());
    ks.provision_device(b"pw", 0).unwrap();
    assert!(ks.chain_signer().is_some());
    ks.lock();
    assert!(ks.chain_signer().is_none());
    ks.lock();
    assert!(ks.chain_signer().is_none());
    ks.unlock(b"pw").unwrap();
    assert!(ks.chain_signer().is_some());
}

#[test]
fn unlock_without_device_key_fails() {
    let mut ks = Keystore::open(EncryptedStore::empty());
    assert!(matches!(ks.unlock(b"pw"), Err(Error::NoDeviceKey)));
}

#[test]
fn stale_mask_never_mutates_the_store() {
    let mut ks = Keystore::open(EncryptedStore::empty());
    ks.provision_device(b"old-pw", 0).unwrap();
    let (mask, next_gen) = ks.change_password_mask(b"new-pw");
    assert_eq!(next_gen, 2);
    let before = ks.persisted();
    // targets a generation two ahead: rejected
    assert!(matches!(ks.apply_mask(&mask, next_gen + 1), Err(Error::StaleGeneration)));
    // targets the current generation: rejected
    assert!(matches!(ks.apply_mask(&mask, ks.gen()), Err(Error::StaleGeneration)));
    let after = ks.persisted();
    assert_eq!(after.generation, before.generation);
    assert_eq!(
        after.sealed.as_ref().unwrap().ciphertext,
        before.sealed.as_ref().unwrap().ciphertext
    );
    assert_eq!(after.sealed.as_ref().unwrap().tag, before.sealed.as_ref().unwrap().tag);
}

#[test]
fn apply_mask_without_device_key_fails() {
    let mut ks = Keystore::open(EncryptedStore::empty());
    let (mask, _) = {
        let mut other = Keystore::open(EncryptedStore::empty());
        other.provision_device(b"pw", 0).unwrap();
        other.change_password_mask(b"new")
    };
    assert!(matches!(ks.apply_mask(&mask, 1), Err(Error::NoDeviceKey)));
    assert_eq!(ks.gen(), 0);
}

#[test]
fn mask_transfers_password_change_to_a_copy() {
    // two logical copies of the same store, both at generation 1
    let mut a = Keystore::open(EncryptedStore::empty());
    a.provision_device(b"old-pw", 0).unwrap();
    let mut b = Keystore::open(a.persisted());
    assert_eq!(b.gen(), 1);
    // copy A, unlocked, computes the mask for the new password
    let (mask, next_gen) = a.change_password_mask(b"new-pw");
    assert_eq!(next_gen, 2);
    assert_eq!(a.gen(), 1, "computing a mask must not mutate the store");
    // copy B applies the mask and moves to generation 2
    b.apply_mask(&mask, next_gen).unwrap();
    assert_eq!(b.gen(), 2);
    // the old password no longer opens copy B, the new one does
    assert!(matches!(b.unlock(b"old-pw"), Err(Error::DecryptionFailed)));
    b.unlock(b"new-pw").unwrap();
    // and it is still the same device key
    assert_eq!(
        b.chain_signer().unwrap().public_key(),
        a.chain_signer().unwrap().public_key()
    );
}

#[test]
fn set_device_key_respects_force() {
    let mut ks = Keystore::open(EncryptedStore::empty());
    ks.provision_device(b"pw", 0).unwrap();
    let replacement = Key::from_entropy(&[9u8; 32]).unwrap();
    assert!(matches!(
        ks.set_device_key(&replacement, b"pw2", false),
        Err(Error::HasDeviceKey)
    ));
    assert_eq!(ks.gen(), 1);
    let account = ks.set_device_key(&replacement, b"pw2", true).unwrap();
    assert_eq!(ks.gen(), 2);
    assert_eq!(account.bytes, replacement.to_account_id().bytes);
    ks.lock();
    ks.unlock(b"pw2").unwrap();
    assert_eq!(
        ks.chain_signer().unwrap().seed().expose_secret(),
        &vec![9u8; 32]
    );
}

#[test]
fn generate_draws_distinct_full_seeds() {
    let k1 = Key::generate().unwrap();
    let k2 = Key::generate().unwrap();
    assert_eq!(k1.expose_secret().expose_secret().len(), 32);
    assert_ne!(
        k1.expose_secret().expose_secret(),
        k2.expose_secret().expose_secret()
    );
}
