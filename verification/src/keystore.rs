//! The keystore: a persisted encrypted store (ciphertext plus generation
//! counter) together with an in-memory signer that exists exactly while the
//! store is unlocked.
//!
//! The generation counter is the fencing token of the password epoch: it
//! grows by exactly one on every successful provisioning or mask
//! application, and a mask that does not target the immediately following
//! generation is rejected without touching the persisted state.

use vstd::prelude::*;

use crate::cipher::Mask;
use crate::cipher::SealedSeed;
use crate::cipher::SealedView;
use crate::cipher::decrypt;
use crate::cipher::derive_key;
use crate::cipher::encrypt;
use crate::cipher::key_of;
use crate::cipher::lemma_encrypt_then_decrypt;
use crate::cipher::seal_ciphertext;
use crate::cipher::seal_tag;
use crate::cipher::unseal;
use crate::cipher::xor_bytes;
use crate::cipher::xor_bytes_exec;
use crate::error::Error;
use crate::key::AccountId;
use crate::key::Key;
use crate::key::SecretSeed;
use crate::key::Signer;
use crate::key::SignerView;
use crate::key::public_key_of;

verus! {

/// The persisted container: an optional sealed seed and the generation
/// counter. Absence of the sealed seed means no device key is provisioned.
pub struct EncryptedStore {
    pub sealed: Option<SealedSeed>,
    pub generation: u16,
}

/// The mathematical content of an `EncryptedStore`.
pub ghost struct StoreView {
    pub sealed: Option<SealedView>,
    pub generation: u16,
}

impl View for EncryptedStore {
    type V = StoreView;

    open spec fn view(&self) -> StoreView {
        StoreView {
            sealed: match self.sealed {
                Some(s) => Some(s@),
                None => None,
            },
            generation: self.generation,
        }
    }
}

impl EncryptedStore {
    pub open spec fn wf(self) -> bool {
        self.sealed matches Some(s) ==> s.wf()
    }

    /// An unprovisioned store at generation zero, the state a fresh storage
    /// path denotes.
    pub fn empty() -> (r: EncryptedStore)
        ensures
            r@.sealed is None,
            r@.generation == 0,
            r.wf(),
    {
        EncryptedStore { sealed: None, generation: 0 }
    }

    /// A field-for-field copy, for replicating the persisted state to a
    /// sibling device.
    pub fn duplicate(&self) -> (r: EncryptedStore)
        ensures
            r@ == self@,
    {
        EncryptedStore {
            sealed: match &self.sealed {
                Some(s) => Some(s.duplicate()),
                None => None,
            },
            generation: self.generation,
        }
    }
}

/// The mathematical content of a `Keystore`.
pub ghost struct KeystoreView {
    pub store: StoreView,
    pub signer: Option<SignerView>,
}

/// The keystore: persisted store plus the cached signer of the current
/// unlock. The signer is present exactly while the store is unlocked.
pub struct Keystore {
    store: EncryptedStore,
    signer: Option<Signer>,
}

impl View for Keystore {
    type V = KeystoreView;

    closed spec fn view(&self) -> KeystoreView {
        KeystoreView {
            store: self.store@,
            signer: match self.signer {
                Some(s) => Some(s@),
                None => None,
            },
        }
    }
}

/// How a successful provisioning (or explicit key installation) rewrites
/// the keystore: the seed is sealed under the password's key, the
/// generation grows by exactly one, and the new signer is active.
pub open spec fn installed(
    pre: KeystoreView,
    post: KeystoreView,
    password: Seq<u8>,
    seed: Seq<u8>,
) -> bool {
    &&& post.store.sealed == Some(
        SealedView {
            ciphertext: seal_ciphertext(key_of(password), seed),
            tag: seal_tag(seed),
        },
    )
    &&& post.store.generation == pre.store.generation + 1
    &&& post.signer == Some(SignerView { seed, public_key: public_key_of(seed) })
}

impl Keystore {
    /// The internal consistency of a keystore: sealed material is 32 bytes
    /// each way, and a cached signer always authenticates against the
    /// persisted tag.
    pub open spec fn wf(self) -> bool {
        &&& (self@.store.sealed matches Some(sl) ==> sl.ciphertext.len() == 32 && sl.tag.len()
            == 32)
        &&& (self@.signer matches Some(sg) ==> {
            &&& sg.seed.len() == 32
            &&& sg.public_key == public_key_of(sg.seed)
            &&& self@.store.sealed matches Some(sl) && sl.tag == seal_tag(sg.seed)
        })
    }

    /// Whether a signer is available, i.e. the store is unlocked.
    pub open spec fn is_unlocked(self) -> bool {
        self@.signer is Some
    }

    /// Opens a keystore over loaded persisted state. Nothing is decrypted;
    /// the store starts locked.
    pub fn open(store: EncryptedStore) -> (r: Keystore)
        requires
            store.wf(),
        ensures
            r.wf(),
            r@.store == store@,
            r@.signer is None,
    {
        Keystore { store, signer: None }
    }

    /// The current generation counter: a pure read.
    pub fn gen(&self) -> (r: u16)
        ensures
            r == self@.store.generation,
    {
        self.store.generation
    }

    /// A snapshot of the persisted state, as it would be written to disk.
    pub fn persisted(&self) -> (r: EncryptedStore)
        ensures
            r@ == self@.store,
    {
        self.store.duplicate()
    }

    /// The chain signer, present exactly while the store is unlocked.
    pub fn chain_signer(&self) -> (r: Option<&Signer>)
        ensures
            match r {
                Some(sg) => self@.signer == Some(sg@),
                None => self@.signer is None,
            },
    {
        self.signer.as_ref()
    }

    /// Overwrites the cached signer's seed with zeros and releases it: the
    /// shared release path of locking and of signer replacement.
    fn clear_signer(&mut self)
        ensures
            final(self)@.signer is None,
            final(self)@.store == old(self)@.store,
    {
        match self.signer.take() {
            Some(mut signer) => signer.wipe(),
            None => {},
        }
    }

    /// Wipes and clears the cached signer; idempotent, never fails, and
    /// leaves the persisted state untouched.
    pub fn lock(&mut self)
        requires
            old(self).wf(),
        ensures
            final(self)@.signer is None,
            final(self)@.store == old(self)@.store,
            final(self).wf(),
    {
        self.clear_signer();
    }

    /// Decrypts the sealed seed with the password's key; on success the
    /// signer becomes active, on any failure nothing changes at all.
    pub fn unlock(&mut self, password: &[u8]) -> (r: Result<(), Error>)
        requires
            old(self).wf(),
        ensures
            final(self).wf(),
            match old(self)@.store.sealed {
                None => r == Err::<(), Error>(Error::NoDeviceKey) && final(self)@ == old(self)@,
                Some(sl) => match unseal(key_of(password@), sl.ciphertext, sl.tag) {
                    Some(seed) => r == Ok::<(), Error>(()) && final(self)@.store == old(
                        self,
                    )@.store && final(self)@.signer == Some(
                        SignerView { seed, public_key: public_key_of(seed) },
                    ),
                    None => r == Err::<(), Error>(Error::DecryptionFailed) && final(self)@ == old(
                        self,
                    )@,
                },
            },
    {
        match &self.store.sealed {
            None => Err(Error::NoDeviceKey),
            Some(sl) => {
                let key = derive_key(password);
                match decrypt(key.as_slice(), sl) {
                    Ok(seed_bytes) => {
                        let seed = SecretSeed::new(seed_bytes);
                        let signer = Key::from_seed(seed).to_signer();
                        self.clear_signer();
                        self.signer = Some(signer);
                        Ok(())
                    },
                    Err(e) => Err(e),
                }
            },
        }
    }

    /// Seals a seed under the password's key, bumps the generation by one,
    /// and activates the signer. The shared tail of provisioning paths.
    fn install(&mut self, seed: SecretSeed, password: &[u8]) -> (r: AccountId)
        requires
            old(self).wf(),
            seed@.len() == 32,
            old(self)@.store.generation < 0xffff,
        ensures
            final(self).wf(),
            installed(old(self)@, final(self)@, password@, seed@),
            r.bytes@ == public_key_of(seed@),
    {
        let key = derive_key(password);
        let sealed = encrypt(key.as_slice(), seed.expose_secret().as_slice());
        let signer = Key::from_seed(seed).to_signer();
        let account = signer.account_id();
        self.clear_signer();
        self.store = EncryptedStore {
            sealed: Some(sealed),
            generation: self.store.generation + 1,
        };
        self.signer = Some(signer);
        account
    }

    /// Installs a given device key, as recovery flows do. Refuses to
    /// overwrite an existing key unless `force` is explicit.
    pub fn set_device_key(&mut self, device_key: &Key, password: &[u8], force: bool) -> (r: Result<
        AccountId,
        Error,
    >)
        requires
            old(self).wf(),
            device_key.wf(),
            old(self)@.store.generation < 0xffff,
        ensures
            final(self).wf(),
            match r {
                Ok(a) => (old(self)@.store.sealed is None || force) && installed(
                    old(self)@,
                    final(self)@,
                    password@,
                    device_key@,
                ) && a.bytes@ == public_key_of(device_key@),
                Err(e) => e == Error::HasDeviceKey && old(self)@.store.sealed is Some && !force
                    && final(self)@ == old(self)@,
            },
    {
        if self.store.sealed.is_some() && !force {
            return Err(Error::HasDeviceKey);
        }
        Ok(self.install(device_key.expose_secret().duplicate(), password))
    }

    /// Provisions a brand-new device key: draws a fresh seed, seals it
    /// under the password at the given (current) generation, activates the
    /// signer and returns the derived identity.
    pub fn provision_device(&mut self, password: &[u8], gen: u16) -> (r: Result<AccountId, Error>)
        requires
            old(self).wf(),
            gen == old(self)@.store.generation,
            gen < 0xffff,
        ensures
            final(self).wf(),
            match r {
                Ok(a) => old(self)@.store.sealed is None && (exists|seed: Seq<u8>|
                    seed.len() == 32 && #[trigger] installed(
                        old(self)@,
                        final(self)@,
                        password@,
                        seed,
                    ) && a.bytes@ == public_key_of(seed)),
                Err(e) => final(self)@ == old(self)@ && (e == Error::HasDeviceKey <==> old(
                    self,
                )@.store.sealed is Some) && (e == Error::HasDeviceKey || e
                    == Error::EntropyUnavailable),
            },
    {
        if self.store.sealed.is_some() {
            return Err(Error::HasDeviceKey);
        }
        let key = match Key::generate() {
            Ok(k) => k,
            Err(e) => {
                return Err(e);
            },
        };
        let account = self.install(key.expose_secret().duplicate(), password);
        Ok(account)
    }

    /// Computes the re-keying mask for a password change without mutating
    /// anything: the mask is the XOR of the new password's key with the
    /// current one (recovered from ciphertext and unlocked seed), and it
    /// targets the immediately following generation.
    pub fn change_password_mask(&self, new_password: &[u8]) -> (r: (Mask, u16))
        requires
            self.wf(),
            self.is_unlocked(),
            self@.store.generation < 0xffff,
        ensures
            self@.store.sealed matches Some(sl) && self@.signer matches Some(sg) && r.0@
                == xor_bytes(key_of(new_password@), xor_bytes(sl.ciphertext, sg.seed)) && r.0.wf()
                && r.1 == self@.store.generation + 1,
    {
        let sl = self.store.sealed.as_ref().unwrap();
        let sg = self.signer.as_ref().unwrap();
        let current_key = xor_bytes_exec(
            sl.ciphertext.as_slice(),
            sg.seed().expose_secret().as_slice(),
        );
        let new_key = derive_key(new_password);
        let mask = Mask::new(xor_bytes_exec(new_key.as_slice(), current_key.as_slice()));
        (mask, self.store.generation + 1)
    }

    /// Re-keys the stored ciphertext through a mask, fenced by the
    /// generation counter: a mask that does not target exactly the next
    /// generation is rejected, and on every failure the persisted
    /// generation and ciphertext stay exactly as they were.
    pub fn apply_mask(&mut self, mask: &Mask, next_gen: u16) -> (r: Result<(), Error>)
        requires
            old(self).wf(),
            mask.wf(),
        ensures
            final(self).wf(),
            match r {
                Ok(()) => {
                    &&& next_gen == old(self)@.store.generation + 1
                    &&& old(self)@.store.sealed matches Some(sl) && final(self)@.store.sealed
                        == Some(
                        SealedView { ciphertext: xor_bytes(sl.ciphertext, mask@), tag: sl.tag },
                    )
                    &&& final(self)@.store.generation == next_gen
                    &&& final(self)@.signer == old(self)@.signer
                },
                Err(e) => {
                    &&& final(self)@ == old(self)@
                    &&& (e == Error::StaleGeneration <==> next_gen != old(
                        self,
                    )@.store.generation + 1)
                    &&& (e == Error::StaleGeneration || (e == Error::NoDeviceKey && old(
                        self,
                    )@.store.sealed is None))
                },
            },
    {
        if self.store.generation == 0xffffu16 || next_gen != self.store.generation + 1 {
            return Err(Error::StaleGeneration);
        }
        match &self.store.sealed {
            None => Err(Error::NoDeviceKey),
            Some(sl) => {
                let rekeyed = xor_bytes_exec(sl.ciphertext.as_slice(), mask.expose().as_slice());
                let tag = vstd::slice::slice_to_vec(sl.tag.as_slice());
                self.store = EncryptedStore {
                    sealed: Some(SealedSeed { ciphertext: rekeyed, tag }),
                    generation: next_gen,
                };
                Ok(())
            },
        }
    }
}

/// Law: a successful provisioning bumps the generation by exactly one, and
/// the provisioning password unlocks the store it leaves behind.
pub proof fn lemma_unlock_after_provision(
    pre: KeystoreView,
    post: KeystoreView,
    password: Seq<u8>,
    seed: Seq<u8>,
)
    requires
        installed(pre, post, password, seed),
    ensures
        post.store.generation == pre.store.generation + 1,
        post.store.sealed matches Some(sl) && unseal(key_of(password), sl.ciphertext, sl.tag)
            == Some(seed),
{
    lemma_encrypt_then_decrypt(password, seed);
}

} // verus!
