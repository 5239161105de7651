//! The password/cipher boundary: a 32-byte encryption key is derived from a
//! password, and the 32-byte secret seed is sealed by XOR-ing it with that
//! key, authenticated by a digest of the plaintext seed.
//!
//! The XOR stream construction is chosen deliberately: it is key-homomorphic,
//! so a store can be re-keyed by XOR-ing a mask (the XOR delta of two keys)
//! into the ciphertext without ever seeing a plaintext key or password. The
//! digest tag binds the plaintext seed and therefore survives re-keying.

use vstd::prelude::*;

use crate::error::Error;
use sha2::Digest;

verus! {

/// The byte-wise XOR of `a` with `b`, as long as `a`.
pub open spec fn xor_bytes(a: Seq<u8>, b: Seq<u8>) -> Seq<u8> {
    Seq::new(a.len(), |i: int| a[i] ^ b[i])
}

/// The SHA-256 digest of a byte string.
pub uninterp spec fn sha256_of(data: Seq<u8>) -> Seq<u8>;

/// The 32-byte encryption key that the key-derivation function assigns to a
/// password.
pub open spec fn key_of(password: Seq<u8>) -> Seq<u8> {
    Seq::new(32, |i: int| sha256_of(password)[i])
}

/// The ciphertext of a sealed seed: the seed XOR-ed with the key.
pub open spec fn seal_ciphertext(key: Seq<u8>, seed: Seq<u8>) -> Seq<u8> {
    xor_bytes(seed, key)
}

/// The authentication tag of a sealed seed: a digest of the plaintext seed.
pub open spec fn seal_tag(seed: Seq<u8>) -> Seq<u8> {
    sha256_of(seed)
}

/// What decryption returns: the seed, if the tag authenticates it under the
/// given key; nothing on a wrong key or tampered ciphertext.
pub open spec fn unseal(key: Seq<u8>, ciphertext: Seq<u8>, tag: Seq<u8>) -> Option<Seq<u8>> {
    if sha256_of(xor_bytes(ciphertext, key)) == tag {
        Some(xor_bytes(ciphertext, key))
    } else {
        None
    }
}

/// The XOR delta between the keys of two passwords; carrying it over an
/// untrusted channel reveals neither key.
pub open spec fn mask_of(old_password: Seq<u8>, new_password: Seq<u8>) -> Seq<u8> {
    xor_bytes(key_of(new_password), key_of(old_password))
}

/// Relies on sha2::Sha256 (through Digest::digest): the digest is a function
/// of the input bytes alone and is always 32 bytes long.
#[verifier::external_body]
fn sha256(data: &[u8]) -> (r: Vec<u8>)
    ensures
        r@ == sha256_of(data@),
        r@.len() == 32,
{
    sha2::Sha256::digest(data).to_vec()
}

/// Derives the 32-byte encryption key for a password.
pub fn derive_key(password: &[u8]) -> (r: Vec<u8>)
    ensures
        r@ == key_of(password@),
        r@.len() == 32,
{
    let r = sha256(password);
    proof {
        assert(r@ =~= key_of(password@));
    }
    r
}

/// XOR-combines two byte strings of equal length.
pub fn xor_bytes_exec(a: &[u8], b: &[u8]) -> (r: Vec<u8>)
    requires
        a@.len() == b@.len(),
    ensures
        r@ == xor_bytes(a@, b@),
{
    let mut r: Vec<u8> = Vec::new();
    let mut i: usize = 0;
    while i < a.len()
        invariant
            i <= a@.len(),
            a@.len() == b@.len(),
            r@.len() == i,
            forall|j: int| 0 <= j < i ==> r@[j] == (a@[j] ^ b@[j]),
        decreases a@.len() - i,
    {
        r.push(a[i] ^ b[i]);
        i = i + 1;
    }
    proof {
        assert(r@ =~= xor_bytes(a@, b@));
    }
    r
}

/// Compares two byte strings for equality.
pub fn bytes_eq(a: &[u8], b: &[u8]) -> (r: bool)
    ensures
        r == (a@ == b@),
{
    if a.len() != b.len() {
        return false;
    }
    let mut i: usize = 0;
    while i < a.len()
        invariant
            i <= a@.len(),
            a@.len() == b@.len(),
            forall|j: int| 0 <= j < i ==> a@[j] == b@[j],
        decreases a@.len() - i,
    {
        if a[i] != b[i] {
            return false;
        }
        i = i + 1;
    }
    proof {
        assert(a@ =~= b@);
    }
    true
}

/// The persisted form of a device key: ciphertext and authentication tag.
pub struct SealedSeed {
    /// The seed XOR-ed with the password-derived key.
    pub ciphertext: Vec<u8>,
    /// A digest of the plaintext seed; unchanged by re-keying.
    pub tag: Vec<u8>,
}

/// The mathematical content of a `SealedSeed`.
pub ghost struct SealedView {
    pub ciphertext: Seq<u8>,
    pub tag: Seq<u8>,
}

impl View for SealedSeed {
    type V = SealedView;

    open spec fn view(&self) -> SealedView {
        SealedView { ciphertext: self.ciphertext@, tag: self.tag@ }
    }
}

impl SealedSeed {
    pub open spec fn wf(self) -> bool {
        self@.ciphertext.len() == 32 && self@.tag.len() == 32
    }

    /// A field-for-field copy, for replicating a store to another device.
    pub fn duplicate(&self) -> (r: SealedSeed)
        ensures
            r@ == self@,
    {
        SealedSeed {
            ciphertext: vstd::slice::slice_to_vec(self.ciphertext.as_slice()),
            tag: vstd::slice::slice_to_vec(self.tag.as_slice()),
        }
    }
}

/// A 32-byte re-keying delta: the XOR of a new and an old encryption key.
pub struct Mask {
    bytes: Vec<u8>,
}

impl View for Mask {
    type V = Seq<u8>;

    closed spec fn view(&self) -> Seq<u8> {
        self.bytes@
    }
}

impl Mask {
    pub open spec fn wf(self) -> bool {
        self@.len() == 32
    }

    pub fn new(bytes: Vec<u8>) -> (r: Mask)
        requires
            bytes@.len() == 32,
        ensures
            r@ == bytes@,
    {
        Mask { bytes }
    }

    /// The raw delta, for transmission to sibling stores.
    pub fn expose(&self) -> (r: &Vec<u8>)
        ensures
            r@ == self@,
    {
        &self.bytes
    }
}

/// Seals a 32-byte seed under an encryption key.
pub fn encrypt(key: &[u8], seed: &[u8]) -> (r: SealedSeed)
    requires
        key@.len() == 32,
        seed@.len() == 32,
    ensures
        r@.ciphertext == seal_ciphertext(key@, seed@),
        r@.tag == seal_tag(seed@),
        r.wf(),
{
    let tag = sha256(seed);
    SealedSeed { ciphertext: xor_bytes_exec(seed, key), tag }
}

/// Opens a sealed seed with an encryption key; fails closed when the tag
/// does not authenticate the decrypted bytes.
pub fn decrypt(key: &[u8], sealed: &SealedSeed) -> (r: Result<Vec<u8>, Error>)
    requires
        key@.len() == 32,
        sealed.wf(),
    ensures
        match r {
            Ok(seed) => unseal(key@, sealed@.ciphertext, sealed@.tag) == Some(seed@)
                && seed@.len() == 32,
            Err(e) => e == Error::DecryptionFailed
                && unseal(key@, sealed@.ciphertext, sealed@.tag) is None,
        },
{
    let candidate = xor_bytes_exec(sealed.ciphertext.as_slice(), key);
    let tag = sha256(candidate.as_slice());
    if bytes_eq(tag.as_slice(), sealed.tag.as_slice()) {
        Ok(candidate)
    } else {
        Err(Error::DecryptionFailed)
    }
}

/// XOR cancels itself: re-applying the same byte string gives the original.
pub proof fn lemma_xor_cancel(a: Seq<u8>, b: Seq<u8>)
    ensures
        xor_bytes(xor_bytes(a, b), b) == a,
{
    assert forall|i: int| 0 <= i < a.len() implies xor_bytes(xor_bytes(a, b), b)[i] == a[i] by {
        let x = a[i];
        let y = b[i];
        assert((x ^ y) ^ y == x) by (bit_vector);
    }
    assert(xor_bytes(xor_bytes(a, b), b) =~= a);
}

/// Law: sealing a seed under the key of a password and opening it with the
/// key of the same password always gives the seed back.
pub proof fn lemma_encrypt_then_decrypt(password: Seq<u8>, seed: Seq<u8>)
    ensures
        unseal(key_of(password), seal_ciphertext(key_of(password), seed), seal_tag(seed))
            == Some(seed),
{
    lemma_xor_cancel(seed, key_of(password));
}

/// Law: for two passwords, re-keying a seed sealed under the first by the
/// XOR mask of their keys yields a seed that the second password's key opens
/// to the original seed — no plaintext key touches the ciphertext.
pub proof fn lemma_mask_rekeys_ciphertext(p1: Seq<u8>, p2: Seq<u8>, seed: Seq<u8>)
    requires
        p1 != p2,
        seed.len() == 32,
    ensures
        unseal(
            key_of(p2),
            xor_bytes(seal_ciphertext(key_of(p1), seed), mask_of(p1, p2)),
            seal_tag(seed),
        ) == Some(seed),
{
    let k1 = key_of(p1);
    let k2 = key_of(p2);
    let rekeyed = xor_bytes(seal_ciphertext(k1, seed), mask_of(p1, p2));
    assert forall|i: int| 0 <= i < seed.len() implies xor_bytes(rekeyed, k2)[i] == seed[i] by {
        let s = seed[i];
        let x = k1[i];
        let y = k2[i];
        assert(((s ^ x) ^ (y ^ x)) ^ y == s) by (bit_vector);
    }
    assert(xor_bytes(rekeyed, k2) =~= seed);
}

/// Law: on a store sealed under the old password's key, the mask computed
/// from ciphertext and unlocked seed is exactly the XOR delta of the two
/// passwords' keys — the old key is recovered, never stored.
pub proof fn lemma_mask_is_key_delta(p1: Seq<u8>, p2: Seq<u8>, seed: Seq<u8>)
    requires
        seed.len() == 32,
    ensures
        xor_bytes(key_of(p2), xor_bytes(seal_ciphertext(key_of(p1), seed), seed)) == mask_of(
            p1,
            p2,
        ),
{
    let k1 = key_of(p1);
    let k2 = key_of(p2);
    let computed = xor_bytes(k2, xor_bytes(seal_ciphertext(k1, seed), seed));
    assert forall|i: int| 0 <= i < 32 implies computed[i] == mask_of(p1, p2)[i] by {
        let s = seed[i];
        let x = k1[i];
        let y = k2[i];
        assert(y ^ ((s ^ x) ^ s) == (y ^ x)) by (bit_vector);
    }
    assert(computed =~= mask_of(p1, p2));
}

/// Law: a mask computed against a live store (from its ciphertext and the
/// unlocked seed) re-keys any faithful copy of that store so that the new
/// password opens it to the same seed.
pub proof fn lemma_mask_transfer(
    new_password: Seq<u8>,
    seed: Seq<u8>,
    ciphertext: Seq<u8>,
    tag: Seq<u8>,
    mask: Seq<u8>,
)
    requires
        seed.len() == 32,
        ciphertext.len() == 32,
        tag == seal_tag(seed),
        mask == xor_bytes(key_of(new_password), xor_bytes(ciphertext, seed)),
    ensures
        unseal(key_of(new_password), xor_bytes(ciphertext, mask), tag) == Some(seed),
{
    let k2 = key_of(new_password);
    let rekeyed = xor_bytes(ciphertext, mask);
    assert forall|i: int| 0 <= i < 32 implies xor_bytes(rekeyed, k2)[i] == seed[i] by {
        let c = ciphertext[i];
        let s = seed[i];
        let y = k2[i];
        assert((c ^ (y ^ (c ^ s))) ^ y == s) by (bit_vector);
    }
    assert(xor_bytes(rekeyed, k2) =~= seed);
}

} // verus!
