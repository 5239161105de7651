//! The device key: a 32-byte secret seed with auditable exposure, and the
//! signer and account identity derived from it through one concrete
//! signature scheme (Ed25519).

use vstd::prelude::*;

use crate::error::Error;
use ed25519_dalek::Signer as _;
use vstd::string::StrSliceExecFns;
use vstd::string::StringSliceAdditionalSpecFns;

verus! {

/// The Ed25519 public key belonging to a 32-byte seed.
pub uninterp spec fn public_key_of(seed: Seq<u8>) -> Seq<u8>;

/// The Ed25519 signature that a seed produces over a message; Ed25519
/// signing is deterministic, a function of seed and message alone.
pub uninterp spec fn ed25519_signature_of(seed: Seq<u8>, message: Seq<u8>) -> Seq<u8>;

/// What decoding a BIP-39 style mnemonic phrase yields: the entropy it
/// encodes, or nothing when the phrase is not a valid phrase.
pub uninterp spec fn mnemonic_result_of(phrase: Seq<char>) -> Option<Seq<u8>>;

/// Relies on ed25519_dalek::SigningKey::from_bytes and verifying_key: the
/// public key is a function of the 32-byte seed alone, 32 bytes long.
#[verifier::external_body]
fn ed25519_public(seed: &[u8]) -> (r: Vec<u8>)
    requires
        seed@.len() == 32,
    ensures
        r@ == public_key_of(seed@),
        r@.len() == 32,
{
    let mut bytes = [0u8; 32];
    bytes.copy_from_slice(seed);
    let signing = ed25519_dalek::SigningKey::from_bytes(&bytes);
    signing.verifying_key().to_bytes().to_vec()
}

/// Relies on ed25519_dalek::SigningKey::sign: Ed25519 signing is
/// deterministic and yields a 64-byte signature.
#[verifier::external_body]
fn ed25519_sign(seed: &[u8], message: &[u8]) -> (r: Vec<u8>)
    requires
        seed@.len() == 32,
    ensures
        r@ == ed25519_signature_of(seed@, message@),
        r@.len() == 64,
{
    let mut bytes = [0u8; 32];
    bytes.copy_from_slice(seed);
    let signing = ed25519_dalek::SigningKey::from_bytes(&bytes);
    signing.sign(message).to_bytes().to_vec()
}

/// Relies on getrandom::fill: fills the buffer from the operating system's
/// secure randomness source, or reports that none is available.
#[verifier::external_body]
fn os_random_seed() -> (r: Result<Vec<u8>, Error>)
    ensures
        match r {
            Ok(b) => b@.len() == 32,
            Err(e) => e == Error::EntropyUnavailable,
        },
{
    let mut buf = [0u8; 32];
    match getrandom::fill(&mut buf) {
        Ok(()) => Ok(buf.to_vec()),
        Err(_) => Err(Error::EntropyUnavailable),
    }
}

/// Relies on bip39::Mnemonic::parse and to_entropy: with one wordlist
/// compiled in, whether a phrase parses, and the entropy it decodes to,
/// are functions of the phrase alone.
#[verifier::external_body]
fn mnemonic_entropy(phrase: &str) -> (r: Result<Vec<u8>, Error>)
    ensures
        match r {
            Ok(e) => mnemonic_result_of(phrase@) == Some(e@),
            Err(e) => e == Error::InvalidMnemonic && mnemonic_result_of(phrase@) is None,
        },
{
    match bip39::Mnemonic::parse(phrase) {
        Ok(m) => Ok(m.to_entropy()),
        Err(_) => Err(Error::InvalidMnemonic),
    }
}

/// A 32-byte raw secret. It is read only through `expose_secret`, so every
/// use of the plaintext seed is visible at a call site.
pub struct SecretSeed {
    bytes: Vec<u8>,
}

impl View for SecretSeed {
    type V = Seq<u8>;

    closed spec fn view(&self) -> Seq<u8> {
        self.bytes@
    }
}

impl SecretSeed {
    pub open spec fn wf(self) -> bool {
        self@.len() == 32
    }

    pub fn new(bytes: Vec<u8>) -> (r: SecretSeed)
        requires
            bytes@.len() == 32,
        ensures
            r@ == bytes@,
    {
        SecretSeed { bytes }
    }

    /// The single, auditable accessor for the raw secret: a short-lived
    /// borrow that must not outlive the seed.
    pub fn expose_secret(&self) -> (r: &Vec<u8>)
        ensures
            r@ == self@,
    {
        &self.bytes
    }

    /// A field-for-field copy, for handing a seed to a second owner.
    pub fn duplicate(&self) -> (r: SecretSeed)
        ensures
            r@ == self@,
    {
        SecretSeed { bytes: vstd::slice::slice_to_vec(self.bytes.as_slice()) }
    }

    /// Overwrites the backing bytes with zeros, in place, so that the
    /// secret does not linger in released storage.
    pub fn wipe(&mut self)
        ensures
            final(self)@.len() == old(self)@.len(),
            forall|i: int| 0 <= i < final(self)@.len() ==> final(self)@[i] == 0u8,
    {
        let n = self.bytes.len();
        let mut i: usize = 0;
        while i < n
            invariant
                i <= n,
                n == self.bytes@.len(),
                forall|j: int| 0 <= j < i ==> self.bytes@[j] == 0u8,
            decreases n - i,
        {
            self.bytes[i] = 0;
            i = i + 1;
        }
    }
}

/// The public identity derived from the public counterpart of a seed.
pub struct AccountId {
    pub bytes: Vec<u8>,
}

/// A signing capability bound to the Ed25519 scheme, holding the seed and
/// its precomputed public key.
pub struct Signer {
    seed: SecretSeed,
    public: Vec<u8>,
}

/// The mathematical content of a `Signer`.
pub ghost struct SignerView {
    pub seed: Seq<u8>,
    pub public_key: Seq<u8>,
}

impl View for Signer {
    type V = SignerView;

    closed spec fn view(&self) -> SignerView {
        SignerView { seed: self.seed@, public_key: self.public@ }
    }
}

impl Signer {
    pub open spec fn wf(self) -> bool {
        self@.seed.len() == 32 && self@.public_key == public_key_of(self@.seed)
    }

    /// Signs an arbitrary byte payload with the seed's Ed25519 key.
    pub fn sign(&self, message: &[u8]) -> (r: Vec<u8>)
        requires
            self.wf(),
        ensures
            r@ == ed25519_signature_of(self@.seed, message@),
            r@.len() == 64,
    {
        ed25519_sign(self.seed.expose_secret().as_slice(), message)
    }

    pub fn public_key(&self) -> (r: &Vec<u8>)
        ensures
            r@ == self@.public_key,
    {
        &self.public
    }

    pub fn account_id(&self) -> (r: AccountId)
        ensures
            r.bytes@ == self@.public_key,
    {
        AccountId { bytes: vstd::slice::slice_to_vec(self.public.as_slice()) }
    }

    /// The seed this signer was derived from.
    pub fn seed(&self) -> (r: &SecretSeed)
        ensures
            r@ == self@.seed,
    {
        &self.seed
    }

    /// Overwrites the seed with zeros, in place; the signer can no longer
    /// sign for its key and is meant to be dropped right after.
    pub fn wipe(&mut self)
        ensures
            final(self)@.seed.len() == old(self)@.seed.len(),
            forall|i: int| 0 <= i < final(self)@.seed.len() ==> final(self)@.seed[i] == 0u8,
    {
        self.seed.wipe();
    }
}

/// A device key: wraps a secret seed and derives signer and identity from
/// it. Both derivations are pure; nothing is cached beyond the seed itself.
pub struct Key {
    seed: SecretSeed,
}

impl View for Key {
    type V = Seq<u8>;

    closed spec fn view(&self) -> Seq<u8> {
        self.seed@
    }
}

/// A hexadecimal digit in ASCII.
pub open spec fn is_hex_digit(b: u8) -> bool {
    (48 <= b && b <= 57) || (97 <= b && b <= 102) || (65 <= b && b <= 70)
}

/// The value of an ASCII hexadecimal digit.
pub open spec fn hex_val(b: u8) -> u8 {
    if 48 <= b && b <= 57 {
        (b - 48) as u8
    } else if 97 <= b && b <= 102 {
        (b - 87) as u8
    } else {
        (b - 55) as u8
    }
}

/// A byte string that spells a full 32-byte seed in hexadecimal.
pub open spec fn hex_bytes_valid(s: Seq<u8>) -> bool {
    s.len() == 64 && (forall|i: int| 0 <= i < 64 ==> is_hex_digit(#[trigger] s[i]))
}

/// The bytes that a hexadecimal spelling decodes to.
pub open spec fn hex_decode(s: Seq<u8>) -> Seq<u8> {
    Seq::new(s.len() / 2, |i: int| (hex_val(s[2 * i]) * 16 + hex_val(s[2 * i + 1])) as u8)
}

/// A secret URI's body: the spelling with an optional `0x` stripped.
pub open spec fn strip_hex_prefix(s: Seq<u8>) -> Seq<u8> {
    if s.len() >= 2 && s[0] == 48 && s[1] == 120 {
        s.skip(2)
    } else {
        s
    }
}

fn hex_digit_value(b: u8) -> (r: Option<u8>)
    ensures
        match r {
            Some(v) => is_hex_digit(b) && v == hex_val(b),
            None => !is_hex_digit(b),
        },
{
    if 48 <= b && b <= 57 {
        Some(b - 48)
    } else if 97 <= b && b <= 102 {
        Some(b - 87)
    } else if 65 <= b && b <= 70 {
        Some(b - 55)
    } else {
        None
    }
}

/// Decodes a 64-digit hexadecimal seed spelling, after an optional `0x`.
fn parse_hex_seed(b: &[u8]) -> (r: Result<Vec<u8>, Error>)
    ensures
        match r {
            Ok(s) => hex_bytes_valid(strip_hex_prefix(b@)) && s@ == hex_decode(
                strip_hex_prefix(b@),
            ) && s@.len() == 32,
            Err(e) => e == Error::InvalidSuri && !hex_bytes_valid(strip_hex_prefix(b@)),
        },
{
    let off: usize = if b.len() >= 2 && b[0] == 48 && b[1] == 120 {
        2
    } else {
        0
    };
    let ghost body = strip_hex_prefix(b@);
    proof {
        assert(body =~= b@.skip(off as int));
    }
    if b.len() - off != 64 {
        return Err(Error::InvalidSuri);
    }
    let mut out: Vec<u8> = Vec::new();
    let mut i: usize = 0;
    while i < 32
        invariant
            i <= 32,
            b@.len() == off + 64,
            off == 0 || off == 2,
            body == b@.skip(off as int),
            body.len() == 64,
            out@.len() == i,
            forall|j: int| 0 <= j < 2 * i ==> is_hex_digit(#[trigger] body[j]),
            forall|j: int| 0 <= j < i ==> out@[j] == hex_decode(body)[j],
        decreases 32 - i,
    {
        let hi = b[off + 2 * i];
        let lo = b[off + 2 * i + 1];
        proof {
            assert(body[2 * i as int] == b@[off + 2 * i]);
            assert(body[2 * i as int + 1] == b@[off + 2 * i + 1]);
        }
        let hv = match hex_digit_value(hi) {
            Some(v) => v,
            None => {
                return Err(Error::InvalidSuri);
            },
        };
        let lv = match hex_digit_value(lo) {
            Some(v) => v,
            None => {
                return Err(Error::InvalidSuri);
            },
        };
        out.push(hv * 16 + lv);
        i = i + 1;
    }
    proof {
        assert(hex_bytes_valid(body));
        assert(out@ =~= hex_decode(body));
    }
    Ok(out)
}

impl Key {
    pub open spec fn wf(self) -> bool {
        self@.len() == 32
    }

    /// Wraps an existing seed as a device key.
    pub fn from_seed(seed: SecretSeed) -> (r: Key)
        ensures
            r@ == seed@,
    {
        Key { seed }
    }

    /// Draws a fresh device key from secure randomness.
    pub fn generate() -> (r: Result<Key, Error>)
        ensures
            match r {
                Ok(k) => k.wf(),
                Err(e) => e == Error::EntropyUnavailable,
            },
    {
        match os_random_seed() {
            Ok(bytes) => Ok(Key { seed: SecretSeed::new(bytes) }),
            Err(e) => Err(e),
        }
    }

    /// Builds a device key from raw mnemonic entropy: a full seed needs
    /// exactly 32 bytes of it.
    pub fn from_entropy(entropy: &[u8]) -> (r: Result<Key, Error>)
        ensures
            match r {
                Ok(k) => entropy@.len() == 32 && k@ == entropy@,
                Err(e) => e == Error::NotEnoughEntropy && entropy@.len() != 32,
            },
    {
        if entropy.len() == 32 {
            Ok(Key { seed: SecretSeed::new(vstd::slice::slice_to_vec(entropy)) })
        } else {
            Err(Error::NotEnoughEntropy)
        }
    }

    /// Deterministic derivation from a BIP-39 style mnemonic phrase: the
    /// phrase must be a valid phrase and must encode a full 32 bytes of
    /// entropy.
    pub fn from_mnemonic(phrase: &str) -> (r: Result<Key, Error>)
        ensures
            match r {
                Ok(k) => mnemonic_result_of(phrase@) == Some(k@) && k.wf(),
                Err(e) => match mnemonic_result_of(phrase@) {
                    None => e == Error::InvalidMnemonic,
                    Some(entropy) => e == Error::NotEnoughEntropy && entropy.len() != 32,
                },
            },
    {
        match mnemonic_entropy(phrase) {
            Ok(entropy) => Key::from_entropy(entropy.as_slice()),
            Err(e) => Err(e),
        }
    }

    /// Parses a secret URI that spells the seed in hexadecimal, with an
    /// optional `0x` prefix; derivation junctions are not supported.
    pub fn from_suri(suri: &str) -> (r: Result<Key, Error>)
        ensures
            match r {
                Ok(k) => hex_bytes_valid(strip_hex_prefix(suri.spec_bytes())) && k@ == hex_decode(
                    strip_hex_prefix(suri.spec_bytes()),
                ),
                Err(e) => e == Error::InvalidSuri && !hex_bytes_valid(
                    strip_hex_prefix(suri.spec_bytes()),
                ),
            },
    {
        let bytes = suri.as_bytes_vec();
        match parse_hex_seed(bytes.as_slice()) {
            Ok(seed_bytes) => Ok(Key { seed: SecretSeed::new(seed_bytes) }),
            Err(e) => Err(e),
        }
    }

    /// Produces the signing capability for this key.
    pub fn to_signer(&self) -> (r: Signer)
        requires
            self.wf(),
        ensures
            r@.seed == self@,
            r.wf(),
    {
        let public = ed25519_public(self.seed.expose_secret().as_slice());
        Signer { seed: self.seed.duplicate(), public }
    }

    /// Derives the public identity of this key; pure and repeatable.
    pub fn to_account_id(&self) -> (r: AccountId)
        requires
            self.wf(),
        ensures
            r.bytes@ == public_key_of(self@),
    {
        AccountId { bytes: ed25519_public(self.seed.expose_secret().as_slice()) }
    }

    /// The seed inside this key.
    pub fn expose_secret(&self) -> (r: &SecretSeed)
        ensures
            r@ == self@,
    {
        &self.seed
    }
}

} // verus!
