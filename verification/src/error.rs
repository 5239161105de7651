//! The error taxonomy of the custody subsystem.

use vstd::prelude::*;

verus! {

/// Why a keystore or key-derivation operation failed.
#[derive(Clone, Copy, Debug, PartialEq, Eq, Structural)]
pub enum Error {
    /// A device key is already provisioned and `force` was not requested.
    HasDeviceKey,
    /// No device key is provisioned: there is no ciphertext to work on.
    NoDeviceKey,
    /// Wrong password, or the ciphertext was corrupted or tampered with.
    DecryptionFailed,
    /// A mask targeted a generation that does not immediately follow the
    /// current one; the caller must re-fetch the generation and recompute.
    StaleGeneration,
    /// A mnemonic phrase encodes less entropy than a full seed needs.
    NotEnoughEntropy,
    /// A secret URI was malformed.
    InvalidSuri,
    /// A mnemonic phrase was not a valid phrase at all.
    InvalidMnemonic,
    /// Secure randomness was unavailable.
    EntropyUnavailable,
}

} // verus!
