//! A device-key custody library: a local secret store that keeps one
//! long-lived signing seed encrypted behind a password, re-keys that
//! ciphertext through XOR masks when the password changes, fences every
//! re-key with a monotonically increasing generation counter, and derives
//! a transaction signer from the unlocked seed.

pub mod cipher;
pub mod error;
pub mod key;
pub mod keystore;
pub mod service;

use vstd::prelude::*;

verus! {

} // verus!
