//! Security accelerator (AES, SM4, LEA, TDES, SHA-256, SM3, HMAC).
//!
//! Only the algorithm selections and an idle engine exist so far: enabling
//! and disabling change nothing and the engine never reports busy.
use vstd::prelude::*;

verus! {

/// Cipher algorithm.
#[derive(Debug, Clone, Copy, PartialEq, Eq, Structural)]
pub enum CipherAlg {
    /// AES, 128-bit key.
    Aes128,
    /// AES, 192-bit key.
    Aes192,
    /// AES, 256-bit key.
    Aes256,
    /// SM4.
    Sm4,
    /// LEA.
    Lea,
    /// Triple DES.
    Tdes,
}

/// Cipher mode.
#[derive(Debug, Clone, Copy, PartialEq, Eq, Structural)]
pub enum CipherMode {
    /// Electronic codebook.
    Ecb,
    /// Cipher block chaining.
    Cbc,
    /// Counter.
    Ctr,
    /// Counter with CBC-MAC.
    Ccm,
    /// Galois/counter.
    Gcm,
}

/// Cipher direction.
#[derive(Debug, Clone, Copy, PartialEq, Eq, Structural)]
pub enum CipherDir {
    /// Encrypt.
    Encrypt,
    /// Decrypt.
    Decrypt,
}

/// Hash algorithm.
#[derive(Debug, Clone, Copy, PartialEq, Eq, Structural)]
pub enum HashAlg {
    /// SHA-256.
    Sha256,
    /// SM3.
    Sm3,
}

/// The accelerator driver.
pub struct SpaccDriver;

impl SpaccDriver {
    /// The driver.
    pub fn new() -> (d: Self) {
        SpaccDriver
    }

    /// Enable the accelerator (no register is touched yet).
    pub fn enable(&mut self)
        ensures
            *final(self) == *old(self),
    {
    }

    /// Disable the accelerator (no register is touched yet).
    pub fn disable(&mut self)
        ensures
            *final(self) == *old(self),
    {
    }

    /// Whether the accelerator is busy: never, so far.
    pub fn is_busy(&self) -> (r: bool)
        ensures
            !r,
    {
        false
    }
}

} // verus!
