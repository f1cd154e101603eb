//! Public key engine (RSA modular exponentiation, ECC and SM2 point
//! operations).
//!
//! Only the operation kinds and an idle engine exist so far: enabling and
//! disabling change nothing and the engine never reports busy.
use vstd::prelude::*;

verus! {

/// Engine operation.
#[derive(Debug, Clone, Copy, PartialEq, Eq, Structural)]
pub enum PkeOp {
    /// Modular exponentiation (RSA).
    ModExp,
    /// ECC point multiplication.
    EccPointMul,
    /// ECC point addition.
    EccPointAdd,
    /// ECC point verification.
    EccPointVerify,
}

/// The engine driver.
pub struct PkeDriver;

impl PkeDriver {
    /// The driver.
    pub fn new() -> (d: Self) {
        PkeDriver
    }

    /// Enable the engine (no register is touched yet).
    pub fn enable(&mut self)
        ensures
            *final(self) == *old(self),
    {
    }

    /// Disable the engine (no register is touched yet).
    pub fn disable(&mut self)
        ensures
            *final(self) == *old(self),
    {
    }

    /// Whether the engine is busy: never, so far.
    pub fn is_busy(&self) -> (r: bool)
        ensures
            !r,
    {
        false
    }
}

} // verus!
