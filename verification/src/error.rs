//! Typed failures of the verified core. Every failure is surfaced to the
//! caller as a value; nothing is retried or downgraded internally.

use vstd::prelude::*;

verus! {

/// Failure of a pricing or slippage computation.
#[derive(Clone, Copy, Debug, PartialEq, Eq, Structural)]
pub enum PricingError {
    /// The curve's completion flag is set: trading against it is closed.
    CurveComplete,
    /// The exact result would leave the representable unsigned 64-bit range.
    Overflow,
    /// A basis-point rate above the 10000 (100%) cap.
    InvalidTolerance,
}

/// Failure to decode an account snapshot from raw bytes.
#[derive(Clone, Copy, Debug, PartialEq, Eq, Structural)]
pub enum DecodeError {
    /// The buffer's length does not match the fixed record layout.
    WrongLength,
    /// The 8-byte record tag does not match the expected account kind.
    WrongDiscriminator,
    /// A boolean field holds a byte other than 0 or 1.
    InvalidFlag,
}

/// Failure to assemble one of the client operations.
#[derive(Clone, Copy, Debug, PartialEq, Eq, Structural)]
pub enum ClientError {
    /// No off-curve bump could be found for the bonding curve address.
    BondingCurveNotFound,
    /// Another required address derivation found no off-curve bump.
    AddressDerivationFailed,
    /// A pricing computation failed.
    Pricing(PricingError),
}

} // verus!
