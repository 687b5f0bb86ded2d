use vstd::prelude::*;

verus! {

/// Failures that the chamber reports to its caller.
#[derive(Debug, Clone, Copy, PartialEq, Eq, Structural)]
pub enum ChamberError {
    /// The requested or stored protocol type is not the implemented one.
    UnsupportedProtocol,
    /// A checked arithmetic operation overflowed or underflowed.
    MathOverflow,
    /// A requested amount exceeds the recorded balance of a user position.
    InsufficientUserPositionFunds,
    /// A price feed record holds no price that the lending service accepts.
    InvalidPriceFeed,
    /// An account is not at the address that its seeds give.
    AddressMismatch,
}

/// Offset of the first error code of this program.
pub const ERROR_CODE_OFFSET: u32 = 6000;

impl ChamberError {
    /// Numeric error code, as surfaced to the caller.
    pub fn code(&self) -> (r: u32)
        ensures
            r == match *self {
                ChamberError::UnsupportedProtocol => 6000u32,
                ChamberError::MathOverflow => 6001u32,
                ChamberError::InsufficientUserPositionFunds => 6002u32,
                ChamberError::InvalidPriceFeed => 6003u32,
                ChamberError::AddressMismatch => 6004u32,
            },
    {
        match self {
            ChamberError::UnsupportedProtocol => ERROR_CODE_OFFSET,
            ChamberError::MathOverflow => ERROR_CODE_OFFSET + 1,
            ChamberError::InsufficientUserPositionFunds => ERROR_CODE_OFFSET + 2,
            ChamberError::InvalidPriceFeed => ERROR_CODE_OFFSET + 3,
            ChamberError::AddressMismatch => ERROR_CODE_OFFSET + 4,
        }
    }

    /// Human-readable message of the error.
    pub fn message(&self) -> (r: &'static str)
        ensures
            r@ == match *self {
                ChamberError::UnsupportedProtocol => "Unsupported protocol error."@,
                ChamberError::MathOverflow => "Math overflow error."@,
                ChamberError::InsufficientUserPositionFunds => "Insufficient user position funds error."@,
                ChamberError::InvalidPriceFeed => "Invalid price feed error."@,
                ChamberError::AddressMismatch => "Address mismatch error."@,
            },
    {
        match self {
            ChamberError::UnsupportedProtocol => "Unsupported protocol error.",
            ChamberError::MathOverflow => "Math overflow error.",
            ChamberError::InsufficientUserPositionFunds => "Insufficient user position funds error.",
            ChamberError::InvalidPriceFeed => "Invalid price feed error.",
            ChamberError::AddressMismatch => "Address mismatch error.",
        }
    }
}

} // verus!
