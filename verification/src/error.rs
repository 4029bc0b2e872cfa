//! The ways an operation of the game can be turned down.

use vstd::prelude::*;

verus! {

/// Why an operation was rejected. A rejected operation changes nothing: it
/// hands back one of these and no record.
#[derive(Clone, Copy, Debug, PartialEq, Eq, Structural)]
pub enum GameError {
    /// The opcode or its payload is malformed.
    InvalidInstruction,
    /// A signer, owner or identity does not match.
    Unauthorized,
    /// The record is in the wrong listing or rental state for the operation.
    InvalidState,
    /// The paying account holds less than the price.
    InsufficientFunds,
    /// Less experience is banked than the upgrade would spend.
    InsufficientExperience,
    /// An asset and its holding account do not refer to each other.
    AssetMismatch,
    /// The rental has not run out yet.
    RentNotExpired,
    /// The display name does not fit the fixed width.
    NameTooLong,
    /// A new value would not fit in 64 bits.
    ArithmeticOverflow,
    /// The battle digest has fewer bytes than the rounds consume.
    DigestTooShort,
}

impl GameError {
    /// The number under which the ledger reports this error.
    pub open spec fn spec_code(self) -> u32 {
        match self {
            GameError::InvalidInstruction => 0,
            GameError::Unauthorized => 1,
            GameError::InvalidState => 2,
            GameError::InsufficientFunds => 3,
            GameError::InsufficientExperience => 4,
            GameError::AssetMismatch => 5,
            GameError::RentNotExpired => 6,
            GameError::NameTooLong => 7,
            GameError::ArithmeticOverflow => 8,
            GameError::DigestTooShort => 9,
        }
    }

    /// The number under which the ledger reports this error.
    pub fn code(self) -> (c: u32)
        ensures
            c == self.spec_code(),
    {
        match self {
            GameError::InvalidInstruction => 0,
            GameError::Unauthorized => 1,
            GameError::InvalidState => 2,
            GameError::InsufficientFunds => 3,
            GameError::InsufficientExperience => 4,
            GameError::AssetMismatch => 5,
            GameError::RentNotExpired => 6,
            GameError::NameTooLong => 7,
            GameError::ArithmeticOverflow => 8,
            GameError::DigestTooShort => 9,
        }
    }
}

} // verus!
