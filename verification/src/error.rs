//! The kinds of failure, and the class under which the host reports each.

use vstd::prelude::*;

verus! {

/// Why an operation on a record or on an instruction was refused.
#[derive(Clone, Copy, Debug, PartialEq, Eq, Structural)]
pub enum MappingError {
    /// The account that was named does not sit at the derived address.
    AddressMismatch,
    /// A record was to be created in an account that the program owns already.
    AlreadyInitialized,
    /// A record was to be overwritten in an account that the program does not own.
    UninitializedOrNotOwned,
    /// The stored length is not the length of the record.
    SizeMismatch,
    /// The storage is not placed at a multiple of the record's alignment.
    AlignmentInvalid,
    /// Fewer accounts were named than the instruction needs.
    MissingAccounts,
    /// The leading byte names no instruction.
    UnknownDiscriminator,
    /// The paying account holds less than is to be moved.
    UnderfundedTransfer,
    /// The instruction is empty, or its payload is shorter than its fields.
    InvalidInstructionData,
    /// The receiving account's balance would pass the largest balance.
    ArithmeticOverflow,
    /// An offer was to be made in an account that the program owns already.
    IllegalOwner,
}

/// The class of error that the host runtime shows to a client.
#[derive(Clone, Copy, Debug, PartialEq, Eq, Structural)]
pub enum HostError {
    InvalidSeeds,
    IllegalOwner,
    UninitializedAccount,
    InvalidAccountData,
    NotEnoughAccountKeys,
    InvalidInstructionData,
    InsufficientFunds,
    ArithmeticOverflow,
}

/// The host class of each kind of failure.
pub open spec fn host_class(e: MappingError) -> HostError {
    match e {
        MappingError::AddressMismatch => HostError::InvalidSeeds,
        MappingError::AlreadyInitialized => HostError::IllegalOwner,
        MappingError::UninitializedOrNotOwned => HostError::UninitializedAccount,
        MappingError::SizeMismatch => HostError::InvalidAccountData,
        MappingError::AlignmentInvalid => HostError::InvalidAccountData,
        MappingError::MissingAccounts => HostError::NotEnoughAccountKeys,
        MappingError::UnknownDiscriminator => HostError::InvalidInstructionData,
        MappingError::UnderfundedTransfer => HostError::InsufficientFunds,
        MappingError::InvalidInstructionData => HostError::InvalidInstructionData,
        MappingError::ArithmeticOverflow => HostError::ArithmeticOverflow,
        MappingError::IllegalOwner => HostError::IllegalOwner,
    }
}

impl MappingError {
    /// The class under which the host reports this failure.
    pub fn host_error(self) -> (class: HostError)
        ensures
            class == host_class(self),
    {
        match self {
            MappingError::AddressMismatch => HostError::InvalidSeeds,
            MappingError::AlreadyInitialized => HostError::IllegalOwner,
            MappingError::UninitializedOrNotOwned => HostError::UninitializedAccount,
            MappingError::SizeMismatch => HostError::InvalidAccountData,
            MappingError::AlignmentInvalid => HostError::InvalidAccountData,
            MappingError::MissingAccounts => HostError::NotEnoughAccountKeys,
            MappingError::UnknownDiscriminator => HostError::InvalidInstructionData,
            MappingError::UnderfundedTransfer => HostError::InsufficientFunds,
            MappingError::InvalidInstructionData => HostError::InvalidInstructionData,
            MappingError::ArithmeticOverflow => HostError::ArithmeticOverflow,
            MappingError::IllegalOwner => HostError::IllegalOwner,
        }
    }
}

} // verus!
