use vstd::prelude::*;

verus! {

/// The single coded reason for which an operation was rejected.
#[derive(Debug, Clone, Copy, PartialEq, Eq, Structural)]
pub enum NameRegistryError {
    InvalidNameFormat,
    NameTaken,
    InsufficientFee,
    NameAlreadyRegistered,
    NotNameOwner,
    InvalidAddress,
    CooldownNotOver,
    NoPendingUpdate,
    NotPendingAddress,
    NotContractOwner,
    InvalidNewOwner,
    NotPendingContractOwner,
    NotInitialized,
    AlreadyInitialized,
    /// The host's clock could not be read.
    ClockUnavailable,
}

impl NameRegistryError {
    /// A human-readable message for the error.
    pub fn message(&self) -> &'static str {
        match self {
            NameRegistryError::InvalidNameFormat => "Invalid name format",
            NameRegistryError::NameTaken => "Name already taken",
            NameRegistryError::InsufficientFee => "Insufficient fee",
            NameRegistryError::NameAlreadyRegistered => "Name already registered for address",
            NameRegistryError::NotNameOwner => "Not name owner",
            NameRegistryError::InvalidAddress => "Invalid address",
            NameRegistryError::CooldownNotOver => "Cooldown period not over",
            NameRegistryError::NoPendingUpdate => "No pending update",
            NameRegistryError::NotPendingAddress => "Not the pending address",
            NameRegistryError::NotContractOwner => "Not contract owner",
            NameRegistryError::InvalidNewOwner => "Invalid new owner",
            NameRegistryError::NotPendingContractOwner => "Not the pending contract owner",
            NameRegistryError::NotInitialized => "Account not initialized",
            NameRegistryError::AlreadyInitialized => "Account already initialized",
            NameRegistryError::ClockUnavailable => "Clock unavailable",
        }
    }
}

} // verus!
