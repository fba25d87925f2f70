//! A name registry: human-readable names bound to owner-controlled
//! addresses, with cooldown-gated address changes, two-phase address
//! updates and two-phase transfer of the registry's administration.

pub mod error;
pub mod host;
pub mod laws;
pub mod registry;
pub mod state;
pub mod validation;

pub use error::NameRegistryError;
pub use host::current_time;
pub use registry::{
    accept_program_ownership, change_program_owner, complete_address_update,
    complete_address_update_at, initialize, register_name, register_name_at, rename_name,
    rename_name_at, request_address_update, request_address_update_at, set_registration_fee,
    AcceptProgramOwnership, ChangeProgramOwner, CompleteAddressUpdate, FeeTransfer, Initialize,
    RegisterName, RenameName, RequestAddressUpdate, SetRegistrationFee,
};
pub use state::{
    same_text, Address, AddressAccount, AddressSlot, NameAccount, PendingSlot, PendingUpdateAccount,
    ProgramConfig, Registry, MAX_NAME_LENGTH,
};
pub use validation::{check_cooldown, validate_address, validate_cooldown, validate_name};
