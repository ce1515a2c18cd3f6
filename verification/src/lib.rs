//! A registry of adapters, written for a Solana program and verified with
//! Verus.
//!
//! An adapter is a numbered record that one identity owns and that points, by
//! a short hash, to a description kept elsewhere. One configuration record
//! rules the registry: it names the admin, counts the adapters, and holds the
//! registration fee, the fee recipient and a pause switch.
//!
//! Every operation is a function from the accounts it is given to the accounts
//! as it leaves them, with the notice to emit. It reads no clock and moves no
//! lamports itself: the caller hands in the time and the balances, and carries
//! out what comes back. What an operation refuses, and in which order it looks
//! at its conditions, is a specification function beside it (`register_error`
//! and the like); what it does is another (`registered` and the like). The
//! module `laws` proves what follows from these for runs of several calls.

pub mod accounts;
pub mod adapter;
pub mod error;
pub mod events;
pub mod laws;
pub mod pubkey;
pub mod registry;
pub mod seeds;
pub mod state;
pub mod transfer;
pub mod validation;

pub use accounts::{
    AccountInfo, AdminAction, InitializeRegistry, OperateOnAdapter, RegisterAdapter,
    UpdateAdapterMetadata, WithdrawFees,
};
pub use adapter::{
    deprecate_adapter, register_adapter, transfer_adapter_ownership, update_adapter_metadata,
};
pub use error::AgistryError;
pub use events::{
    AdapterMetadataUpdated, AdapterOwnershipTransferred, AdapterRegistered, AdapterStatusChanged,
    FeeRecipientSet, FeesWithdrawn, MetadataSchemaVersionSet, RegistrationFeeSet,
    RegistryInitialized, RegistryPauseStatusChanged,
};
pub use pubkey::Pubkey;
pub use registry::{
    initialize_registry, set_fee_recipient, set_metadata_schema_version, set_pause_status,
    set_registration_fee, withdraw_fees,
};
pub use seeds::{adapter_key, ADAPTER_SEED, REGISTRY_CONFIG_SEED};
pub use state::{AdapterAccount, AdapterStatus, RegistryConfig};
pub use transfer::{AccountMeta, Instruction};
pub use validation::{
    check_metadata_hash, check_schema_version, MAX_METADATA_HASH_LENGTH,
    MAX_SCHEMA_VERSION_LENGTH,
};
