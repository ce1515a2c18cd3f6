use vstd::prelude::*;

verus! {

/// Why an operation was refused. A refused operation changes nothing.
#[derive(Clone, Copy, Debug, PartialEq, Eq, Hash, Structural)]
pub enum AgistryError {
    /// The metadata hash is longer than `MAX_METADATA_HASH_LENGTH` bytes.
    MetadataHashTooLong,
    /// The metadata hash is empty.
    MetadataHashEmpty,
    /// The schema version is longer than `MAX_SCHEMA_VERSION_LENGTH` bytes.
    SchemaVersionTooLong,
    /// The caller is not the owner of the adapter.
    Unauthorized,
    /// The caller is not the admin of the registry.
    UnauthorizedAdmin,
    /// The adapter is deprecated, so its metadata can no longer change.
    CannotUpdateDeprecatedAdapter,
    /// The adapter is deprecated already.
    AdapterAlreadyDeprecated,
    /// The new owner, or the new fee recipient, is the all-zero address.
    NewOwnerCannotBeDefault,
    /// A counter or a balance would leave the range of `u64`.
    NumericOverflow,
    /// The registry is paused.
    RegistryPaused,
    /// The fee payer holds less than the registration fee.
    InsufficientFundsForFee,
    /// The account offered to receive a withdrawal is not the configured fee
    /// recipient.
    IncorrectFeeRecipient,
    /// The registry holds no fees.
    NoFeesToWithdraw,
}

} // verus!
