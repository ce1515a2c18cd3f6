use crate::pubkey::Pubkey;
use crate::validation::{metadata_hash_error, schema_version_error, MAX_SCHEMA_VERSION_LENGTH};
use vstd::prelude::*;

verus! {

/// Where an adapter stands in its life. `Deprecated` is final.
#[derive(Clone, Copy, Debug, PartialEq, Eq, Hash, Structural)]
pub enum AdapterStatus {
    Active,
    Deprecated,
}

/// The one configuration record of a registry.
#[derive(Clone, Debug, PartialEq, Eq)]
pub struct RegistryConfig {
    /// The only identity that may administer the registry.
    pub admin: Pubkey,
    /// How many adapters were registered so far; the last id handed out.
    pub adapter_counter: u64,
    /// Tag of the format that metadata is written in.
    pub metadata_schema_version: String,
    /// Price of one registration, in lamports; 0 makes registration free.
    pub registration_fee: u64,
    /// Who receives the fees on withdrawal.
    pub fee_recipient: Pubkey,
    /// While set, adapters can neither be registered nor changed.
    pub paused: bool,
    /// Bump seed of the address that the record is stored at.
    pub bump: u8,
}

/// A `RegistryConfig` with its text as a sequence of characters.
pub struct RegistryConfigView {
    pub admin: Pubkey,
    pub adapter_counter: u64,
    pub metadata_schema_version: Seq<char>,
    pub registration_fee: u64,
    pub fee_recipient: Pubkey,
    pub paused: bool,
    pub bump: u8,
}

impl View for RegistryConfig {
    type V = RegistryConfigView;

    open spec fn view(&self) -> RegistryConfigView {
        RegistryConfigView {
            admin: self.admin,
            adapter_counter: self.adapter_counter,
            metadata_schema_version: self.metadata_schema_version@,
            registration_fee: self.registration_fee,
            fee_recipient: self.fee_recipient,
            paused: self.paused,
            bump: self.bump,
        }
    }
}

impl RegistryConfigView {
    /// The schema version respects its bound.
    pub open spec fn wf(self) -> bool {
        schema_version_error(self.metadata_schema_version) is None
    }
}

impl RegistryConfig {
    /// Bytes of a stored configuration besides its schema version: the fixed
    /// fields and a discriminator of 8 bytes.
    pub const LEN_BASE: usize = 32 + 8 + 8 + 32 + 1 + 1 + 8;

    /// Bytes to reserve for a stored configuration: `LEN_BASE` and a
    /// length-prefixed schema version of the greatest length.
    pub const LEN: usize = Self::LEN_BASE + (4 + MAX_SCHEMA_VERSION_LENGTH);
}

/// The record of one registered adapter.
#[derive(Clone, Debug, PartialEq, Eq)]
pub struct AdapterAccount {
    /// Number of the adapter: 1 for the first one registered, never reused.
    pub id: u64,
    /// Who may update, deprecate and hand over the adapter.
    pub owner: Pubkey,
    /// Pointer to the adapter's description, kept elsewhere.
    pub metadata_hash: String,
    /// Active until the owner deprecates the adapter.
    pub status: AdapterStatus,
    /// Time of registration.
    pub registration_timestamp: i64,
    /// Time of the last metadata update or of the deprecation.
    pub last_update_timestamp: i64,
    /// Bump seed of the address that the record is stored at.
    pub bump: u8,
}

/// An `AdapterAccount` with its text as a sequence of characters.
pub struct AdapterAccountView {
    pub id: u64,
    pub owner: Pubkey,
    pub metadata_hash: Seq<char>,
    pub status: AdapterStatus,
    pub registration_timestamp: i64,
    pub last_update_timestamp: i64,
    pub bump: u8,
}

impl View for AdapterAccount {
    type V = AdapterAccountView;

    open spec fn view(&self) -> AdapterAccountView {
        AdapterAccountView {
            id: self.id,
            owner: self.owner,
            metadata_hash: self.metadata_hash@,
            status: self.status,
            registration_timestamp: self.registration_timestamp,
            last_update_timestamp: self.last_update_timestamp,
            bump: self.bump,
        }
    }
}

impl AdapterAccountView {
    /// The record is one that a registration can have made: it has an id and
    /// its hash respects its bounds.
    pub open spec fn wf(self) -> bool {
        &&& self.id >= 1
        &&& metadata_hash_error(self.metadata_hash) is None
    }
}

impl AdapterAccount {
    /// Bytes of a stored record besides its hash: the fixed fields and a
    /// discriminator of 8 bytes.
    pub const LEN_BASE: usize = 8 + 32 + 1 + 8 + 8 + 1 + 8;

    /// Size of a stored record whose hash has `hash_len` bytes: `LEN_BASE`, a
    /// length prefix of 4 bytes, and the hash.
    pub open spec fn spec_len_with_hash(hash_len: nat) -> nat {
        Self::LEN_BASE as nat + 4 + hash_len
    }

    /// Bytes to reserve for a stored record whose hash has `hash_len` bytes.
    #[allow(non_snake_case)]
    pub fn LEN_WITH_HASH(hash_len: usize) -> (len: usize)
        requires
            Self::spec_len_with_hash(hash_len as nat) <= usize::MAX,
        ensures
            len == Self::spec_len_with_hash(hash_len as nat),
    {
        Self::LEN_BASE + (4 + hash_len)
    }
}

} // verus!
