use crate::pubkey::Pubkey;
use crate::state::AdapterStatus;
use vstd::prelude::*;

verus! {

/// The registry was set up.
#[derive(Clone, Debug, PartialEq, Eq)]
pub struct RegistryInitialized {
    pub admin: Pubkey,
    pub metadata_schema_version: String,
    pub registration_fee: u64,
    pub fee_recipient: Pubkey,
}

pub struct RegistryInitializedView {
    pub admin: Pubkey,
    pub metadata_schema_version: Seq<char>,
    pub registration_fee: u64,
    pub fee_recipient: Pubkey,
}

impl View for RegistryInitialized {
    type V = RegistryInitializedView;

    open spec fn view(&self) -> RegistryInitializedView {
        RegistryInitializedView {
            admin: self.admin,
            metadata_schema_version: self.metadata_schema_version@,
            registration_fee: self.registration_fee,
            fee_recipient: self.fee_recipient,
        }
    }
}

/// An adapter was registered.
#[derive(Clone, Debug, PartialEq, Eq)]
pub struct AdapterRegistered {
    pub adapter_id: u64,
    pub owner: Pubkey,
    pub metadata_hash: String,
    pub registration_timestamp: i64,
}

pub struct AdapterRegisteredView {
    pub adapter_id: u64,
    pub owner: Pubkey,
    pub metadata_hash: Seq<char>,
    pub registration_timestamp: i64,
}

impl View for AdapterRegistered {
    type V = AdapterRegisteredView;

    open spec fn view(&self) -> AdapterRegisteredView {
        AdapterRegisteredView {
            adapter_id: self.adapter_id,
            owner: self.owner,
            metadata_hash: self.metadata_hash@,
            registration_timestamp: self.registration_timestamp,
        }
    }
}

/// An adapter's metadata hash was replaced.
#[derive(Clone, Debug, PartialEq, Eq)]
pub struct AdapterMetadataUpdated {
    pub adapter_id: u64,
    pub new_metadata_hash: String,
    pub update_timestamp: i64,
}

pub struct AdapterMetadataUpdatedView {
    pub adapter_id: u64,
    pub new_metadata_hash: Seq<char>,
    pub update_timestamp: i64,
}

impl View for AdapterMetadataUpdated {
    type V = AdapterMetadataUpdatedView;

    open spec fn view(&self) -> AdapterMetadataUpdatedView {
        AdapterMetadataUpdatedView {
            adapter_id: self.adapter_id,
            new_metadata_hash: self.new_metadata_hash@,
            update_timestamp: self.update_timestamp,
        }
    }
}

/// An adapter's status changed.
#[derive(Clone, Copy, Debug, PartialEq, Eq)]
pub struct AdapterStatusChanged {
    pub adapter_id: u64,
    pub new_status: AdapterStatus,
    pub update_timestamp: i64,
}

/// An adapter went from one owner to another.
#[derive(Clone, Copy, Debug, PartialEq, Eq)]
pub struct AdapterOwnershipTransferred {
    pub adapter_id: u64,
    pub previous_owner: Pubkey,
    pub new_owner: Pubkey,
}

/// The pause switch was set.
#[derive(Clone, Copy, Debug, PartialEq, Eq)]
pub struct RegistryPauseStatusChanged {
    pub paused: bool,
}

/// The schema version was replaced.
#[derive(Clone, Debug, PartialEq, Eq)]
pub struct MetadataSchemaVersionSet {
    pub version: String,
}

pub struct MetadataSchemaVersionSetView {
    pub version: Seq<char>,
}

impl View for MetadataSchemaVersionSet {
    type V = MetadataSchemaVersionSetView;

    open spec fn view(&self) -> MetadataSchemaVersionSetView {
        MetadataSchemaVersionSetView { version: self.version@ }
    }
}

/// The registration fee was replaced.
#[derive(Clone, Copy, Debug, PartialEq, Eq)]
pub struct RegistrationFeeSet {
    pub new_fee: u64,
}

/// The fee recipient was replaced.
#[derive(Clone, Copy, Debug, PartialEq, Eq)]
pub struct FeeRecipientSet {
    pub new_recipient: Pubkey,
}

/// The fees that the registry held went to the fee recipient.
#[derive(Clone, Copy, Debug, PartialEq, Eq)]
pub struct FeesWithdrawn {
    pub recipient: Pubkey,
    pub amount: u64,
}

} // verus!
