use crate::pubkey::Pubkey;
use crate::state::{AdapterAccount, AdapterAccountView, RegistryConfig, RegistryConfigView};
use vstd::prelude::*;

verus! {

/// What the registry reads of an account that holds lamports: where it is and
/// how much it holds.
#[derive(Clone, Copy, Debug, PartialEq, Eq)]
pub struct AccountInfo {
    pub key: Pubkey,
    pub lamports: u64,
}

/// The accounts of `initialize_registry`.
#[derive(Clone, Debug, PartialEq, Eq)]
pub struct InitializeRegistry {
    /// The record to fill; what it held before does not matter.
    pub registry_config: RegistryConfig,
    /// The caller, who becomes the admin.
    pub admin: Pubkey,
    /// Bump seed of the address of `registry_config`.
    pub bump: u8,
}

pub struct InitializeRegistryView {
    pub registry_config: RegistryConfigView,
    pub admin: Pubkey,
    pub bump: u8,
}

impl View for InitializeRegistry {
    type V = InitializeRegistryView;

    open spec fn view(&self) -> InitializeRegistryView {
        InitializeRegistryView {
            registry_config: self.registry_config@,
            admin: self.admin,
            bump: self.bump,
        }
    }
}

/// The accounts of `register_adapter`.
#[derive(Clone, Debug, PartialEq, Eq)]
pub struct RegisterAdapter {
    /// The record to fill; what it held before does not matter.
    pub adapter_account: AdapterAccount,
    pub registry_config: RegistryConfig,
    /// The account that stores `registry_config`, where fees are kept until
    /// they are withdrawn.
    pub registry_config_info: AccountInfo,
    /// The caller, who becomes the owner of the adapter.
    pub owner: Pubkey,
    /// Who pays the registration fee; may be the owner or somebody else.
    pub fee_payer: AccountInfo,
    /// Bump seed of the address of `adapter_account`.
    pub bump: u8,
}

pub struct RegisterAdapterView {
    pub adapter_account: AdapterAccountView,
    pub registry_config: RegistryConfigView,
    pub registry_config_info: AccountInfo,
    pub owner: Pubkey,
    pub fee_payer: AccountInfo,
    pub bump: u8,
}

impl View for RegisterAdapter {
    type V = RegisterAdapterView;

    open spec fn view(&self) -> RegisterAdapterView {
        RegisterAdapterView {
            adapter_account: self.adapter_account@,
            registry_config: self.registry_config@,
            registry_config_info: self.registry_config_info,
            owner: self.owner,
            fee_payer: self.fee_payer,
            bump: self.bump,
        }
    }
}

/// The accounts of `update_adapter_metadata`.
#[derive(Clone, Debug, PartialEq, Eq)]
pub struct UpdateAdapterMetadata {
    pub adapter_account: AdapterAccount,
    /// Read for the pause switch only.
    pub registry_config: RegistryConfig,
    /// The caller.
    pub owner: Pubkey,
}

pub struct UpdateAdapterMetadataView {
    pub adapter_account: AdapterAccountView,
    pub registry_config: RegistryConfigView,
    pub owner: Pubkey,
}

impl View for UpdateAdapterMetadata {
    type V = UpdateAdapterMetadataView;

    open spec fn view(&self) -> UpdateAdapterMetadataView {
        UpdateAdapterMetadataView {
            adapter_account: self.adapter_account@,
            registry_config: self.registry_config@,
            owner: self.owner,
        }
    }
}

/// The accounts of `deprecate_adapter` and of `transfer_adapter_ownership`.
#[derive(Clone, Debug, PartialEq, Eq)]
pub struct OperateOnAdapter {
    pub adapter_account: AdapterAccount,
    /// Read for the pause switch only.
    pub registry_config: RegistryConfig,
    /// The caller.
    pub owner: Pubkey,
}

pub struct OperateOnAdapterView {
    pub adapter_account: AdapterAccountView,
    pub registry_config: RegistryConfigView,
    pub owner: Pubkey,
}

impl View for OperateOnAdapter {
    type V = OperateOnAdapterView;

    open spec fn view(&self) -> OperateOnAdapterView {
        OperateOnAdapterView {
            adapter_account: self.adapter_account@,
            registry_config: self.registry_config@,
            owner: self.owner,
        }
    }
}

/// The accounts of the operations that change the configuration.
#[derive(Clone, Debug, PartialEq, Eq)]
pub struct AdminAction {
    pub registry_config: RegistryConfig,
    /// The caller.
    pub admin: Pubkey,
}

pub struct AdminActionView {
    pub registry_config: RegistryConfigView,
    pub admin: Pubkey,
}

impl View for AdminAction {
    type V = AdminActionView;

    open spec fn view(&self) -> AdminActionView {
        AdminActionView { registry_config: self.registry_config@, admin: self.admin }
    }
}

/// The accounts of `withdraw_fees`.
#[derive(Clone, Debug, PartialEq, Eq)]
pub struct WithdrawFees {
    pub registry_config: RegistryConfig,
    /// The account that stores `registry_config`, where fees are kept until
    /// they are withdrawn.
    pub registry_config_info: AccountInfo,
    /// The account that is to receive the fees.
    pub fee_recipient: AccountInfo,
    /// The caller.
    pub admin: Pubkey,
}

pub struct WithdrawFeesView {
    pub registry_config: RegistryConfigView,
    pub registry_config_info: AccountInfo,
    pub fee_recipient: AccountInfo,
    pub admin: Pubkey,
}

impl View for WithdrawFees {
    type V = WithdrawFeesView;

    open spec fn view(&self) -> WithdrawFeesView {
        WithdrawFeesView {
            registry_config: self.registry_config@,
            registry_config_info: self.registry_config_info,
            fee_recipient: self.fee_recipient,
            admin: self.admin,
        }
    }
}

} // verus!
