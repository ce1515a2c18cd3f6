use crate::accounts::{
    AccountInfo, OperateOnAdapter, OperateOnAdapterView, RegisterAdapter, RegisterAdapterView,
    UpdateAdapterMetadata, UpdateAdapterMetadataView,
};
use crate::error::AgistryError;
use crate::events::{
    AdapterMetadataUpdated, AdapterMetadataUpdatedView, AdapterOwnershipTransferred,
    AdapterRegistered, AdapterRegisteredView, AdapterStatusChanged,
};
use crate::pubkey::Pubkey;
use crate::state::{AdapterAccountView, AdapterStatus, RegistryConfigView};
use crate::validation::{check_metadata_hash, metadata_hash_error};
use crate::transfer::{build_system_transfer, is_system_transfer, Instruction, InstructionView};
use vstd::prelude::*;

verus! {

/// The lamports that a registration moves from the fee payer's account to the
/// registry's: the fee, unless the two are one account.
pub open spec fn fee_moved(ctx: RegisterAdapterView) -> u64 {
    if ctx.fee_payer.key == ctx.registry_config_info.key {
        0
    } else {
        ctx.registry_config.registration_fee
    }
}

/// Why a registration is refused, if it is. The conditions are tested in this
/// order: the pause switch, the hash, the fee payer's balance, and at last the
/// room that is left in the registry's balance and in the counter.
pub open spec fn register_error(ctx: RegisterAdapterView, metadata_hash: Seq<char>) -> Option<
    AgistryError,
> {
    if ctx.registry_config.paused {
        Some(AgistryError::RegistryPaused)
    } else if metadata_hash_error(metadata_hash) is Some {
        metadata_hash_error(metadata_hash)
    } else if ctx.fee_payer.lamports < ctx.registry_config.registration_fee {
        Some(AgistryError::InsufficientFundsForFee)
    } else if ctx.registry_config_info.lamports + fee_moved(ctx) > u64::MAX {
        Some(AgistryError::NumericOverflow)
    } else if ctx.registry_config.adapter_counter == u64::MAX {
        Some(AgistryError::NumericOverflow)
    } else {
        None
    }
}

/// The accounts after a registration at time `now`: the counter is one higher
/// and is the id of the new record, the record is filled, and the fee has gone
/// from the fee payer to the registry.
pub open spec fn registered(
    ctx: RegisterAdapterView,
    metadata_hash: Seq<char>,
    now: i64,
) -> RegisterAdapterView {
    let id = (ctx.registry_config.adapter_counter + 1) as u64;
    RegisterAdapterView {
        adapter_account: AdapterAccountView {
            id,
            owner: ctx.owner,
            metadata_hash,
            status: AdapterStatus::Active,
            registration_timestamp: now,
            last_update_timestamp: now,
            bump: ctx.bump,
        },
        registry_config: RegistryConfigView { adapter_counter: id, ..ctx.registry_config },
        registry_config_info: AccountInfo {
            lamports: (ctx.registry_config_info.lamports + fee_moved(ctx)) as u64,
            ..ctx.registry_config_info
        },
        fee_payer: AccountInfo {
            lamports: (ctx.fee_payer.lamports - fee_moved(ctx)) as u64,
            ..ctx.fee_payer
        },
        ..ctx
    }
}

/// The notice of a registration.
pub open spec fn registration_event(
    ctx: RegisterAdapterView,
    metadata_hash: Seq<char>,
    now: i64,
) -> AdapterRegisteredView {
    AdapterRegisteredView {
        adapter_id: (ctx.registry_config.adapter_counter + 1) as u64,
        owner: ctx.owner,
        metadata_hash,
        registration_timestamp: now,
    }
}

/// Whether `fee_transfer` is what collects the fee of a registration: where a
/// fee is due, the system program's transfer of the fee from the fee payer's
/// account to the registry's, and else nothing.
pub open spec fn collects_registration_fee(
    ctx: RegisterAdapterView,
    fee_transfer: Option<InstructionView>,
) -> bool {
    if ctx.registry_config.registration_fee > 0 {
        &&& fee_transfer is Some
        &&& is_system_transfer(
            fee_transfer->0,
            ctx.fee_payer.key,
            ctx.registry_config_info.key,
            ctx.registry_config.registration_fee,
        )
    } else {
        fee_transfer is None
    }
}

/// Registers a new adapter for `ctx.owner` at time `now`.
///
/// On success the record in `ctx` is the new adapter, whose id is the
/// registry's counter after it went up by one, and the balances in `ctx` are
/// what they will be once the fee has been moved. Where a fee is due, the
/// instruction that moves it comes back beside the notice, for the caller to
/// hand to the runtime.
pub fn register_adapter(ctx: &mut RegisterAdapter, metadata_hash: String, now: i64) -> (result:
    Result<(AdapterRegistered, Option<Instruction>), AgistryError>)
    ensures
        match result {
            Ok((event, fee_transfer)) => {
                &&& register_error(old(ctx)@, metadata_hash@) is None
                &&& final(ctx)@ == registered(old(ctx)@, metadata_hash@, now)
                &&& final(ctx)@.adapter_account.wf()
                &&& event@ == registration_event(old(ctx)@, metadata_hash@, now)
                &&& collects_registration_fee(
                    old(ctx)@,
                    match fee_transfer {
                        Some(ix) => Some(ix@),
                        None => None,
                    },
                )
            },
            Err(error) => {
                &&& register_error(old(ctx)@, metadata_hash@) == Some(error)
                &&& *final(ctx) == *old(ctx)
            },
        },
{
    if ctx.registry_config.paused {
        return Err(AgistryError::RegistryPaused);
    }
    match check_metadata_hash(&metadata_hash) {
        Err(error) => {
            return Err(error);
        },
        Ok(_) => {},
    }
    let fee = ctx.registry_config.registration_fee;
    if ctx.fee_payer.lamports < fee {
        return Err(AgistryError::InsufficientFundsForFee);
    }
    let moved = if ctx.fee_payer.key == ctx.registry_config_info.key {
        0
    } else {
        fee
    };
    if ctx.registry_config_info.lamports > u64::MAX - moved {
        return Err(AgistryError::NumericOverflow);
    }
    let id = match ctx.registry_config.adapter_counter.checked_add(1) {
        Some(id) => id,
        None => {
            return Err(AgistryError::NumericOverflow);
        },
    };
    let fee_transfer = if fee > 0 {
        Some(build_system_transfer(&ctx.fee_payer.key, &ctx.registry_config_info.key, fee))
    } else {
        None
    };
    ctx.fee_payer.lamports = ctx.fee_payer.lamports - moved;
    ctx.registry_config_info.lamports = ctx.registry_config_info.lamports + moved;
    ctx.registry_config.adapter_counter = id;
    ctx.adapter_account.id = id;
    ctx.adapter_account.owner = ctx.owner;
    ctx.adapter_account.metadata_hash = metadata_hash.clone();
    ctx.adapter_account.status = AdapterStatus::Active;
    ctx.adapter_account.registration_timestamp = now;
    ctx.adapter_account.last_update_timestamp = now;
    ctx.adapter_account.bump = ctx.bump;
    Ok(
        (
            AdapterRegistered {
                adapter_id: id,
                owner: ctx.owner,
                metadata_hash,
                registration_timestamp: now,
            },
            fee_transfer,
        ),
    )
}

/// Why a call on an adapter is refused before the operation itself is looked
/// at: the caller is not the owner, or else the registry is paused.
pub open spec fn owner_call_error(caller: Pubkey, owner: Pubkey, paused: bool) -> Option<
    AgistryError,
> {
    if caller != owner {
        Some(AgistryError::Unauthorized)
    } else if paused {
        Some(AgistryError::RegistryPaused)
    } else {
        None
    }
}

fn check_owner_call(caller: &Pubkey, owner: &Pubkey, paused: bool) -> (result: Result<
    (),
    AgistryError,
>)
    ensures
        match result {
            Ok(_) => owner_call_error(*caller, *owner, paused) is None,
            Err(error) => owner_call_error(*caller, *owner, paused) == Some(error),
        },
{
    if *caller != *owner {
        Err(AgistryError::Unauthorized)
    } else if paused {
        Err(AgistryError::RegistryPaused)
    } else {
        Ok(())
    }
}

/// Why an update of the metadata is refused, if it is. The conditions are
/// tested in this order: the caller, the pause switch, the status of the
/// adapter, the new hash.
pub open spec fn update_metadata_error(
    ctx: UpdateAdapterMetadataView,
    new_metadata_hash: Seq<char>,
) -> Option<AgistryError> {
    if owner_call_error(ctx.owner, ctx.adapter_account.owner, ctx.registry_config.paused)
        is Some {
        owner_call_error(ctx.owner, ctx.adapter_account.owner, ctx.registry_config.paused)
    } else if ctx.adapter_account.status != AdapterStatus::Active {
        Some(AgistryError::CannotUpdateDeprecatedAdapter)
    } else {
        metadata_hash_error(new_metadata_hash)
    }
}

/// The accounts after an update of the metadata at time `now`: the record has
/// the new hash and the new time of update, and nothing else has changed.
pub open spec fn metadata_updated(
    ctx: UpdateAdapterMetadataView,
    new_metadata_hash: Seq<char>,
    now: i64,
) -> UpdateAdapterMetadataView {
    UpdateAdapterMetadataView {
        adapter_account: AdapterAccountView {
            metadata_hash: new_metadata_hash,
            last_update_timestamp: now,
            ..ctx.adapter_account
        },
        ..ctx
    }
}

/// Replaces the metadata hash of an active adapter, for its owner.
pub fn update_adapter_metadata(
    ctx: &mut UpdateAdapterMetadata,
    new_metadata_hash: String,
    now: i64,
) -> (result: Result<AdapterMetadataUpdated, AgistryError>)
    ensures
        match result {
            Ok(event) => {
                &&& update_metadata_error(old(ctx)@, new_metadata_hash@) is None
                &&& final(ctx)@ == metadata_updated(old(ctx)@, new_metadata_hash@, now)
                &&& old(ctx)@.adapter_account.wf() ==> final(ctx)@.adapter_account.wf()
                &&& event@ == (AdapterMetadataUpdatedView {
                    adapter_id: old(ctx).adapter_account.id,
                    new_metadata_hash: new_metadata_hash@,
                    update_timestamp: now,
                })
            },
            Err(error) => {
                &&& update_metadata_error(old(ctx)@, new_metadata_hash@) == Some(error)
                &&& *final(ctx) == *old(ctx)
            },
        },
{
    match check_owner_call(&ctx.owner, &ctx.adapter_account.owner, ctx.registry_config.paused) {
        Err(error) => {
            return Err(error);
        },
        Ok(_) => {},
    }
    match ctx.adapter_account.status {
        AdapterStatus::Deprecated => {
            return Err(AgistryError::CannotUpdateDeprecatedAdapter);
        },
        AdapterStatus::Active => {},
    }
    match check_metadata_hash(&new_metadata_hash) {
        Err(error) => {
            return Err(error);
        },
        Ok(_) => {},
    }
    ctx.adapter_account.metadata_hash = new_metadata_hash.clone();
    ctx.adapter_account.last_update_timestamp = now;
    Ok(
        AdapterMetadataUpdated {
            adapter_id: ctx.adapter_account.id,
            new_metadata_hash,
            update_timestamp: now,
        },
    )
}

/// Why a deprecation is refused, if it is. The conditions are tested in this
/// order: the caller, the pause switch, the status of the adapter.
pub open spec fn deprecate_error(ctx: OperateOnAdapterView) -> Option<AgistryError> {
    if owner_call_error(ctx.owner, ctx.adapter_account.owner, ctx.registry_config.paused)
        is Some {
        owner_call_error(ctx.owner, ctx.adapter_account.owner, ctx.registry_config.paused)
    } else if ctx.adapter_account.status != AdapterStatus::Active {
        Some(AgistryError::AdapterAlreadyDeprecated)
    } else {
        None
    }
}

/// The accounts after a deprecation at time `now`: the record is deprecated
/// and has the new time of update, and nothing else has changed.
pub open spec fn deprecated(ctx: OperateOnAdapterView, now: i64) -> OperateOnAdapterView {
    OperateOnAdapterView {
        adapter_account: AdapterAccountView {
            status: AdapterStatus::Deprecated,
            last_update_timestamp: now,
            ..ctx.adapter_account
        },
        ..ctx
    }
}

/// Deprecates an active adapter, for its owner. Nothing undoes this.
pub fn deprecate_adapter(ctx: &mut OperateOnAdapter, now: i64) -> (result: Result<
    AdapterStatusChanged,
    AgistryError,
>)
    ensures
        match result {
            Ok(event) => {
                &&& deprecate_error(old(ctx)@) is None
                &&& final(ctx)@ == deprecated(old(ctx)@, now)
                &&& old(ctx)@.adapter_account.wf() ==> final(ctx)@.adapter_account.wf()
                &&& event == (AdapterStatusChanged {
                    adapter_id: old(ctx).adapter_account.id,
                    new_status: AdapterStatus::Deprecated,
                    update_timestamp: now,
                })
            },
            Err(error) => {
                &&& deprecate_error(old(ctx)@) == Some(error)
                &&& *final(ctx) == *old(ctx)
            },
        },
{
    match check_owner_call(&ctx.owner, &ctx.adapter_account.owner, ctx.registry_config.paused) {
        Err(error) => {
            return Err(error);
        },
        Ok(_) => {},
    }
    match ctx.adapter_account.status {
        AdapterStatus::Deprecated => {
            return Err(AgistryError::AdapterAlreadyDeprecated);
        },
        AdapterStatus::Active => {},
    }
    ctx.adapter_account.status = AdapterStatus::Deprecated;
    ctx.adapter_account.last_update_timestamp = now;
    Ok(
        AdapterStatusChanged {
            adapter_id: ctx.adapter_account.id,
            new_status: AdapterStatus::Deprecated,
            update_timestamp: now,
        },
    )
}

/// Why a transfer of ownership is refused, if it is. The conditions are tested
/// in this order: the caller, the pause switch, the new owner. The status of
/// the adapter plays no part.
pub open spec fn transfer_ownership_error(ctx: OperateOnAdapterView, new_owner: Pubkey) -> Option<
    AgistryError,
> {
    if owner_call_error(ctx.owner, ctx.adapter_account.owner, ctx.registry_config.paused)
        is Some {
        owner_call_error(ctx.owner, ctx.adapter_account.owner, ctx.registry_config.paused)
    } else if new_owner.is_default() {
        Some(AgistryError::NewOwnerCannotBeDefault)
    } else {
        None
    }
}

/// The accounts after a transfer of ownership: the record has the new owner,
/// and nothing else has changed, neither its status nor its times.
pub open spec fn ownership_transferred(
    ctx: OperateOnAdapterView,
    new_owner: Pubkey,
) -> OperateOnAdapterView {
    OperateOnAdapterView {
        adapter_account: AdapterAccountView { owner: new_owner, ..ctx.adapter_account },
        ..ctx
    }
}

/// Hands an adapter, active or deprecated, from its owner to `new_owner`.
pub fn transfer_adapter_ownership(ctx: &mut OperateOnAdapter, new_owner: Pubkey) -> (result:
    Result<AdapterOwnershipTransferred, AgistryError>)
    ensures
        match result {
            Ok(event) => {
                &&& transfer_ownership_error(old(ctx)@, new_owner) is None
                &&& final(ctx)@ == ownership_transferred(old(ctx)@, new_owner)
                &&& old(ctx)@.adapter_account.wf() ==> final(ctx)@.adapter_account.wf()
                &&& event == (AdapterOwnershipTransferred {
                    adapter_id: old(ctx).adapter_account.id,
                    previous_owner: old(ctx).adapter_account.owner,
                    new_owner,
                })
            },
            Err(error) => {
                &&& transfer_ownership_error(old(ctx)@, new_owner) == Some(error)
                &&& *final(ctx) == *old(ctx)
            },
        },
{
    match check_owner_call(&ctx.owner, &ctx.adapter_account.owner, ctx.registry_config.paused) {
        Err(error) => {
            return Err(error);
        },
        Ok(_) => {},
    }
    if new_owner.is_default() {
        return Err(AgistryError::NewOwnerCannotBeDefault);
    }
    let previous_owner = ctx.adapter_account.owner;
    ctx.adapter_account.owner = new_owner;
    Ok(
        AdapterOwnershipTransferred {
            adapter_id: ctx.adapter_account.id,
            previous_owner,
            new_owner,
        },
    )
}

} // verus!
