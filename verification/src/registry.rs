use crate::accounts::{
    AccountInfo, AdminAction, AdminActionView, InitializeRegistry, InitializeRegistryView,
    WithdrawFees, WithdrawFeesView,
};
use crate::error::AgistryError;
use crate::events::{
    FeeRecipientSet, FeesWithdrawn, MetadataSchemaVersionSet, MetadataSchemaVersionSetView,
    RegistrationFeeSet, RegistryInitialized, RegistryInitializedView, RegistryPauseStatusChanged,
};
use crate::pubkey::Pubkey;
use crate::state::RegistryConfigView;
use crate::validation::{check_schema_version, schema_version_error};
use vstd::prelude::*;

verus! {

/// The accounts after the registry was set up: the caller is the admin, no
/// adapter has been registered, and the registry is not paused.
pub open spec fn initialized(
    ctx: InitializeRegistryView,
    metadata_schema_version: Seq<char>,
    registration_fee: u64,
    fee_recipient: Pubkey,
) -> InitializeRegistryView {
    InitializeRegistryView {
        registry_config: RegistryConfigView {
            admin: ctx.admin,
            adapter_counter: 0,
            metadata_schema_version,
            registration_fee,
            fee_recipient,
            paused: false,
            bump: ctx.bump,
        },
        ..ctx
    }
}

/// Sets the registry up, with the caller as its admin. It is refused only
/// where the schema version is too long.
pub fn initialize_registry(
    ctx: &mut InitializeRegistry,
    initial_metadata_schema_version: String,
    initial_registration_fee: u64,
    initial_fee_recipient: Pubkey,
) -> (result: Result<RegistryInitialized, AgistryError>)
    ensures
        match result {
            Ok(event) => {
                &&& schema_version_error(initial_metadata_schema_version@) is None
                &&& final(ctx)@ == initialized(
                    old(ctx)@,
                    initial_metadata_schema_version@,
                    initial_registration_fee,
                    initial_fee_recipient,
                )
                &&& final(ctx)@.registry_config.wf()
                &&& event@ == (RegistryInitializedView {
                    admin: old(ctx).admin,
                    metadata_schema_version: initial_metadata_schema_version@,
                    registration_fee: initial_registration_fee,
                    fee_recipient: initial_fee_recipient,
                })
            },
            Err(error) => {
                &&& schema_version_error(initial_metadata_schema_version@) == Some(error)
                &&& *final(ctx) == *old(ctx)
            },
        },
{
    match check_schema_version(&initial_metadata_schema_version) {
        Err(error) => {
            return Err(error);
        },
        Ok(_) => {},
    }
    ctx.registry_config.admin = ctx.admin;
    ctx.registry_config.adapter_counter = 0;
    ctx.registry_config.metadata_schema_version = initial_metadata_schema_version.clone();
    ctx.registry_config.registration_fee = initial_registration_fee;
    ctx.registry_config.fee_recipient = initial_fee_recipient;
    ctx.registry_config.paused = false;
    ctx.registry_config.bump = ctx.bump;
    Ok(
        RegistryInitialized {
            admin: ctx.admin,
            metadata_schema_version: initial_metadata_schema_version,
            registration_fee: initial_registration_fee,
            fee_recipient: initial_fee_recipient,
        },
    )
}

/// Why a call of the admin is refused before the operation itself is looked
/// at: the caller is not the admin. The pause switch plays no part.
pub open spec fn admin_call_error(caller: Pubkey, admin: Pubkey) -> Option<AgistryError> {
    if caller != admin {
        Some(AgistryError::UnauthorizedAdmin)
    } else {
        None
    }
}

fn check_admin_call(caller: &Pubkey, admin: &Pubkey) -> (result: Result<(), AgistryError>)
    ensures
        match result {
            Ok(_) => admin_call_error(*caller, *admin) is None,
            Err(error) => admin_call_error(*caller, *admin) == Some(error),
        },
{
    if *caller != *admin {
        Err(AgistryError::UnauthorizedAdmin)
    } else {
        Ok(())
    }
}

/// The accounts after the pause switch was set to `paused`.
pub open spec fn pause_status_set(ctx: AdminActionView, paused: bool) -> AdminActionView {
    AdminActionView {
        registry_config: RegistryConfigView { paused, ..ctx.registry_config },
        ..ctx
    }
}

/// Sets the pause switch, for the admin, whatever it was before.
pub fn set_pause_status(ctx: &mut AdminAction, paused: bool) -> (result: Result<
    RegistryPauseStatusChanged,
    AgistryError,
>)
    ensures
        match result {
            Ok(event) => {
                &&& admin_call_error(old(ctx).admin, old(ctx).registry_config.admin) is None
                &&& final(ctx)@ == pause_status_set(old(ctx)@, paused)
                &&& event == (RegistryPauseStatusChanged { paused })
            },
            Err(error) => {
                &&& admin_call_error(old(ctx).admin, old(ctx).registry_config.admin) == Some(error)
                &&& *final(ctx) == *old(ctx)
            },
        },
{
    match check_admin_call(&ctx.admin, &ctx.registry_config.admin) {
        Err(error) => {
            return Err(error);
        },
        Ok(_) => {},
    }
    ctx.registry_config.paused = paused;
    Ok(RegistryPauseStatusChanged { paused })
}

/// Why a new schema version is refused, if it is: the caller is not the admin,
/// or else the version is too long.
pub open spec fn set_schema_version_error(ctx: AdminActionView, new_version: Seq<char>) -> Option<
    AgistryError,
> {
    if admin_call_error(ctx.admin, ctx.registry_config.admin) is Some {
        admin_call_error(ctx.admin, ctx.registry_config.admin)
    } else {
        schema_version_error(new_version)
    }
}

/// The accounts after the schema version was replaced by `new_version`.
pub open spec fn schema_version_set(
    ctx: AdminActionView,
    new_version: Seq<char>,
) -> AdminActionView {
    AdminActionView {
        registry_config: RegistryConfigView {
            metadata_schema_version: new_version,
            ..ctx.registry_config
        },
        ..ctx
    }
}

/// Replaces the schema version, for the admin.
pub fn set_metadata_schema_version(ctx: &mut AdminAction, new_version: String) -> (result: Result<
    MetadataSchemaVersionSet,
    AgistryError,
>)
    ensures
        match result {
            Ok(event) => {
                &&& set_schema_version_error(old(ctx)@, new_version@) is None
                &&& final(ctx)@ == schema_version_set(old(ctx)@, new_version@)
                &&& final(ctx)@.registry_config.wf()
                &&& event@ == (MetadataSchemaVersionSetView { version: new_version@ })
            },
            Err(error) => {
                &&& set_schema_version_error(old(ctx)@, new_version@) == Some(error)
                &&& *final(ctx) == *old(ctx)
            },
        },
{
    match check_admin_call(&ctx.admin, &ctx.registry_config.admin) {
        Err(error) => {
            return Err(error);
        },
        Ok(_) => {},
    }
    match check_schema_version(&new_version) {
        Err(error) => {
            return Err(error);
        },
        Ok(_) => {},
    }
    ctx.registry_config.metadata_schema_version = new_version.clone();
    Ok(MetadataSchemaVersionSet { version: new_version })
}

/// The accounts after the registration fee was replaced by `new_fee`.
pub open spec fn registration_fee_set(ctx: AdminActionView, new_fee: u64) -> AdminActionView {
    AdminActionView {
        registry_config: RegistryConfigView { registration_fee: new_fee, ..ctx.registry_config },
        ..ctx
    }
}

/// Replaces the registration fee, for the admin. Every amount is accepted.
pub fn set_registration_fee(ctx: &mut AdminAction, new_fee: u64) -> (result: Result<
    RegistrationFeeSet,
    AgistryError,
>)
    ensures
        match result {
            Ok(event) => {
                &&& admin_call_error(old(ctx).admin, old(ctx).registry_config.admin) is None
                &&& final(ctx)@ == registration_fee_set(old(ctx)@, new_fee)
                &&& event == (RegistrationFeeSet { new_fee })
            },
            Err(error) => {
                &&& admin_call_error(old(ctx).admin, old(ctx).registry_config.admin) == Some(error)
                &&& *final(ctx) == *old(ctx)
            },
        },
{
    match check_admin_call(&ctx.admin, &ctx.registry_config.admin) {
        Err(error) => {
            return Err(error);
        },
        Ok(_) => {},
    }
    ctx.registry_config.registration_fee = new_fee;
    Ok(RegistrationFeeSet { new_fee })
}

/// Why a new fee recipient is refused, if it is: the caller is not the admin,
/// or else the recipient is the all-zero address.
pub open spec fn set_fee_recipient_error(ctx: AdminActionView, new_recipient: Pubkey) -> Option<
    AgistryError,
> {
    if admin_call_error(ctx.admin, ctx.registry_config.admin) is Some {
        admin_call_error(ctx.admin, ctx.registry_config.admin)
    } else if new_recipient.is_default() {
        Some(AgistryError::NewOwnerCannotBeDefault)
    } else {
        None
    }
}

/// The accounts after the fee recipient was replaced by `new_recipient`.
pub open spec fn fee_recipient_set(ctx: AdminActionView, new_recipient: Pubkey) -> AdminActionView {
    AdminActionView {
        registry_config: RegistryConfigView { fee_recipient: new_recipient, ..ctx.registry_config },
        ..ctx
    }
}

/// Replaces the fee recipient, for the admin.
pub fn set_fee_recipient(ctx: &mut AdminAction, new_recipient: Pubkey) -> (result: Result<
    FeeRecipientSet,
    AgistryError,
>)
    ensures
        match result {
            Ok(event) => {
                &&& set_fee_recipient_error(old(ctx)@, new_recipient) is None
                &&& final(ctx)@ == fee_recipient_set(old(ctx)@, new_recipient)
                &&& event == (FeeRecipientSet { new_recipient })
            },
            Err(error) => {
                &&& set_fee_recipient_error(old(ctx)@, new_recipient) == Some(error)
                &&& *final(ctx) == *old(ctx)
            },
        },
{
    match check_admin_call(&ctx.admin, &ctx.registry_config.admin) {
        Err(error) => {
            return Err(error);
        },
        Ok(_) => {},
    }
    if new_recipient.is_default() {
        return Err(AgistryError::NewOwnerCannotBeDefault);
    }
    ctx.registry_config.fee_recipient = new_recipient;
    Ok(FeeRecipientSet { new_recipient })
}

/// Whether a withdrawal has anything to move: it has not where the account
/// that keeps the fees is itself the configured recipient.
pub open spec fn withdrawal_moves(ctx: WithdrawFeesView) -> bool {
    ctx.registry_config.fee_recipient != ctx.registry_config_info.key
}

/// Why a withdrawal is refused, if it is. The conditions are tested in this
/// order: the caller, the account that is to receive, the balance that the
/// registry holds, and at last the room that is left in the receiving balance.
pub open spec fn withdraw_error(ctx: WithdrawFeesView) -> Option<AgistryError> {
    if admin_call_error(ctx.admin, ctx.registry_config.admin) is Some {
        admin_call_error(ctx.admin, ctx.registry_config.admin)
    } else if ctx.fee_recipient.key != ctx.registry_config.fee_recipient {
        Some(AgistryError::IncorrectFeeRecipient)
    } else if ctx.registry_config_info.lamports == 0 {
        Some(AgistryError::NoFeesToWithdraw)
    } else if withdrawal_moves(ctx) && ctx.fee_recipient.lamports
        + ctx.registry_config_info.lamports > u64::MAX {
        Some(AgistryError::NumericOverflow)
    } else {
        None
    }
}

/// The accounts after a withdrawal: all that the registry held has gone to the
/// recipient, unless the registry's account is itself the recipient, in which
/// case nothing has changed.
pub open spec fn withdrawn(ctx: WithdrawFeesView) -> WithdrawFeesView {
    if withdrawal_moves(ctx) {
        WithdrawFeesView {
            registry_config_info: AccountInfo { lamports: 0, ..ctx.registry_config_info },
            fee_recipient: AccountInfo {
                lamports: (ctx.fee_recipient.lamports + ctx.registry_config_info.lamports) as u64,
                ..ctx.fee_recipient
            },
            ..ctx
        }
    } else {
        ctx
    }
}

/// The notice of a withdrawal, which there is only where lamports have moved.
pub open spec fn withdrawal_event(ctx: WithdrawFeesView) -> Option<FeesWithdrawn> {
    if withdrawal_moves(ctx) {
        Some(
            FeesWithdrawn {
                recipient: ctx.registry_config.fee_recipient,
                amount: ctx.registry_config_info.lamports,
            },
        )
    } else {
        None
    }
}

/// Moves all the lamports that the registry's account holds to the fee
/// recipient, for the admin.
pub fn withdraw_fees(ctx: &mut WithdrawFees) -> (result: Result<
    Option<FeesWithdrawn>,
    AgistryError,
>)
    ensures
        match result {
            Ok(event) => {
                &&& withdraw_error(old(ctx)@) is None
                &&& final(ctx)@ == withdrawn(old(ctx)@)
                &&& event == withdrawal_event(old(ctx)@)
            },
            Err(error) => {
                &&& withdraw_error(old(ctx)@) == Some(error)
                &&& *final(ctx) == *old(ctx)
            },
        },
{
    match check_admin_call(&ctx.admin, &ctx.registry_config.admin) {
        Err(error) => {
            return Err(error);
        },
        Ok(_) => {},
    }
    if ctx.fee_recipient.key != ctx.registry_config.fee_recipient {
        return Err(AgistryError::IncorrectFeeRecipient);
    }
    let lamports_to_withdraw = ctx.registry_config_info.lamports;
    if lamports_to_withdraw == 0 {
        return Err(AgistryError::NoFeesToWithdraw);
    }
    if ctx.registry_config.fee_recipient != ctx.registry_config_info.key {
        let received = match ctx.fee_recipient.lamports.checked_add(lamports_to_withdraw) {
            Some(received) => received,
            None => {
                return Err(AgistryError::NumericOverflow);
            },
        };
        ctx.registry_config_info.lamports = 0;
        ctx.fee_recipient.lamports = received;
        Ok(
            Some(
                FeesWithdrawn {
                    recipient: ctx.registry_config.fee_recipient,
                    amount: lamports_to_withdraw,
                },
            ),
        )
    } else {
        Ok(None)
    }
}

} // verus!
