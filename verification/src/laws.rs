use crate::accounts::{
    AdminActionView, InitializeRegistryView, OperateOnAdapterView, RegisterAdapterView,
    UpdateAdapterMetadataView, WithdrawFeesView,
};
use crate::adapter::{
    deprecate_error, deprecated, metadata_updated, ownership_transferred, register_error,
    registered, transfer_ownership_error, update_metadata_error,
};
use crate::error::AgistryError;
use crate::pubkey::Pubkey;
use crate::registry::{
    admin_call_error, fee_recipient_set, initialized, pause_status_set, registration_fee_set,
    schema_version_set, set_fee_recipient_error, set_schema_version_error, withdraw_error,
    withdrawal_moves, withdrawn,
};
use crate::state::{AdapterStatus, RegistryConfigView};
use crate::validation::{byte_len, schema_version_error};
use vstd::prelude::*;

verus! {

/// One call of `register_adapter`: the accounts it is given, the hash, and the
/// time.
pub struct Registration {
    pub ctx: RegisterAdapterView,
    pub metadata_hash: Seq<char>,
    pub now: i64,
}

impl Registration {
    /// The counter as the call finds it.
    pub open spec fn counter_found(self) -> u64 {
        self.ctx.registry_config.adapter_counter
    }

    /// The call is accepted.
    pub open spec fn succeeds(self) -> bool {
        register_error(self.ctx, self.metadata_hash) is None
    }

    /// The accounts as the call, if accepted, leaves them.
    pub open spec fn after(self) -> RegisterAdapterView {
        registered(self.ctx, self.metadata_hash, self.now)
    }
}

/// The calls are the successful registrations of one registry, in the order in
/// which they were made, from the first one on: the first one finds the counter
/// where `start` has it, and each later one finds it where the one before left
/// it, whatever else was done to the configuration in between.
pub open spec fn registrations_in_order(
    start: RegistryConfigView,
    calls: Seq<Registration>,
) -> bool {
    &&& forall|i: int| 0 <= i < calls.len() ==> (#[trigger] calls[i]).succeeds()
    &&& calls.len() > 0 ==> calls[0].ctx.registry_config.adapter_counter == start.adapter_counter
    &&& forall|i: int, j: int|
        0 <= i && j == i + 1 && j < calls.len() ==> (#[trigger] calls[j]).counter_found()
            == (#[trigger] calls[i]).after().registry_config.adapter_counter
}

proof fn lemma_ids_count_up(start: RegistryConfigView, calls: Seq<Registration>, i: int)
    requires
        registrations_in_order(start, calls),
        0 <= i < calls.len(),
    ensures
        calls[i].after().adapter_account.id == start.adapter_counter + i + 1,
        calls[i].after().registry_config.adapter_counter == start.adapter_counter + i + 1,
    decreases i,
{
    let call = calls[i];
    assert(call.succeeds());
    if i > 0 {
        let before = calls[i - 1];
        lemma_ids_count_up(start, calls, i - 1);
        assert(call.counter_found() == before.after().registry_config.adapter_counter);
    }
}

/// The successful registrations of a registry get the ids 1, 2, 3 and so on,
/// in the order in which they are made after the registry was set up, and the
/// counter is always the last id handed out.
pub proof fn law_ids_count_up_from_one(
    setup: InitializeRegistryView,
    metadata_schema_version: Seq<char>,
    registration_fee: u64,
    fee_recipient: Pubkey,
    calls: Seq<Registration>,
    i: int,
)
    requires
        registrations_in_order(
            initialized(
                setup,
                metadata_schema_version,
                registration_fee,
                fee_recipient,
            ).registry_config,
            calls,
        ),
        0 <= i < calls.len(),
    ensures
        calls[i].after().adapter_account.id == i + 1,
        calls[i].after().registry_config.adapter_counter == i + 1,
{
    let start = initialized(
        setup,
        metadata_schema_version,
        registration_fee,
        fee_recipient,
    ).registry_config;
    lemma_ids_count_up(start, calls, i);
}

/// Only a registration moves the counter: every other operation leaves the
/// configuration's counter where it was.
pub proof fn law_only_registration_moves_the_counter(
    admin: AdminActionView,
    paused: bool,
    version: Seq<char>,
    fee: u64,
    recipient: Pubkey,
    withdrawal: WithdrawFeesView,
    update: UpdateAdapterMetadataView,
    hash: Seq<char>,
    operate: OperateOnAdapterView,
    new_owner: Pubkey,
    now: i64,
)
    ensures
        pause_status_set(admin, paused).registry_config.adapter_counter
            == admin.registry_config.adapter_counter,
        schema_version_set(admin, version).registry_config.adapter_counter
            == admin.registry_config.adapter_counter,
        registration_fee_set(admin, fee).registry_config.adapter_counter
            == admin.registry_config.adapter_counter,
        fee_recipient_set(admin, recipient).registry_config.adapter_counter
            == admin.registry_config.adapter_counter,
        withdrawn(withdrawal).registry_config == withdrawal.registry_config,
        metadata_updated(update, hash, now).registry_config == update.registry_config,
        deprecated(operate, now).registry_config == operate.registry_config,
        ownership_transferred(operate, new_owner).registry_config == operate.registry_config,
{
}

/// A registration is refused whenever the hash is empty or longer than 70
/// bytes, and a hash of 1 to 70 bytes is never the reason for a refusal: with
/// such a hash the registration succeeds where the registry is not paused, the
/// fee payer can pay, and neither the registry's balance nor the counter is at
/// its end.
pub proof fn law_hash_length_decides_registration(
    ctx: RegisterAdapterView,
    metadata_hash: Seq<char>,
)
    ensures
        byte_len(metadata_hash) == 0 || byte_len(metadata_hash) > 70 ==> register_error(
            ctx,
            metadata_hash,
        ) is Some,
        1 <= byte_len(metadata_hash) <= 70 ==> register_error(ctx, metadata_hash)
            != Some(AgistryError::MetadataHashEmpty) && register_error(ctx, metadata_hash)
            != Some(AgistryError::MetadataHashTooLong),
        1 <= byte_len(metadata_hash) <= 70 && !ctx.registry_config.paused && ctx.fee_payer.lamports
            >= ctx.registry_config.registration_fee && ctx.registry_config_info.lamports
            + ctx.registry_config.registration_fee <= u64::MAX
            && ctx.registry_config.adapter_counter < u64::MAX ==> register_error(
            ctx,
            metadata_hash,
        ) is None,
{
}

/// Once an adapter is deprecated, its owner can no longer update its metadata,
/// whatever the new hash, but can still hand the adapter to a new owner.
pub proof fn law_deprecation_blocks_updates_only(
    ctx: OperateOnAdapterView,
    deprecated_at: i64,
    new_metadata_hash: Seq<char>,
    new_owner: Pubkey,
)
    requires
        deprecate_error(ctx) is None,
        !new_owner.is_default(),
    ensures
        update_metadata_error(
            UpdateAdapterMetadataView {
                adapter_account: deprecated(ctx, deprecated_at).adapter_account,
                registry_config: ctx.registry_config,
                owner: ctx.owner,
            },
            new_metadata_hash,
        ) == Some(AgistryError::CannotUpdateDeprecatedAdapter),
        transfer_ownership_error(deprecated(ctx, deprecated_at), new_owner) is None,
        deprecate_error(deprecated(ctx, deprecated_at)) == Some(
            AgistryError::AdapterAlreadyDeprecated,
        ),
{
}

/// No operation on an adapter gives it another id or another time of
/// registration, and none makes a deprecated adapter active again.
pub proof fn law_records_keep_their_identity(
    update: UpdateAdapterMetadataView,
    hash: Seq<char>,
    operate: OperateOnAdapterView,
    new_owner: Pubkey,
    now: i64,
)
    ensures
        metadata_updated(update, hash, now).adapter_account.id == update.adapter_account.id,
        metadata_updated(update, hash, now).adapter_account.registration_timestamp
            == update.adapter_account.registration_timestamp,
        metadata_updated(update, hash, now).adapter_account.status == update.adapter_account.status,
        deprecated(operate, now).adapter_account.id == operate.adapter_account.id,
        deprecated(operate, now).adapter_account.registration_timestamp
            == operate.adapter_account.registration_timestamp,
        deprecated(operate, now).adapter_account.status == AdapterStatus::Deprecated,
        ownership_transferred(operate, new_owner).adapter_account.id == operate.adapter_account.id,
        ownership_transferred(operate, new_owner).adapter_account.registration_timestamp
            == operate.adapter_account.registration_timestamp,
        ownership_transferred(operate, new_owner).adapter_account.status
            == operate.adapter_account.status,
{
}

/// The operations keep the stored text within its bounds: a registration
/// makes a record with an id and an admissible hash, an update leaves one, and
/// a new schema version is admissible.
pub proof fn law_stored_text_stays_in_bounds(
    registration: Registration,
    update: UpdateAdapterMetadataView,
    hash: Seq<char>,
    admin: AdminActionView,
    version: Seq<char>,
    now: i64,
)
    ensures
        registration.succeeds() ==> registration.after().adapter_account.wf(),
        registration.succeeds() && registration.ctx.registry_config.wf()
            ==> registration.after().registry_config.wf(),
        update_metadata_error(update, hash) is None && update.adapter_account.id >= 1
            ==> metadata_updated(update, hash, now).adapter_account.wf(),
        set_schema_version_error(admin, version) is None ==> schema_version_set(
            admin,
            version,
        ).registry_config.wf(),
{
}

/// While the registry is paused, registration is refused as paused whatever
/// else holds, and an owner's update, deprecation and transfer of ownership are
/// refused as paused too.
pub proof fn law_pause_stops_adapter_operations(
    register: RegisterAdapterView,
    update: UpdateAdapterMetadataView,
    operate: OperateOnAdapterView,
    hash: Seq<char>,
    new_owner: Pubkey,
)
    requires
        register.registry_config.paused,
        update.registry_config.paused,
        operate.registry_config.paused,
        update.owner == update.adapter_account.owner,
        operate.owner == operate.adapter_account.owner,
    ensures
        register_error(register, hash) == Some(AgistryError::RegistryPaused),
        update_metadata_error(update, hash) == Some(AgistryError::RegistryPaused),
        deprecate_error(operate) == Some(AgistryError::RegistryPaused),
        transfer_ownership_error(operate, new_owner) == Some(AgistryError::RegistryPaused),
{
}

/// The configuration with its pause switch set to `paused`.
pub open spec fn with_pause(config: RegistryConfigView, paused: bool) -> RegistryConfigView {
    RegistryConfigView { paused, ..config }
}

/// The pause switch does not touch the admin's operations: each of them is
/// accepted or refused alike, paused or not. So the admin of a paused registry
/// can still set the switch and the fee, set a schema version that is short
/// enough and a recipient that is not the zero address, and withdraw.
pub proof fn law_pause_spares_admin_operations(
    admin: AdminActionView,
    withdrawal: WithdrawFeesView,
    version: Seq<char>,
    recipient: Pubkey,
    paused: bool,
)
    ensures
        set_schema_version_error(
            AdminActionView { registry_config: with_pause(admin.registry_config, paused), ..admin },
            version,
        ) == set_schema_version_error(admin, version),
        set_fee_recipient_error(
            AdminActionView { registry_config: with_pause(admin.registry_config, paused), ..admin },
            recipient,
        ) == set_fee_recipient_error(admin, recipient),
        withdraw_error(
            WithdrawFeesView {
                registry_config: with_pause(withdrawal.registry_config, paused),
                ..withdrawal
            },
        ) == withdraw_error(withdrawal),
        admin.admin == admin.registry_config.admin ==> {
            &&& admin_call_error(admin.admin, admin.registry_config.admin) is None
            &&& set_schema_version_error(admin, version) == schema_version_error(version)
            &&& set_fee_recipient_error(admin, recipient) is Some <==> recipient.is_default()
        },
{
}

/// Lamports are moved, never made or lost: a registration takes from the fee
/// payer exactly what it gives to the registry, which is the fee where the two
/// are different accounts, and a withdrawal gives to the recipient exactly
/// what it takes from the registry.
pub proof fn law_lamports_are_moved_not_made(
    registration: Registration,
    withdrawal: WithdrawFeesView,
)
    ensures
        registration.succeeds() ==> {
            let before = registration.ctx;
            let after = registration.after();
            &&& after.fee_payer.lamports + after.registry_config_info.lamports
                == before.fee_payer.lamports + before.registry_config_info.lamports
            &&& before.fee_payer.key != before.registry_config_info.key
                ==> after.fee_payer.lamports == before.fee_payer.lamports
                - before.registry_config.registration_fee
        },
        withdraw_error(withdrawal) is None ==> {
            let after = withdrawn(withdrawal);
            after.fee_recipient.lamports + after.registry_config_info.lamports
                == withdrawal.fee_recipient.lamports + withdrawal.registry_config_info.lamports
        },
{
}

/// A withdrawal succeeds for the admin where the registry holds something, the
/// account offered is the configured recipient, and the recipient's balance has
/// room for it.
pub proof fn law_withdrawal_succeeds_on_a_balance(ctx: WithdrawFeesView)
    requires
        ctx.admin == ctx.registry_config.admin,
        ctx.fee_recipient.key == ctx.registry_config.fee_recipient,
        ctx.registry_config_info.lamports > 0,
        ctx.fee_recipient.lamports + ctx.registry_config_info.lamports <= u64::MAX,
    ensures
        withdraw_error(ctx) is None,
{
}

/// After a withdrawal that moved the fees, a second one at once finds nothing
/// to withdraw.
pub proof fn law_second_withdrawal_finds_nothing(ctx: WithdrawFeesView)
    requires
        withdraw_error(ctx) is None,
        withdrawal_moves(ctx),
    ensures
        withdrawn(ctx).registry_config_info.lamports == 0,
        withdrawn(ctx).fee_recipient.lamports == ctx.fee_recipient.lamports
            + ctx.registry_config_info.lamports,
        withdraw_error(withdrawn(ctx)) == Some(AgistryError::NoFeesToWithdraw),
{
}

/// Setting the pause switch twice to the same value is accepted both times and
/// leaves what setting it once leaves.
pub proof fn law_setting_pause_twice_is_setting_it_once(ctx: AdminActionView, paused: bool)
    requires
        admin_call_error(ctx.admin, ctx.registry_config.admin) is None,
    ensures
        admin_call_error(
            pause_status_set(ctx, paused).admin,
            pause_status_set(ctx, paused).registry_config.admin,
        ) is None,
        pause_status_set(pause_status_set(ctx, paused), paused) == pause_status_set(ctx, paused),
        pause_status_set(ctx, paused).registry_config.paused == paused,
{
}

/// After a transfer of ownership to somebody else, the former owner is refused
/// as unauthorized and the new owner is the one whose calls are looked at.
pub proof fn law_ownership_moves_with_the_transfer(
    ctx: OperateOnAdapterView,
    new_owner: Pubkey,
    new_metadata_hash: Seq<char>,
)
    requires
        transfer_ownership_error(ctx, new_owner) is None,
        new_owner != ctx.owner,
    ensures
        update_metadata_error(
            UpdateAdapterMetadataView {
                adapter_account: ownership_transferred(ctx, new_owner).adapter_account,
                registry_config: ctx.registry_config,
                owner: ctx.owner,
            },
            new_metadata_hash,
        ) == Some(AgistryError::Unauthorized),
        update_metadata_error(
            UpdateAdapterMetadataView {
                adapter_account: ownership_transferred(ctx, new_owner).adapter_account,
                registry_config: ctx.registry_config,
                owner: new_owner,
            },
            new_metadata_hash,
        ) != Some(AgistryError::Unauthorized),
{
}

} // verus!
