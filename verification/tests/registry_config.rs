use agistry_registry::{
    initialize_registry, set_fee_recipient, set_metadata_schema_version, set_pause_status,
    set_registration_fee, withdraw_fees, AccountInfo, AdminAction, AgistryError, FeeRecipientSet,
    FeesWithdrawn, InitializeRegistry, MetadataSchemaVersionSet, Pubkey, RegistrationFeeSet,
    RegistryConfig, RegistryInitialized, RegistryPauseStatusChanged, WithdrawFees,
    MAX_SCHEMA_VERSION_LENGTH,
};

fn config_key(n: u8) -> Pubkey {
    Pubkey::new_from_array([n; 32])
}

fn blank_config() -> RegistryConfig {
    RegistryConfig {
        admin: Pubkey::default(),
        adapter_counter: 0,
        metadata_schema_version: String::new(),
        registration_fee: 0,
        fee_recipient: Pubkey::default(),
        paused: false,
        bump: 0,
    }
}

fn live_config() -> RegistryConfig {
    RegistryConfig {
        admin: config_key(1),
        adapter_counter: 3,
        metadata_schema_version: String::from("1.0.0"),
        registration_fee: 100,
        fee_recipient: config_key(9),
        paused: false,
        bump: 255,
    }
}

fn admin_action() -> AdminAction {
    AdminAction { registry_config: live_config(), admin: config_key(1) }
}

fn withdrawal(held: u64, at_recipient: u64) -> WithdrawFees {
    WithdrawFees {
        registry_config: live_config(),
        registry_config_info: AccountInfo { key: config_key(7), lamports: held },
        fee_recipient: AccountInfo { key: config_key(9), lamports: at_recipient },
        admin: config_key(1),
    }
}

#[test]
fn initialize_fills_the_configuration() {
    let mut ctx = InitializeRegistry {
        registry_config: RegistryConfig {
            adapter_counter: 77,
            paused: true,
            ..blank_config()
        },
        admin: config_key(1),
        bump: 254,
    };
    let event = initialize_registry(&mut ctx, String::from("1.0.0"), 100, config_key(9));
    assert_eq!(
        event,
        Ok(RegistryInitialized {
            admin: config_key(1),
            metadata_schema_version: String::from("1.0.0"),
            registration_fee: 100,
            fee_recipient: config_key(9),
        })
    );
    assert_eq!(
        ctx.registry_config,
        RegistryConfig {
            admin: config_key(1),
            adapter_counter: 0,
            metadata_schema_version: String::from("1.0.0"),
            registration_fee: 100,
            fee_recipient: config_key(9),
            paused: false,
            bump: 254,
        }
    );
    assert_eq!(ctx.admin, config_key(1));
    assert_eq!(ctx.bump, 254);
}

#[test]
fn initialize_accepts_a_version_of_twenty_bytes() {
    let mut ctx =
        InitializeRegistry { registry_config: blank_config(), admin: config_key(1), bump: 1 };
    let version = "v".repeat(MAX_SCHEMA_VERSION_LENGTH);
    assert_eq!(version.len(), 20);
    let event = initialize_registry(&mut ctx, version.clone(), 0, config_key(2));
    assert!(event.is_ok());
    assert_eq!(ctx.registry_config.metadata_schema_version, version);
    assert_eq!(ctx.registry_config.registration_fee, 0);
}

#[test]
fn initialize_accepts_an_empty_version_and_the_zero_recipient() {
    let mut ctx =
        InitializeRegistry { registry_config: blank_config(), admin: config_key(1), bump: 1 };
    let event = initialize_registry(&mut ctx, String::new(), 5, Pubkey::default());
    assert!(event.is_ok());
    assert_eq!(ctx.registry_config.fee_recipient, Pubkey::default());
    assert_eq!(ctx.registry_config.metadata_schema_version, "");
}

#[test]
fn initialize_refuses_a_version_of_twenty_one_bytes() {
    let before =
        InitializeRegistry { registry_config: blank_config(), admin: config_key(1), bump: 1 };
    let mut ctx = before.clone();
    let event = initialize_registry(&mut ctx, "v".repeat(21), 100, config_key(9));
    assert_eq!(event, Err(AgistryError::SchemaVersionTooLong));
    assert_eq!(ctx, before);
}

#[test]
fn schema_version_is_measured_in_bytes() {
    // Seven characters of three bytes each: 21 bytes.
    let mut ctx =
        InitializeRegistry { registry_config: blank_config(), admin: config_key(1), bump: 1 };
    let version = "\u{20ac}".repeat(7);
    assert_eq!(version.len(), 21);
    assert_eq!(
        initialize_registry(&mut ctx, version, 0, config_key(9)),
        Err(AgistryError::SchemaVersionTooLong)
    );
    // Ten characters of two bytes each: 20 bytes.
    let version = "\u{e9}".repeat(10);
    assert_eq!(version.len(), 20);
    assert!(initialize_registry(&mut ctx, version, 0, config_key(9)).is_ok());
}

#[test]
fn set_pause_status_sets_the_switch() {
    let mut ctx = admin_action();
    assert_eq!(set_pause_status(&mut ctx, true), Ok(RegistryPauseStatusChanged { paused: true }));
    assert_eq!(
        ctx,
        AdminAction {
            registry_config: RegistryConfig { paused: true, ..live_config() },
            admin: config_key(1),
        }
    );
    assert_eq!(set_pause_status(&mut ctx, false), Ok(RegistryPauseStatusChanged { paused: false }));
    assert_eq!(ctx, admin_action());
}

#[test]
fn set_pause_status_twice_is_accepted_and_changes_nothing_more() {
    let mut ctx = admin_action();
    assert!(set_pause_status(&mut ctx, true).is_ok());
    let once = ctx.clone();
    assert_eq!(set_pause_status(&mut ctx, true), Ok(RegistryPauseStatusChanged { paused: true }));
    assert_eq!(ctx, once);
    assert!(ctx.registry_config.paused);
}

#[test]
fn set_pause_status_is_for_the_admin_only() {
    let mut ctx = AdminAction { registry_config: live_config(), admin: config_key(2) };
    assert_eq!(set_pause_status(&mut ctx, true), Err(AgistryError::UnauthorizedAdmin));
    assert_eq!(ctx.registry_config, live_config());
}

#[test]
fn set_metadata_schema_version_replaces_the_version() {
    let mut ctx = admin_action();
    assert_eq!(
        set_metadata_schema_version(&mut ctx, String::from("2.1")),
        Ok(MetadataSchemaVersionSet { version: String::from("2.1") })
    );
    assert_eq!(
        ctx.registry_config,
        RegistryConfig { metadata_schema_version: String::from("2.1"), ..live_config() }
    );
}

#[test]
fn set_metadata_schema_version_checks_the_length() {
    let mut ctx = admin_action();
    assert!(set_metadata_schema_version(&mut ctx, "x".repeat(20)).is_ok());
    let accepted = ctx.clone();
    assert_eq!(
        set_metadata_schema_version(&mut ctx, "x".repeat(21)),
        Err(AgistryError::SchemaVersionTooLong)
    );
    assert_eq!(ctx, accepted);
}

#[test]
fn set_metadata_schema_version_looks_at_the_caller_first() {
    let mut ctx = AdminAction { registry_config: live_config(), admin: config_key(2) };
    assert_eq!(
        set_metadata_schema_version(&mut ctx, "x".repeat(21)),
        Err(AgistryError::UnauthorizedAdmin)
    );
    assert_eq!(
        set_metadata_schema_version(&mut ctx, String::from("2.0")),
        Err(AgistryError::UnauthorizedAdmin)
    );
    assert_eq!(ctx.registry_config, live_config());
}

#[test]
fn set_registration_fee_takes_every_amount() {
    let mut ctx = admin_action();
    assert_eq!(set_registration_fee(&mut ctx, 0), Ok(RegistrationFeeSet { new_fee: 0 }));
    assert_eq!(ctx.registry_config, RegistryConfig { registration_fee: 0, ..live_config() });
    assert_eq!(
        set_registration_fee(&mut ctx, u64::MAX),
        Ok(RegistrationFeeSet { new_fee: u64::MAX })
    );
    assert_eq!(ctx.registry_config, RegistryConfig { registration_fee: u64::MAX, ..live_config() });
}

#[test]
fn set_registration_fee_is_for_the_admin_only() {
    let mut ctx = AdminAction { registry_config: live_config(), admin: Pubkey::default() };
    assert_eq!(set_registration_fee(&mut ctx, 1), Err(AgistryError::UnauthorizedAdmin));
    assert_eq!(ctx.registry_config, live_config());
}

#[test]
fn set_fee_recipient_replaces_the_recipient() {
    let mut ctx = admin_action();
    assert_eq!(
        set_fee_recipient(&mut ctx, config_key(4)),
        Ok(FeeRecipientSet { new_recipient: config_key(4) })
    );
    assert_eq!(ctx.registry_config, RegistryConfig { fee_recipient: config_key(4), ..live_config() });
}

#[test]
fn set_fee_recipient_refuses_the_zero_address() {
    let mut ctx = admin_action();
    assert_eq!(
        set_fee_recipient(&mut ctx, Pubkey::default()),
        Err(AgistryError::NewOwnerCannotBeDefault)
    );
    assert_eq!(
        set_fee_recipient(&mut ctx, Pubkey::new_from_array([0; 32])),
        Err(AgistryError::NewOwnerCannotBeDefault)
    );
    assert_eq!(ctx, admin_action());
}

#[test]
fn set_fee_recipient_accepts_an_address_with_one_byte_set() {
    let mut bytes = [0u8; 32];
    bytes[31] = 1;
    let mut ctx = admin_action();
    assert!(set_fee_recipient(&mut ctx, Pubkey::new_from_array(bytes)).is_ok());
    assert_eq!(ctx.registry_config.fee_recipient.to_bytes(), bytes);
}

#[test]
fn set_fee_recipient_is_for_the_admin_only() {
    let mut ctx = AdminAction { registry_config: live_config(), admin: config_key(2) };
    assert_eq!(set_fee_recipient(&mut ctx, config_key(4)), Err(AgistryError::UnauthorizedAdmin));
    assert_eq!(
        set_fee_recipient(&mut ctx, Pubkey::default()),
        Err(AgistryError::UnauthorizedAdmin)
    );
    assert_eq!(ctx.registry_config, live_config());
}

#[test]
fn withdraw_moves_the_whole_balance() {
    let mut ctx = withdrawal(250, 40);
    assert_eq!(
        withdraw_fees(&mut ctx),
        Ok(Some(FeesWithdrawn { recipient: config_key(9), amount: 250 }))
    );
    assert_eq!(ctx.registry_config_info, AccountInfo { key: config_key(7), lamports: 0 });
    assert_eq!(ctx.fee_recipient, AccountInfo { key: config_key(9), lamports: 290 });
    assert_eq!(ctx.registry_config, live_config());
}

#[test]
fn withdraw_twice_finds_nothing_the_second_time() {
    let mut ctx = withdrawal(1, 0);
    assert!(withdraw_fees(&mut ctx).is_ok());
    let after_first = ctx.clone();
    assert_eq!(withdraw_fees(&mut ctx), Err(AgistryError::NoFeesToWithdraw));
    assert_eq!(ctx, after_first);
}

#[test]
fn withdraw_from_an_empty_balance_is_refused() {
    let mut ctx = withdrawal(0, 40);
    assert_eq!(withdraw_fees(&mut ctx), Err(AgistryError::NoFeesToWithdraw));
    assert_eq!(ctx, withdrawal(0, 40));
}

#[test]
fn withdraw_is_for_the_admin_only() {
    let mut ctx = WithdrawFees { admin: config_key(9), ..withdrawal(250, 40) };
    assert_eq!(withdraw_fees(&mut ctx), Err(AgistryError::UnauthorizedAdmin));
    assert_eq!(ctx.registry_config_info.lamports, 250);
    assert_eq!(ctx.fee_recipient.lamports, 40);
}

#[test]
fn withdraw_refuses_an_account_that_is_not_the_recipient() {
    let mut ctx = WithdrawFees {
        fee_recipient: AccountInfo { key: config_key(8), lamports: 40 },
        ..withdrawal(250, 40)
    };
    let before = ctx.clone();
    assert_eq!(withdraw_fees(&mut ctx), Err(AgistryError::IncorrectFeeRecipient));
    assert_eq!(ctx, before);
    // The account is looked at before the balance.
    let mut ctx = WithdrawFees {
        fee_recipient: AccountInfo { key: config_key(8), lamports: 40 },
        ..withdrawal(0, 40)
    };
    assert_eq!(withdraw_fees(&mut ctx), Err(AgistryError::IncorrectFeeRecipient));
}

#[test]
fn withdraw_to_the_registry_itself_moves_nothing() {
    let mut ctx = WithdrawFees {
        registry_config: RegistryConfig { fee_recipient: config_key(7), ..live_config() },
        registry_config_info: AccountInfo { key: config_key(7), lamports: 250 },
        fee_recipient: AccountInfo { key: config_key(7), lamports: 250 },
        admin: config_key(1),
    };
    let before = ctx.clone();
    assert_eq!(withdraw_fees(&mut ctx), Ok(None));
    assert_eq!(ctx, before);
    // Nothing moved, so the balance is still there for a second call.
    assert_eq!(withdraw_fees(&mut ctx), Ok(None));
    assert_eq!(ctx, before);
}

#[test]
fn withdraw_to_the_registry_itself_still_needs_a_balance() {
    let mut ctx = WithdrawFees {
        registry_config: RegistryConfig { fee_recipient: config_key(7), ..live_config() },
        registry_config_info: AccountInfo { key: config_key(7), lamports: 0 },
        fee_recipient: AccountInfo { key: config_key(7), lamports: 0 },
        admin: config_key(1),
    };
    assert_eq!(withdraw_fees(&mut ctx), Err(AgistryError::NoFeesToWithdraw));
}

#[test]
fn withdraw_refuses_to_overfill_the_recipient() {
    let mut ctx = withdrawal(2, u64::MAX - 1);
    let before = ctx.clone();
    assert_eq!(withdraw_fees(&mut ctx), Err(AgistryError::NumericOverflow));
    assert_eq!(ctx, before);
    let mut ctx = withdrawal(1, u64::MAX - 1);
    assert_eq!(
        withdraw_fees(&mut ctx),
        Ok(Some(FeesWithdrawn { recipient: config_key(9), amount: 1 }))
    );
    assert_eq!(ctx.fee_recipient.lamports, u64::MAX);
}

#[test]
fn withdraw_works_while_paused() {
    let mut ctx = WithdrawFees {
        registry_config: RegistryConfig { paused: true, ..live_config() },
        ..withdrawal(250, 40)
    };
    assert_eq!(
        withdraw_fees(&mut ctx),
        Ok(Some(FeesWithdrawn { recipient: config_key(9), amount: 250 }))
    );
    assert!(ctx.registry_config.paused);
}

#[test]
fn admin_operations_work_while_paused() {
    let mut ctx = AdminAction {
        registry_config: RegistryConfig { paused: true, ..live_config() },
        admin: config_key(1),
    };
    assert!(set_registration_fee(&mut ctx, 7).is_ok());
    assert!(set_metadata_schema_version(&mut ctx, String::from("3")).is_ok());
    assert!(set_fee_recipient(&mut ctx, config_key(5)).is_ok());
    assert!(set_pause_status(&mut ctx, true).is_ok());
    assert_eq!(
        ctx.registry_config,
        RegistryConfig {
            registration_fee: 7,
            metadata_schema_version: String::from("3"),
            fee_recipient: config_key(5),
            paused: true,
            ..live_config()
        }
    );
    assert!(set_pause_status(&mut ctx, false).is_ok());
    assert!(!ctx.registry_config.paused);
}

#[test]
fn configuration_length_is_fixed() {
    assert_eq!(RegistryConfig::LEN_BASE, 90);
    assert_eq!(RegistryConfig::LEN, 114);
}
