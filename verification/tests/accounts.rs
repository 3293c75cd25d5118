use vault_thresholds::address::{check_address, check_found_address, derive_monitor_address};
use vault_thresholds::program::{
    run_add_threshold, run_initialize_monitor, run_reset_breach, run_set_oracle_signer,
    run_update_metric,
};
use vault_thresholds::{
    add_threshold, find_monitor_address, initialize_monitor, AccountError, AddressError,
    AuthorityAction, Clock, Comparison, InitializeMonitor, InstructionError, MonitorAccount, Pubkey,
    ThresholdConfig, UpdateMetric, VaultMonitor, VaultThresholdsError, MONITOR_SEED,
    VAULT_MONITOR_DISCRIMINATOR, VAULT_MONITOR_SPACE,
};

fn key(b: u8) -> Pubkey {
    Pubkey::new([b; 32])
}

fn full_monitor() -> VaultMonitor {
    let mut thresholds = Vec::new();
    for i in 0..16u8 {
        thresholds.push(ThresholdConfig {
            name: [i + 1; 32],
            threshold_value: -1 - i64::from(i),
            comparison: if i % 2 == 0 {
                Comparison::Above
            } else {
                Comparison::Below
            },
            current_value: i64::from(i) * 1_000_000_007,
            breached: i % 3 == 0,
            last_update_slot: u64::MAX - u64::from(i),
        });
    }
    VaultMonitor {
        authority: key(1),
        oracle_signer: key(2),
        vault_label: [3; 32],
        bump: 253,
        thresholds,
    }
}

#[test]
fn threshold_bytes_are_those_of_the_layout() {
    let t = ThresholdConfig {
        name: [7; 32],
        threshold_value: -2,
        comparison: Comparison::Below,
        current_value: 0x0102_0304_0506_0708,
        breached: true,
        last_update_slot: 258,
    };
    let mut expected = vec![7u8; 32];
    expected.extend_from_slice(&[0xfe, 0xff, 0xff, 0xff, 0xff, 0xff, 0xff, 0xff]);
    expected.push(1);
    expected.extend_from_slice(&[8, 7, 6, 5, 4, 3, 2, 1]);
    expected.push(1);
    expected.extend_from_slice(&[2, 1, 0, 0, 0, 0, 0, 0]);
    assert_eq!(t.to_vec(), expected);
    assert_eq!(ThresholdConfig::try_from_slice(&expected), Ok(t));
}

#[test]
fn threshold_bytes_that_belong_to_no_value() {
    let good = full_monitor().thresholds[0].to_vec();
    assert_eq!(good.len(), 58);
    let mut long = good.clone();
    long.push(0);
    let mut comparison = good.clone();
    comparison[40] = 2;
    let mut flag = good.clone();
    flag[49] = 2;
    for bytes in [&good[..57], &long[..], &comparison[..], &flag[..], &[]] {
        assert_eq!(
            ThresholdConfig::try_from_slice(bytes),
            Err(AccountError::DidNotDeserialize)
        );
    }
}

#[test]
fn discriminator_is_the_start_of_the_hash() {
    let hash = anchor_lang::solana_program::hash::hash(b"account:VaultMonitor");
    assert_eq!(VAULT_MONITOR_DISCRIMINATOR[..], hash.to_bytes()[..8]);
}

#[test]
fn full_monitor_fits_and_is_read_back() {
    let m = full_monitor();
    let mut data = m.try_serialize().unwrap();
    assert_eq!(data.len(), 1037);
    assert!(data.len() <= VAULT_MONITOR_SPACE);
    assert_eq!(data[..8], VAULT_MONITOR_DISCRIMINATOR);
    assert_eq!(data[8..40], [1u8; 32]);
    assert_eq!(data[40..72], [2u8; 32]);
    assert_eq!(data[72..104], [3u8; 32]);
    assert_eq!(data[104], 253);
    assert_eq!(data[105..109], [16, 0, 0, 0]);
    assert_eq!(data[109..167], m.thresholds[0].to_vec()[..]);
    data.resize(VAULT_MONITOR_SPACE, 0);
    assert_eq!(VaultMonitor::try_deserialize(&data), Ok(m));
}

#[test]
fn account_data_that_is_refused() {
    let data = full_monitor().try_serialize().unwrap();
    assert_eq!(
        VaultMonitor::try_deserialize(&data[..7]),
        Err(AccountError::DiscriminatorNotFound)
    );
    assert_eq!(
        VaultMonitor::try_deserialize(&[0u8; 1100]),
        Err(AccountError::DiscriminatorMismatch)
    );
    assert_eq!(
        VaultMonitor::try_deserialize(&data[..1036]),
        Err(AccountError::DidNotDeserialize)
    );
    let mut comparison = data.clone();
    comparison[109 + 58 + 40] = 9;
    assert_eq!(
        VaultMonitor::try_deserialize(&comparison),
        Err(AccountError::DidNotDeserialize)
    );
}

#[test]
fn blank_account_is_read_without_its_type() {
    let m = VaultMonitor::try_deserialize_unchecked(&[0u8; VAULT_MONITOR_SPACE]).unwrap();
    assert_eq!(m.authority, Pubkey::default());
    assert_eq!(m.thresholds.len(), 0);
}

#[test]
fn found_address_is_the_canonical_one() {
    let (address, bump) = find_monitor_address(&key(1), &[3; 32], &key(8)).unwrap();
    let program = anchor_lang::prelude::Pubkey::from([8u8; 32]);
    let (expected, expected_bump) = anchor_lang::prelude::Pubkey::find_program_address(
        &[b"monitor", &[1u8; 32], &[3u8; 32]],
        &program,
    );
    assert_eq!(MONITOR_SEED, *b"monitor");
    assert_eq!(address.bytes, expected.to_bytes());
    assert_eq!(bump, expected_bump);
    assert_eq!(
        derive_monitor_address(&key(1), &[3; 32], bump, &key(8)),
        Some(address)
    );
    for b in bump..255 {
        assert_eq!(derive_monitor_address(&key(1), &[3; 32], b + 1, &key(8)), None);
    }
    assert_ne!(find_monitor_address(&key(2), &[3; 32], &key(8)).unwrap().0, address);
    assert_ne!(find_monitor_address(&key(1), &[4; 32], &key(8)).unwrap().0, address);
    assert_ne!(find_monitor_address(&key(1), &[3; 32], &key(7)).unwrap().0, address);
}

#[test]
fn address_is_compared_with_what_was_derived() {
    assert_eq!(check_address(&key(1), Some(key(1))), Ok(()));
    assert_eq!(check_address(&key(1), Some(key(2))), Err(AddressError::ConstraintSeeds));
    assert_eq!(check_address(&key(1), None), Err(AddressError::ConstraintSeeds));
    assert_eq!(check_found_address(&key(1), Some((key(1), 250))), Ok(250));
    assert_eq!(
        check_found_address(&key(1), Some((key(2), 250))),
        Err(AddressError::ConstraintSeeds)
    );
    assert_eq!(check_found_address(&key(1), None), Err(AddressError::NoViableBump));
}

#[test]
fn monitor_set_up_at_its_address_stays_valid() {
    let program = key(8);
    let label = [3; 32];
    let (address, bump) = find_monitor_address(&key(1), &label, &program).unwrap();
    let mut ctx = InitializeMonitor {
        address,
        monitor: None,
        authority: key(1),
        bump: 0,
    };
    assert_eq!(ctx.validate(&label, &program), Ok(bump));
    ctx.bump = bump;
    initialize_monitor(&mut ctx, label).unwrap();
    let mut action = AuthorityAction {
        monitor: MonitorAccount {
            address,
            state: ctx.monitor.unwrap(),
        },
        authority: key(1),
    };
    assert_eq!(action.validate(&program), Ok(()));
    add_threshold(&mut action, [5; 32], 1, Comparison::Above).unwrap();
    let report = UpdateMetric {
        monitor: action.monitor,
        oracle_signer: key(1),
    };
    assert_eq!(report.validate(&program), Ok(()));
    assert_eq!(report.validate(&key(9)), Err(AddressError::ConstraintSeeds));
}

#[test]
fn account_elsewhere_is_refused() {
    let ctx = InitializeMonitor {
        address: key(4),
        monitor: None,
        authority: key(1),
        bump: 0,
    };
    assert_eq!(
        ctx.validate(&[3; 32], &key(8)),
        Err(AddressError::ConstraintSeeds)
    );
    let action = AuthorityAction {
        monitor: MonitorAccount {
            address: key(4),
            state: full_monitor(),
        },
        authority: key(1),
    };
    assert_eq!(action.validate(&key(8)), Err(AddressError::ConstraintSeeds));
}

#[test]
fn program_checks_the_account_before_the_instruction() {
    let program = key(8);
    let label = [3; 32];
    let (address, _) = find_monitor_address(&key(1), &label, &program).unwrap();
    let mut ctx = InitializeMonitor {
        address,
        monitor: None,
        authority: key(1),
        bump: 0,
    };
    let event = run_initialize_monitor(&program, &mut ctx, label).unwrap();
    assert_eq!(event.monitor, address);
    let mut action = AuthorityAction {
        monitor: MonitorAccount {
            address,
            state: ctx.monitor.unwrap(),
        },
        authority: key(6),
    };
    assert_eq!(
        run_add_threshold(&program, &mut action, [5; 32], 1, Comparison::Above),
        Err(InstructionError::Refused(VaultThresholdsError::Unauthorized))
    );
    action.authority = key(1);
    assert_eq!(
        run_add_threshold(&key(9), &mut action, [5; 32], 1, Comparison::Above),
        Err(InstructionError::Address(AddressError::ConstraintSeeds))
    );
    assert_eq!(action.monitor.state.thresholds.len(), 0);
    run_add_threshold(&program, &mut action, [5; 32], 1, Comparison::Above).unwrap();
    run_set_oracle_signer(&program, &mut action, key(2)).unwrap();
    let mut report = UpdateMetric {
        monitor: action.monitor,
        oracle_signer: key(2),
    };
    let now = Clock {
        slot: 4,
        unix_timestamp: 5,
    };
    let breach = run_update_metric(&program, &mut report, [5; 32], 2, now).unwrap();
    assert_eq!(breach.unwrap().timestamp, 5);
    let mut action = AuthorityAction {
        monitor: report.monitor,
        authority: key(1),
    };
    assert!(run_reset_breach(&program, &mut action, [5; 32]).is_ok());
    assert!(!action.monitor.state.thresholds[0].breached);
    action.monitor.address = key(4);
    assert_eq!(
        run_reset_breach(&program, &mut action, [5; 32]),
        Err(InstructionError::Address(AddressError::ConstraintSeeds))
    );
    assert_eq!(
        run_set_oracle_signer(&program, &mut action, key(3)),
        Err(InstructionError::Address(AddressError::ConstraintSeeds))
    );
}

#[test]
fn program_refuses_to_set_up_elsewhere_or_without_a_label() {
    let program = key(8);
    let (address, _) = find_monitor_address(&key(1), &[0; 32], &program).unwrap();
    let mut ctx = InitializeMonitor {
        address,
        monitor: None,
        authority: key(1),
        bump: 0,
    };
    assert_eq!(
        run_initialize_monitor(&program, &mut ctx, [0; 32]),
        Err(InstructionError::Refused(VaultThresholdsError::InvalidVaultLabel))
    );
    assert_eq!(
        run_initialize_monitor(&program, &mut ctx, [3; 32]),
        Err(InstructionError::Address(AddressError::ConstraintSeeds))
    );
    assert_eq!(ctx.monitor, None);
    assert_eq!(ctx.bump, 0);
}

#[test]
fn second_set_up_of_one_monitor_is_refused() {
    let program = key(8);
    let label = [3; 32];
    let (address, bump) = find_monitor_address(&key(1), &label, &program).unwrap();
    let mut ctx = InitializeMonitor {
        address,
        monitor: None,
        authority: key(1),
        bump: 0,
    };
    run_initialize_monitor(&program, &mut ctx, label).unwrap();
    assert_eq!(ctx.bump, bump);
    let mut action = AuthorityAction {
        monitor: MonitorAccount {
            address,
            state: ctx.monitor.unwrap(),
        },
        authority: key(1),
    };
    run_add_threshold(&program, &mut action, [5; 32], 1, Comparison::Above).unwrap();
    run_set_oracle_signer(&program, &mut action, key(2)).unwrap();
    let mut report = UpdateMetric {
        monitor: action.monitor,
        oracle_signer: key(2),
    };
    let now = Clock {
        slot: 4,
        unix_timestamp: 5,
    };
    run_update_metric(&program, &mut report, [5; 32], 2, now).unwrap();
    let state = report.monitor.state;
    let mut again = InitializeMonitor {
        address,
        monitor: Some(state.clone()),
        authority: key(1),
        bump: 0,
    };
    let refused = Err(InstructionError::Address(AddressError::AccountInUse));
    assert_eq!(run_initialize_monitor(&program, &mut again, label), refused);
    assert_eq!(initialize_monitor(&mut again, label), refused);
    assert_eq!(again.monitor, Some(state));
    assert_eq!(again.bump, 0);
    again.address = key(4);
    again.monitor = None;
    assert_eq!(
        run_initialize_monitor(&program, &mut again, label),
        Err(InstructionError::Address(AddressError::ConstraintSeeds))
    );
}
