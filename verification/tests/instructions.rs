use vault_thresholds::{
    add_threshold, initialize_monitor, reset_breach, set_oracle_signer, update_metric,
    AuthorityAction, BreachEvent, BreachReset, Clock, Comparison, InitializeMonitor,
    InstructionError, MonitorAccount, MonitorInitialized, OracleSignerRotated, Pubkey, ThresholdAdded,
    ThresholdConfig, UpdateMetric, VaultMonitor, VaultThresholdsError,
};

fn key(b: u8) -> Pubkey {
    Pubkey::new([b; 32])
}

fn name(text: &[u8]) -> [u8; 32] {
    let mut out = [0u8; 32];
    out[..text.len()].copy_from_slice(text);
    out
}

fn at(slot: u64) -> Clock {
    Clock {
        slot,
        unix_timestamp: 1_700_000_000,
    }
}

const CURATOR: u8 = 1;
const ORACLE: u8 = 2;
const ADDRESS: u8 = 9;

fn fresh() -> VaultMonitor {
    let mut ctx = InitializeMonitor {
        address: key(ADDRESS),
        monitor: None,
        authority: key(CURATOR),
        bump: 254,
    };
    initialize_monitor(&mut ctx, name(b"kamino-main-sol-usdc")).unwrap();
    ctx.monitor.unwrap()
}

fn add(
    state: &mut VaultMonitor,
    caller: u8,
    name: [u8; 32],
    value: i64,
    comparison: Comparison,
) -> Result<ThresholdAdded, VaultThresholdsError> {
    let mut ctx = AuthorityAction {
        monitor: MonitorAccount {
            address: key(ADDRESS),
            state: state.clone(),
        },
        authority: key(caller),
    };
    let r = add_threshold(&mut ctx, name, value, comparison);
    *state = ctx.monitor.state;
    r
}

fn report(
    state: &mut VaultMonitor,
    signer: u8,
    name: [u8; 32],
    value: i64,
    slot: u64,
) -> Result<Option<BreachEvent>, VaultThresholdsError> {
    let mut ctx = UpdateMetric {
        monitor: MonitorAccount {
            address: key(ADDRESS),
            state: state.clone(),
        },
        oracle_signer: key(signer),
    };
    let r = update_metric(&mut ctx, name, value, at(slot));
    *state = ctx.monitor.state;
    r
}

fn reset(
    state: &mut VaultMonitor,
    caller: u8,
    name: [u8; 32],
) -> Result<BreachReset, VaultThresholdsError> {
    let mut ctx = AuthorityAction {
        monitor: MonitorAccount {
            address: key(ADDRESS),
            state: state.clone(),
        },
        authority: key(caller),
    };
    let r = reset_breach(&mut ctx, name);
    *state = ctx.monitor.state;
    r
}

fn rotate(
    state: &mut VaultMonitor,
    caller: u8,
    new_signer: Pubkey,
) -> Result<OracleSignerRotated, VaultThresholdsError> {
    let mut ctx = AuthorityAction {
        monitor: MonitorAccount {
            address: key(ADDRESS),
            state: state.clone(),
        },
        authority: key(caller),
    };
    let r = set_oracle_signer(&mut ctx, new_signer);
    *state = ctx.monitor.state;
    r
}

/// A monitor with the threshold `oi`, in breach above 100, and its own oracle signer.
fn watched() -> VaultMonitor {
    let mut m = fresh();
    add(&mut m, CURATOR, name(b"oi"), 100, Comparison::Above).unwrap();
    rotate(&mut m, CURATOR, key(ORACLE)).unwrap();
    m
}

#[test]
fn initialize_sets_every_field() {
    let mut ctx = InitializeMonitor {
        address: key(ADDRESS),
        monitor: None,
        authority: key(CURATOR),
        bump: 254,
    };
    let event = initialize_monitor(&mut ctx, name(b"vault")).unwrap();
    assert_eq!(
        event,
        MonitorInitialized {
            authority: key(CURATOR),
            vault_label: name(b"vault"),
            monitor: key(ADDRESS),
        }
    );
    assert_eq!(
        ctx.monitor,
        Some(VaultMonitor {
            authority: key(CURATOR),
            oracle_signer: key(CURATOR),
            vault_label: name(b"vault"),
            bump: 254,
            thresholds: Vec::new(),
        })
    );
}

#[test]
fn initialize_refuses_an_all_zero_label() {
    let mut ctx = InitializeMonitor {
        address: key(ADDRESS),
        monitor: None,
        authority: key(CURATOR),
        bump: 254,
    };
    assert_eq!(
        initialize_monitor(&mut ctx, [0u8; 32]),
        Err(InstructionError::Refused(VaultThresholdsError::InvalidVaultLabel))
    );
    assert_eq!(ctx.monitor, None);
    let mut last_byte = [0u8; 32];
    last_byte[31] = 1;
    assert!(initialize_monitor(&mut ctx, last_byte).is_ok());
}

#[test]
fn added_threshold_is_fresh_and_last() {
    let mut m = fresh();
    add(&mut m, CURATOR, name(b"util"), 9000, Comparison::Above).unwrap();
    let event = add(&mut m, CURATOR, name(b"age"), 50, Comparison::Below).unwrap();
    assert_eq!(
        event,
        ThresholdAdded {
            authority: key(CURATOR),
            name: name(b"age"),
            threshold_value: 50,
            comparison: Comparison::Below,
            monitor: key(ADDRESS),
        }
    );
    assert_eq!(m.thresholds.len(), 2);
    assert_eq!(
        m.thresholds[1],
        ThresholdConfig {
            name: name(b"age"),
            threshold_value: 50,
            comparison: Comparison::Below,
            current_value: 0,
            breached: false,
            last_update_slot: 0,
        }
    );
    assert_eq!(m.thresholds[0].name, name(b"util"));
}

#[test]
fn add_refuses_strangers_zero_names_and_duplicates() {
    let mut m = fresh();
    add(&mut m, CURATOR, name(b"oi"), 1, Comparison::Above).unwrap();
    let before = m.clone();
    assert_eq!(
        add(&mut m, ORACLE, name(b"x"), 1, Comparison::Above),
        Err(VaultThresholdsError::Unauthorized)
    );
    assert_eq!(
        add(&mut m, CURATOR, [0u8; 32], 1, Comparison::Above),
        Err(VaultThresholdsError::InvalidThresholdName)
    );
    assert_eq!(
        add(&mut m, CURATOR, name(b"oi"), 2, Comparison::Below),
        Err(VaultThresholdsError::DuplicateThreshold)
    );
    assert_eq!(m, before);
}

#[test]
fn the_seventeenth_threshold_is_refused() {
    let mut m = fresh();
    for i in 0..16u8 {
        add(&mut m, CURATOR, [i + 1; 32], 1, Comparison::Above).unwrap();
    }
    let before = m.clone();
    assert_eq!(
        add(&mut m, CURATOR, [17; 32], 1, Comparison::Above),
        Err(VaultThresholdsError::TooManyThresholds)
    );
    assert_eq!(
        add(&mut m, CURATOR, [3; 32], 1, Comparison::Above),
        Err(VaultThresholdsError::TooManyThresholds)
    );
    assert_eq!(m, before);
    assert_eq!(m.thresholds.len(), 16);
}

#[test]
fn a_breach_is_published_once_until_it_is_cleared() {
    let mut m = watched();
    assert_eq!(report(&mut m, ORACLE, name(b"oi"), 100, 10), Ok(None));
    assert!(!m.thresholds[0].breached);
    assert_eq!(
        report(&mut m, ORACLE, name(b"oi"), 150, 11),
        Ok(Some(BreachEvent {
            authority: key(CURATOR),
            vault_label: name(b"kamino-main-sol-usdc"),
            metric_name: name(b"oi"),
            value: 150,
            threshold: 100,
            comparison: Comparison::Above,
            slot: 11,
            timestamp: 1_700_000_000,
            monitor: key(ADDRESS),
        }))
    );
    assert!(m.thresholds[0].breached);
    assert_eq!(report(&mut m, ORACLE, name(b"oi"), 160, 12), Ok(None));
    assert_eq!(report(&mut m, ORACLE, name(b"oi"), 40, 13), Ok(None));
    assert!(m.thresholds[0].breached);
    assert_eq!(report(&mut m, ORACLE, name(b"oi"), 170, 14), Ok(None));
    assert_eq!(
        reset(&mut m, CURATOR, name(b"oi")),
        Ok(BreachReset {
            authority: key(CURATOR),
            metric_name: name(b"oi"),
            monitor: key(ADDRESS),
        })
    );
    assert!(!m.thresholds[0].breached);
    let again = report(&mut m, ORACLE, name(b"oi"), 180, 15).unwrap().unwrap();
    assert_eq!(again.value, 180);
    assert!(m.thresholds[0].breached);
}

#[test]
fn the_first_value_in_breach_is_published() {
    let mut m = watched();
    let values = [20, 100, 20, 101, 50, 300, 101];
    let mut published = Vec::new();
    for (i, value) in values.iter().enumerate() {
        if report(&mut m, ORACLE, name(b"oi"), *value, 10 + i as u64).unwrap().is_some() {
            published.push(i);
        }
        assert_eq!(m.thresholds[0].current_value, *value);
        assert_eq!(m.thresholds[0].breached, i >= 3);
    }
    assert_eq!(published, vec![3]);
}

#[test]
fn the_first_new_breach_after_a_reset_is_published() {
    let mut m = watched();
    report(&mut m, ORACLE, name(b"oi"), 150, 10).unwrap();
    reset(&mut m, CURATOR, name(b"oi")).unwrap();
    let armed = m.clone();
    let values = [150, 150, 20, 150, 150, 151];
    let mut published = Vec::new();
    for (i, value) in values.iter().enumerate() {
        if report(&mut m, ORACLE, name(b"oi"), *value, 20 + i as u64).unwrap().is_some() {
            published.push(i);
        }
        assert_eq!(m.thresholds[0].current_value, *value);
        assert_eq!(m.thresholds[0].breached, i >= 3);
        if i < 2 {
            assert_eq!(m, armed);
        }
    }
    assert_eq!(published, vec![3]);
}

#[test]
fn a_raised_flag_publishes_nothing_more() {
    let mut m = watched();
    report(&mut m, ORACLE, name(b"oi"), 150, 10).unwrap();
    for (i, value) in [20, 200, 150, 300].iter().enumerate() {
        assert_eq!(report(&mut m, ORACLE, name(b"oi"), *value, 20 + i as u64), Ok(None));
        assert!(m.thresholds[0].breached);
    }
}

#[test]
fn a_breach_below_the_limit() {
    let mut m = fresh();
    add(&mut m, CURATOR, name(b"age"), 50, Comparison::Below).unwrap();
    assert_eq!(report(&mut m, CURATOR, name(b"age"), 60, 1), Ok(None));
    let event = report(&mut m, CURATOR, name(b"age"), 30, 2).unwrap().unwrap();
    assert_eq!(event.threshold, 50);
    assert_eq!(event.comparison, Comparison::Below);
}

#[test]
fn report_touches_its_own_threshold_alone() {
    let mut m = watched();
    add(&mut m, CURATOR, name(b"util"), 10, Comparison::Above).unwrap();
    let before = m.clone();
    report(&mut m, ORACLE, name(b"util"), 20, 5).unwrap();
    assert_eq!(m.thresholds[0], before.thresholds[0]);
    assert_eq!(
        m.thresholds[1],
        ThresholdConfig {
            current_value: 20,
            breached: true,
            last_update_slot: 5,
            ..before.thresholds[1]
        }
    );
    assert_eq!(m.oracle_signer, before.oracle_signer);
}

#[test]
fn report_refusals_change_nothing() {
    let mut m = watched();
    report(&mut m, ORACLE, name(b"oi"), 7, 10).unwrap();
    let before = m.clone();
    assert_eq!(
        report(&mut m, CURATOR, name(b"oi"), 8, 11),
        Err(VaultThresholdsError::UnauthorizedOracle)
    );
    assert_eq!(
        report(&mut m, ORACLE, name(b"oi"), i64::MIN, 11),
        Err(VaultThresholdsError::InvalidMetricValue)
    );
    assert_eq!(
        report(&mut m, ORACLE, name(b"oi"), i64::MAX, 11),
        Err(VaultThresholdsError::InvalidMetricValue)
    );
    assert_eq!(
        report(&mut m, ORACLE, name(b"none"), 8, 11),
        Err(VaultThresholdsError::ThresholdNotFound)
    );
    assert_eq!(
        report(&mut m, ORACLE, name(b"oi"), 8, 9),
        Err(VaultThresholdsError::StaleUpdate)
    );
    assert_eq!(
        report(&mut m, ORACLE, name(b"oi"), 7, 9),
        Err(VaultThresholdsError::StaleUpdate)
    );
    assert_eq!(m, before);
    assert_eq!(report(&mut m, ORACLE, name(b"oi"), i64::MAX - 1, 10).unwrap().unwrap().slot, 10);
}

#[test]
fn repeated_value_is_accepted_silently() {
    let mut m = watched();
    report(&mut m, ORACLE, name(b"oi"), 150, 10).unwrap();
    let before = m.clone();
    assert_eq!(report(&mut m, ORACLE, name(b"oi"), 150, 20), Ok(None));
    assert_eq!(m, before);
    assert_eq!(m.thresholds[0].last_update_slot, 10);
}

#[test]
fn repeated_value_stays_silent_after_a_reset() {
    let mut m = watched();
    report(&mut m, ORACLE, name(b"oi"), 150, 10).unwrap();
    reset(&mut m, CURATOR, name(b"oi")).unwrap();
    assert_eq!(report(&mut m, ORACLE, name(b"oi"), 150, 20), Ok(None));
    assert!(!m.thresholds[0].breached);
    assert!(report(&mut m, ORACLE, name(b"oi"), 151, 20).unwrap().is_some());
}

#[test]
fn first_report_of_zero_is_recorded() {
    let mut m = fresh();
    add(&mut m, CURATOR, name(b"age"), 50, Comparison::Below).unwrap();
    let event = report(&mut m, CURATOR, name(b"age"), 0, 3).unwrap();
    assert!(event.is_some());
    assert_eq!(m.thresholds[0].last_update_slot, 3);
}

#[test]
fn reset_refusals_and_idle_reset() {
    let mut m = watched();
    report(&mut m, ORACLE, name(b"oi"), 150, 10).unwrap();
    let before = m.clone();
    assert_eq!(
        reset(&mut m, ORACLE, name(b"oi")),
        Err(VaultThresholdsError::Unauthorized)
    );
    assert_eq!(
        reset(&mut m, CURATOR, name(b"none")),
        Err(VaultThresholdsError::ThresholdNotFound)
    );
    assert_eq!(m, before);
    assert!(reset(&mut m, CURATOR, name(b"oi")).is_ok());
    assert!(reset(&mut m, CURATOR, name(b"oi")).is_ok());
    assert_eq!(m.thresholds[0].current_value, 150);
    assert_eq!(m.thresholds[0].last_update_slot, 10);
}

#[test]
fn rotation_hands_the_reports_over() {
    let mut m = fresh();
    add(&mut m, CURATOR, name(b"oi"), 100, Comparison::Above).unwrap();
    assert_eq!(
        rotate(&mut m, ORACLE, key(ORACLE)),
        Err(VaultThresholdsError::Unauthorized)
    );
    assert_eq!(
        rotate(&mut m, CURATOR, Pubkey::default()),
        Err(VaultThresholdsError::InvalidOracleSigner)
    );
    assert_eq!(m.oracle_signer, key(CURATOR));
    assert_eq!(
        rotate(&mut m, CURATOR, key(ORACLE)),
        Ok(OracleSignerRotated {
            authority: key(CURATOR),
            new_signer: key(ORACLE),
        })
    );
    assert_eq!(
        report(&mut m, CURATOR, name(b"oi"), 1, 1),
        Err(VaultThresholdsError::UnauthorizedOracle)
    );
    assert_eq!(report(&mut m, ORACLE, name(b"oi"), 1, 1), Ok(None));
    assert_eq!(m.authority, key(CURATOR));
}

#[test]
fn errors_have_their_numbers_and_messages() {
    assert_eq!(VaultThresholdsError::TooManyThresholds.code(), 6000);
    assert_eq!(VaultThresholdsError::Unauthorized.code(), 6004);
    assert_eq!(VaultThresholdsError::InvalidOracleSigner.code(), 6009);
    assert_eq!(
        VaultThresholdsError::TooManyThresholds.message(),
        "Threshold list is full (max 16)."
    );
    assert_eq!(
        VaultThresholdsError::UnauthorizedOracle.message(),
        "Caller is not the configured oracle signer."
    );
}
