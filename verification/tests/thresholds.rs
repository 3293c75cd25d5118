use vault_thresholds::{Comparison, ThresholdConfig, VAULT_MONITOR_SPACE};

fn _name(bytes: &[u8]) -> [u8; 32] {
    let mut out = [0u8; 32];
    out[..bytes.len()].copy_from_slice(bytes);
    out
}

#[test]
fn name_helper_pads_short_strings() {
    let n = _name(b"oracle_freeze");
    assert_eq!(&n[..13], b"oracle_freeze");
    assert_eq!(n[13], 0);
}

#[test]
fn comparison_above_triggers_correctly() {
    assert!(matches!(Comparison::Above, Comparison::Above));
}

#[test]
fn threshold_config_round_trip_serialization() {
    let cfg = ThresholdConfig {
        name: _name(b"util"),
        threshold_value: 9000, // 90.00% in bps
        comparison: Comparison::Above,
        current_value: 8500,
        breached: false,
        last_update_slot: 250_000_000,
    };
    let bytes = cfg.to_vec();
    let restored: ThresholdConfig = ThresholdConfig::try_from_slice(&bytes).expect("decode");
    assert_eq!(cfg, restored);
}

#[test]
fn vault_monitor_space_fits_max_thresholds() {
    // Verify VAULT_MONITOR_SPACE is large enough for max-capacity Vec.
    let cfg = ThresholdConfig {
        name: [0u8; 32],
        threshold_value: 0,
        comparison: Comparison::Below,
        current_value: 0,
        breached: false,
        last_update_slot: 0,
    };
    let cfg_size = cfg.to_vec().len();
    // 8 disc + 32 auth + 32 oracle + 32 label + 1 bump + 4 vec_len + 16*cfg_size
    let needed = 8 + 32 + 32 + 32 + 1 + 4 + 16 * cfg_size;
    assert!(
        VAULT_MONITOR_SPACE >= needed,
        "VAULT_MONITOR_SPACE {} < required {} (cfg_size={})",
        VAULT_MONITOR_SPACE,
        needed,
        cfg_size
    );
}

#[test]
fn breach_logic_above() {
    let mut t = ThresholdConfig {
        name: _name(b"oi"),
        threshold_value: 100,
        comparison: Comparison::Above,
        current_value: 50,
        breached: false,
        last_update_slot: 0,
    };
    // Below threshold: no breach
    let new_breach = matches!(t.comparison, Comparison::Above) && 50 > t.threshold_value;
    assert!(!new_breach);
    assert!(!t.comparison.breaches(50, t.threshold_value));
    // Above threshold: breach
    t.current_value = 150;
    let now_breached =
        matches!(t.comparison, Comparison::Above) && t.current_value > t.threshold_value;
    assert!(now_breached);
    assert!(t.comparison.breaches(t.current_value, t.threshold_value));
    // Sticky: re-fall below should NOT clear flag without reset
    let still_breached_if_set = t.breached || now_breached;
    assert!(still_breached_if_set);
}

#[test]
fn breach_logic_below() {
    let t = ThresholdConfig {
        name: _name(b"oracle_freshness"),
        threshold_value: 50,
        comparison: Comparison::Below,
        current_value: 30,
        breached: false,
        last_update_slot: 0,
    };
    let now_breached =
        matches!(t.comparison, Comparison::Below) && t.current_value < t.threshold_value;
    assert!(now_breached);
    assert!(t.comparison.breaches(t.current_value, t.threshold_value));
}

#[test]
fn the_limit_itself_is_no_breach() {
    assert!(!Comparison::Above.breaches(100, 100));
    assert!(Comparison::Above.breaches(101, 100));
    assert!(!Comparison::Below.breaches(100, 100));
    assert!(Comparison::Below.breaches(99, 100));
    assert!(!Comparison::Below.breaches(101, 100));
    assert!(Comparison::Below.breaches(-5, -4));
}
