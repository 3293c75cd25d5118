//! The five instructions.
//!
//! Each one checks its caller and its arguments, changes the monitor and
//! returns the event to publish. A refused instruction returns the reason and
//! leaves the accounts as they were.

use crate::error::{AddressError, InstructionError, VaultThresholdsError};
use crate::events::{
    BreachEvent, BreachReset, MonitorInitialized, OracleSignerRotated, ThresholdAdded,
};
use crate::keys::{is_zero, same_bytes, Pubkey};
use crate::state::{
    AuthorityAction, Clock, Comparison, InitializeMonitor, ThresholdConfig, UpdateMetric,
    VaultMonitor, MAX_THRESHOLDS,
};
use vstd::prelude::*;

verus! {

impl VaultMonitor {
    /// Looks up the threshold called `name`, the first one if there are several.
    fn find(&self, name: &[u8; 32]) -> (found: Option<usize>)
        ensures
            found matches Some(i) ==> self@.position(*name) == Some(i as int) && i
                < self.thresholds.len(),
            found is None ==> !self@.has(*name),
    {
        for i in 0..self.thresholds.len()
            invariant
                self@.position(*name) == crate::model::position_from(
                    self.thresholds@,
                    *name,
                    i as int,
                ),
        {
            if same_bytes(&self.thresholds[i].name, name) {
                return Some(i);
            }
        }
        None
    }
}

/// Sets up a monitor for the signing curator, who also becomes its oracle
/// signer. The account must not hold a monitor yet, and the label of the vault
/// must not be all zero.
pub fn initialize_monitor(ctx: &mut InitializeMonitor, vault_label: [u8; 32]) -> (r: Result<
    MonitorInitialized,
    InstructionError,
>)
    ensures
        match crate::model::set_up_refusal(old(ctx).monitor is Some, vault_label) {
            Some(reason) => r == Err::<MonitorInitialized, _>(reason) && *final(ctx) == *old(ctx),
            None => {
                &&& r == Ok::<_, InstructionError>(
                    MonitorInitialized {
                        authority: old(ctx).authority,
                        vault_label,
                        monitor: old(ctx).address,
                    },
                )
                &&& final(ctx).monitor matches Some(m) && m@
                    == crate::model::MonitorState::initial(
                    old(ctx).authority,
                    vault_label,
                    old(ctx).bump,
                ) && m@.well_formed()
            },
        },
        final(ctx).address == old(ctx).address,
        final(ctx).authority == old(ctx).authority,
        final(ctx).bump == old(ctx).bump,
{
    if ctx.monitor.is_some() {
        return Err(InstructionError::Address(AddressError::AccountInUse));
    }
    if is_zero(&vault_label) {
        return Err(InstructionError::Refused(VaultThresholdsError::InvalidVaultLabel));
    }
    ctx.monitor = Some(
        VaultMonitor {
            authority: ctx.authority,
            oracle_signer: ctx.authority,
            vault_label,
            bump: ctx.bump,
            thresholds: Vec::new(),
        },
    );
    Ok(MonitorInitialized { authority: ctx.authority, vault_label, monitor: ctx.address })
}

/// Appends a threshold, with nothing reported and no breach. Authority only.
/// The name must not be all zero nor be taken, and the list must not be full.
pub fn add_threshold(
    ctx: &mut AuthorityAction,
    name: [u8; 32],
    threshold_value: i64,
    comparison: Comparison,
) -> (r: Result<ThresholdAdded, VaultThresholdsError>)
    ensures
        match old(ctx).monitor.state@.add_refusal(old(ctx).authority, name) {
            Some(reason) => r == Err::<ThresholdAdded, _>(reason) && *final(ctx) == *old(ctx),
            None => {
                &&& r == Ok::<_, VaultThresholdsError>(
                    ThresholdAdded {
                        authority: old(ctx).monitor.state.authority,
                        name,
                        threshold_value,
                        comparison,
                        monitor: old(ctx).monitor.address,
                    },
                )
                &&& final(ctx).monitor.state@ == old(ctx).monitor.state@.added(
                    name,
                    threshold_value,
                    comparison,
                )
            },
        },
        old(ctx).monitor.state@.well_formed() ==> final(ctx).monitor.state@.well_formed(),
        final(ctx).monitor.address == old(ctx).monitor.address,
        final(ctx).authority == old(ctx).authority,
{
    if ctx.authority != ctx.monitor.state.authority {
        return Err(VaultThresholdsError::Unauthorized);
    }
    if is_zero(&name) {
        return Err(VaultThresholdsError::InvalidThresholdName);
    }
    if ctx.monitor.state.thresholds.len() >= MAX_THRESHOLDS {
        return Err(VaultThresholdsError::TooManyThresholds);
    }
    if ctx.monitor.state.find(&name).is_some() {
        return Err(VaultThresholdsError::DuplicateThreshold);
    }
    proof {
        if old(ctx).monitor.state@.well_formed() {
            crate::model::lemma_added_well_formed(
                old(ctx).monitor.state@,
                old(ctx).authority,
                name,
                threshold_value,
                comparison,
            );
        }
    }
    ctx.monitor.state.thresholds.push(
        ThresholdConfig {
            name,
            threshold_value,
            comparison,
            current_value: 0,
            breached: false,
            last_update_slot: 0,
        },
    );
    Ok(
        ThresholdAdded {
            authority: ctx.monitor.state.authority,
            name,
            threshold_value,
            comparison,
            monitor: ctx.monitor.address,
        },
    )
}

/// Records the value that the oracle signer reports for a metric. Sentinel
/// values and slots before the last applied one are refused. A repeated value
/// is accepted and changes nothing.
///
/// The event is there exactly when the flag of the threshold goes up.
pub fn update_metric(
    ctx: &mut UpdateMetric,
    name: [u8; 32],
    new_value: i64,
    clock: Clock,
) -> (r: Result<Option<BreachEvent>, VaultThresholdsError>)
    ensures
        match old(ctx).monitor.state@.update_refusal(
            old(ctx).oracle_signer,
            name,
            new_value,
            clock.slot,
        ) {
            Some(reason) => r == Err::<Option<BreachEvent>, _>(reason) && *final(ctx) == *old(ctx),
            None => {
                &&& r == Ok::<_, VaultThresholdsError>(
                    old(ctx).monitor.state@.breach_event(
                        old(ctx).monitor.address,
                        name,
                        new_value,
                        clock,
                    ),
                )
                &&& final(ctx).monitor.state@ == old(ctx).monitor.state@.updated(
                    name,
                    new_value,
                    clock.slot,
                )
            },
        },
        old(ctx).monitor.state@.well_formed() ==> final(ctx).monitor.state@.well_formed(),
        final(ctx).monitor.address == old(ctx).monitor.address,
        final(ctx).oracle_signer == old(ctx).oracle_signer,
{
    if ctx.oracle_signer != ctx.monitor.state.oracle_signer {
        return Err(VaultThresholdsError::UnauthorizedOracle);
    }
    if new_value == i64::MIN || new_value == i64::MAX {
        return Err(VaultThresholdsError::InvalidMetricValue);
    }
    let i: usize = match ctx.monitor.state.find(&name) {
        Some(i) => i,
        None => {
            return Err(VaultThresholdsError::ThresholdNotFound);
        },
    };
    let mut t: ThresholdConfig = ctx.monitor.state.thresholds[i];
    if clock.slot < t.last_update_slot {
        return Err(VaultThresholdsError::StaleUpdate);
    }
    if t.current_value == new_value && t.last_update_slot != 0 {
        return Ok(None);
    }
    proof {
        if old(ctx).monitor.state@.well_formed() {
            crate::model::lemma_updated_well_formed(
                old(ctx).monitor.state@,
                old(ctx).oracle_signer,
                name,
                new_value,
                clock.slot,
            );
        }
    }
    t.current_value = new_value;
    t.last_update_slot = clock.slot;
    let crossing = t.comparison.breaches(new_value, t.threshold_value) && !t.breached;
    if crossing {
        t.breached = true;
    }
    ctx.monitor.state.thresholds[i] = t;
    if crossing {
        Ok(
            Some(
                BreachEvent {
                    authority: ctx.monitor.state.authority,
                    vault_label: ctx.monitor.state.vault_label,
                    metric_name: name,
                    value: new_value,
                    threshold: t.threshold_value,
                    comparison: t.comparison,
                    slot: clock.slot,
                    timestamp: clock.unix_timestamp,
                    monitor: ctx.monitor.address,
                },
            ),
        )
    } else {
        Ok(None)
    }
}

/// Clears the breach flag of a threshold, whether or not it is up. Authority only.
pub fn reset_breach(ctx: &mut AuthorityAction, name: [u8; 32]) -> (r: Result<
    BreachReset,
    VaultThresholdsError,
>)
    ensures
        match old(ctx).monitor.state@.reset_refusal(old(ctx).authority, name) {
            Some(reason) => r == Err::<BreachReset, _>(reason) && *final(ctx) == *old(ctx),
            None => {
                &&& r == Ok::<_, VaultThresholdsError>(
                    BreachReset {
                        authority: old(ctx).monitor.state.authority,
                        metric_name: name,
                        monitor: old(ctx).monitor.address,
                    },
                )
                &&& final(ctx).monitor.state@ == old(ctx).monitor.state@.reset(name)
            },
        },
        old(ctx).monitor.state@.well_formed() ==> final(ctx).monitor.state@.well_formed(),
        final(ctx).monitor.address == old(ctx).monitor.address,
        final(ctx).authority == old(ctx).authority,
{
    if ctx.authority != ctx.monitor.state.authority {
        return Err(VaultThresholdsError::Unauthorized);
    }
    let i: usize = match ctx.monitor.state.find(&name) {
        Some(i) => i,
        None => {
            return Err(VaultThresholdsError::ThresholdNotFound);
        },
    };
    let mut t: ThresholdConfig = ctx.monitor.state.thresholds[i];
    proof {
        if old(ctx).monitor.state@.well_formed() {
            crate::model::lemma_reset_well_formed(old(ctx).monitor.state@, name);
        }
    }
    t.breached = false;
    ctx.monitor.state.thresholds[i] = t;
    Ok(
        BreachReset {
            authority: ctx.monitor.state.authority,
            metric_name: name,
            monitor: ctx.monitor.address,
        },
    )
}

/// Hands the right to report metric values to another key, which must not be
/// the all-zero one. Authority only.
pub fn set_oracle_signer(ctx: &mut AuthorityAction, new_signer: Pubkey) -> (r: Result<
    OracleSignerRotated,
    VaultThresholdsError,
>)
    ensures
        match old(ctx).monitor.state@.rotate_refusal(old(ctx).authority, new_signer) {
            Some(reason) => r == Err::<OracleSignerRotated, _>(reason) && *final(ctx) == *old(ctx),
            None => {
                &&& r == Ok::<_, VaultThresholdsError>(
                    OracleSignerRotated {
                        authority: old(ctx).monitor.state.authority,
                        new_signer,
                    },
                )
                &&& final(ctx).monitor.state@ == old(ctx).monitor.state@.rotated(new_signer)
            },
        },
        old(ctx).monitor.state@.well_formed() ==> final(ctx).monitor.state@.well_formed(),
        final(ctx).monitor.address == old(ctx).monitor.address,
        final(ctx).authority == old(ctx).authority,
{
    if ctx.authority != ctx.monitor.state.authority {
        return Err(VaultThresholdsError::Unauthorized);
    }
    if is_zero(&new_signer.bytes) {
        return Err(VaultThresholdsError::InvalidOracleSigner);
    }
    ctx.monitor.state.oracle_signer = new_signer;
    Ok(OracleSignerRotated { authority: ctx.monitor.state.authority, new_signer })
}

} // verus!
