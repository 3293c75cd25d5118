//! The instructions as the program runs them: first the account of the monitor
//! is checked, and only then is the instruction carried out.

use crate::error::{AddressError, InstructionError};
use crate::events::{
    BreachEvent, BreachReset, MonitorInitialized, OracleSignerRotated, ThresholdAdded,
};
use crate::instructions::{
    add_threshold, initialize_monitor, reset_breach, set_oracle_signer, update_metric,
};
use crate::keys::Pubkey;
use crate::state::{AuthorityAction, Clock, Comparison, InitializeMonitor, UpdateMetric};
use vstd::prelude::*;

verus! {

/// Why setting up a monitor in the account at `address` is turned down, if it is.
pub open spec fn run_set_up_refusal(
    address: Pubkey,
    occupied: bool,
    authority: Pubkey,
    vault_label: [u8; 32],
    program_id: Pubkey,
) -> Option<InstructionError> {
    match crate::address::set_up_bump(address, authority, vault_label, program_id) {
        Ok(_) => crate::model::set_up_refusal(occupied, vault_label),
        Err(e) => Some(InstructionError::Address(e)),
    }
}

/// Runs [`initialize_monitor`] on an account at the canonical address for the
/// signing curator and the vault. The caller has just created the account, so
/// that it holds no monitor; one that holds a monitor is turned down and kept.
pub fn run_initialize_monitor(
    program_id: &Pubkey,
    ctx: &mut InitializeMonitor,
    vault_label: [u8; 32],
) -> (r: Result<MonitorInitialized, InstructionError>)
    ensures
        match run_set_up_refusal(
            old(ctx).address,
            old(ctx).monitor is Some,
            old(ctx).authority,
            vault_label,
            *program_id,
        ) {
            Some(reason) => r == Err::<MonitorInitialized, _>(reason) && *final(ctx) == *old(ctx),
            None => {
                &&& r == Ok::<_, InstructionError>(
                    MonitorInitialized {
                        authority: old(ctx).authority,
                        vault_label,
                        monitor: old(ctx).address,
                    },
                )
                &&& crate::address::is_canonical_bump(
                    old(ctx).authority,
                    vault_label,
                    final(ctx).bump,
                    *program_id,
                )
                &&& crate::address::monitor_address(
                    old(ctx).authority,
                    vault_label,
                    final(ctx).bump,
                    *program_id,
                ) == Some(old(ctx).address@)
                &&& final(ctx).monitor matches Some(m) && m@
                    == crate::model::MonitorState::initial(
                    old(ctx).authority,
                    vault_label,
                    final(ctx).bump,
                ) && m@.well_formed()
            },
        },
        final(ctx).address == old(ctx).address,
        final(ctx).authority == old(ctx).authority,
{
    match ctx.validate(&vault_label, program_id) {
        Ok(bump) => {
            let given: u8 = ctx.bump;
            ctx.bump = bump;
            let r = initialize_monitor(ctx, vault_label);
            if r.is_err() {
                ctx.bump = given;
            }
            r
        },
        Err(e) => Err(InstructionError::Address(e)),
    }
}

/// Runs [`add_threshold`] on a monitor at its own address.
pub fn run_add_threshold(
    program_id: &Pubkey,
    ctx: &mut AuthorityAction,
    name: [u8; 32],
    threshold_value: i64,
    comparison: Comparison,
) -> (r: Result<ThresholdAdded, InstructionError>)
    ensures
        !old(ctx).monitor.at_derived_address(*program_id) ==> r == Err::<ThresholdAdded, _>(
            InstructionError::Address(AddressError::ConstraintSeeds),
        ) && *final(ctx) == *old(ctx),
        old(ctx).monitor.at_derived_address(*program_id) ==> match old(
            ctx,
        ).monitor.state@.add_refusal(old(ctx).authority, name) {
            Some(reason) => r == Err::<ThresholdAdded, _>(InstructionError::Refused(reason))
                && *final(ctx) == *old(ctx),
            None => {
                &&& r == Ok::<_, InstructionError>(
                    ThresholdAdded {
                        authority: old(ctx).monitor.state.authority,
                        name,
                        threshold_value,
                        comparison,
                        monitor: old(ctx).monitor.address,
                    },
                )
                &&& final(ctx).monitor.state@ == old(ctx).monitor.state@.added(
                    name,
                    threshold_value,
                    comparison,
                )
            },
        },
        old(ctx).monitor.state@.well_formed() ==> final(ctx).monitor.state@.well_formed(),
        final(ctx).monitor.address == old(ctx).monitor.address,
        final(ctx).authority == old(ctx).authority,
{
    match ctx.validate(program_id) {
        Ok(_) => match add_threshold(ctx, name, threshold_value, comparison) {
            Ok(event) => Ok(event),
            Err(reason) => Err(InstructionError::Refused(reason)),
        },
        Err(e) => Err(InstructionError::Address(e)),
    }
}

/// Runs [`update_metric`] on a monitor at its own address.
pub fn run_update_metric(
    program_id: &Pubkey,
    ctx: &mut UpdateMetric,
    name: [u8; 32],
    new_value: i64,
    clock: Clock,
) -> (r: Result<Option<BreachEvent>, InstructionError>)
    ensures
        !old(ctx).monitor.at_derived_address(*program_id) ==> r == Err::<Option<BreachEvent>, _>(
            InstructionError::Address(AddressError::ConstraintSeeds),
        ) && *final(ctx) == *old(ctx),
        old(ctx).monitor.at_derived_address(*program_id) ==> match old(
            ctx,
        ).monitor.state@.update_refusal(old(ctx).oracle_signer, name, new_value, clock.slot) {
            Some(reason) => r == Err::<Option<BreachEvent>, _>(InstructionError::Refused(reason))
                && *final(ctx) == *old(ctx),
            None => {
                &&& r == Ok::<_, InstructionError>(
                    old(ctx).monitor.state@.breach_event(
                        old(ctx).monitor.address,
                        name,
                        new_value,
                        clock,
                    ),
                )
                &&& final(ctx).monitor.state@ == old(ctx).monitor.state@.updated(
                    name,
                    new_value,
                    clock.slot,
                )
            },
        },
        old(ctx).monitor.state@.well_formed() ==> final(ctx).monitor.state@.well_formed(),
        final(ctx).monitor.address == old(ctx).monitor.address,
        final(ctx).oracle_signer == old(ctx).oracle_signer,
{
    match ctx.validate(program_id) {
        Ok(_) => match update_metric(ctx, name, new_value, clock) {
            Ok(event) => Ok(event),
            Err(reason) => Err(InstructionError::Refused(reason)),
        },
        Err(e) => Err(InstructionError::Address(e)),
    }
}

/// Runs [`reset_breach`] on a monitor at its own address.
pub fn run_reset_breach(program_id: &Pubkey, ctx: &mut AuthorityAction, name: [u8; 32]) -> (r:
    Result<BreachReset, InstructionError>)
    ensures
        !old(ctx).monitor.at_derived_address(*program_id) ==> r == Err::<BreachReset, _>(
            InstructionError::Address(AddressError::ConstraintSeeds),
        ) && *final(ctx) == *old(ctx),
        old(ctx).monitor.at_derived_address(*program_id) ==> match old(
            ctx,
        ).monitor.state@.reset_refusal(old(ctx).authority, name) {
            Some(reason) => r == Err::<BreachReset, _>(InstructionError::Refused(reason))
                && *final(ctx) == *old(ctx),
            None => {
                &&& r == Ok::<_, InstructionError>(
                    BreachReset {
                        authority: old(ctx).monitor.state.authority,
                        metric_name: name,
                        monitor: old(ctx).monitor.address,
                    },
                )
                &&& final(ctx).monitor.state@ == old(ctx).monitor.state@.reset(name)
            },
        },
        old(ctx).monitor.state@.well_formed() ==> final(ctx).monitor.state@.well_formed(),
        final(ctx).monitor.address == old(ctx).monitor.address,
        final(ctx).authority == old(ctx).authority,
{
    match ctx.validate(program_id) {
        Ok(_) => match reset_breach(ctx, name) {
            Ok(event) => Ok(event),
            Err(reason) => Err(InstructionError::Refused(reason)),
        },
        Err(e) => Err(InstructionError::Address(e)),
    }
}

/// Runs [`set_oracle_signer`] on a monitor at its own address.
pub fn run_set_oracle_signer(
    program_id: &Pubkey,
    ctx: &mut AuthorityAction,
    new_signer: Pubkey,
) -> (r: Result<OracleSignerRotated, InstructionError>)
    ensures
        !old(ctx).monitor.at_derived_address(*program_id) ==> r == Err::<OracleSignerRotated, _>(
            InstructionError::Address(AddressError::ConstraintSeeds),
        ) && *final(ctx) == *old(ctx),
        old(ctx).monitor.at_derived_address(*program_id) ==> match old(
            ctx,
        ).monitor.state@.rotate_refusal(old(ctx).authority, new_signer) {
            Some(reason) => r == Err::<OracleSignerRotated, _>(InstructionError::Refused(reason))
                && *final(ctx) == *old(ctx),
            None => {
                &&& r == Ok::<_, InstructionError>(
                    OracleSignerRotated {
                        authority: old(ctx).monitor.state.authority,
                        new_signer,
                    },
                )
                &&& final(ctx).monitor.state@ == old(ctx).monitor.state@.rotated(new_signer)
            },
        },
        old(ctx).monitor.state@.well_formed() ==> final(ctx).monitor.state@.well_formed(),
        final(ctx).monitor.address == old(ctx).monitor.address,
        final(ctx).authority == old(ctx).authority,
{
    match ctx.validate(program_id) {
        Ok(_) => match set_oracle_signer(ctx, new_signer) {
            Ok(event) => Ok(event),
            Err(reason) => Err(InstructionError::Refused(reason)),
        },
        Err(e) => Err(InstructionError::Address(e)),
    }
}

} // verus!
