//! What an instruction reports when it has been carried out.

use crate::keys::Pubkey;
use crate::state::Comparison;
use vstd::prelude::*;

verus! {

/// A monitor was set up.
#[derive(Clone, Copy, Debug, PartialEq, Eq)]
pub struct MonitorInitialized {
    pub authority: Pubkey,
    pub vault_label: [u8; 32],
    pub monitor: Pubkey,
}

/// A threshold was added to a monitor.
#[derive(Clone, Copy, Debug, PartialEq, Eq)]
pub struct ThresholdAdded {
    pub authority: Pubkey,
    pub name: [u8; 32],
    pub threshold_value: i64,
    pub comparison: Comparison,
    pub monitor: Pubkey,
}

/// A metric crossed its threshold for the first time since it was armed.
#[derive(Clone, Copy, Debug, PartialEq, Eq)]
pub struct BreachEvent {
    pub authority: Pubkey,
    pub vault_label: [u8; 32],
    pub metric_name: [u8; 32],
    pub value: i64,
    pub threshold: i64,
    pub comparison: Comparison,
    pub slot: u64,
    pub timestamp: i64,
    pub monitor: Pubkey,
}

/// The breach flag of a threshold was cleared.
#[derive(Clone, Copy, Debug, PartialEq, Eq)]
pub struct BreachReset {
    pub authority: Pubkey,
    pub metric_name: [u8; 32],
    pub monitor: Pubkey,
}

/// Another key may report metric values from now on.
#[derive(Clone, Copy, Debug, PartialEq, Eq)]
pub struct OracleSignerRotated {
    pub authority: Pubkey,
    pub new_signer: Pubkey,
}

} // verus!
