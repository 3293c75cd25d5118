//! What is stored on chain for a monitored vault, and the accounts that an
//! instruction works on.

use crate::keys::Pubkey;
use crate::model::MonitorState;
use vstd::prelude::*;

verus! {

/// Largest number of thresholds that one monitor holds.
pub const MAX_THRESHOLDS: usize = 16;

/// Length of a vault label in bytes.
pub const VAULT_LABEL_LEN: usize = 32;

/// Length of a threshold name in bytes.
pub const NAME_LEN: usize = 32;

/// Bytes allocated for the account of a monitor.
pub const VAULT_MONITOR_SPACE: usize = 1100;

/// On which side of its threshold a metric is in breach.
#[derive(Clone, Copy, Debug, PartialEq, Eq, Structural)]
pub enum Comparison {
    /// In breach when the value is greater than the threshold.
    Above,
    /// In breach when the value is less than the threshold.
    Below,
}

impl Comparison {
    /// Whether `value` lies on the breach side of `threshold`.
    pub open spec fn in_breach(self, value: int, threshold: int) -> bool {
        match self {
            Comparison::Above => value > threshold,
            Comparison::Below => value < threshold,
        }
    }

    /// Tells whether `value` is in breach of `threshold`. A value equal to the
    /// threshold never is.
    pub fn breaches(&self, value: i64, threshold: i64) -> (breach: bool)
        ensures
            breach == self.in_breach(value as int, threshold as int),
            breach <==> (*self is Above && value > threshold) || (*self is Below && value
                < threshold),
    {
        match self {
            Comparison::Above => value > threshold,
            Comparison::Below => value < threshold,
        }
    }
}

/// One metric under watch, with the limit set for it and its last report.
#[derive(Clone, Copy, Debug, PartialEq, Eq)]
pub struct ThresholdConfig {
    /// Name of the metric, padded with zero bytes.
    pub name: [u8; NAME_LEN],
    /// The limit, in the fixed decimals that the curator chose.
    pub threshold_value: i64,
    /// The side of the limit that is a breach.
    pub comparison: Comparison,
    /// The value reported last; zero before the first report.
    pub current_value: i64,
    /// Set by the first breach, cleared only by the authority.
    pub breached: bool,
    /// Slot of the report that was applied last; zero before the first one.
    pub last_update_slot: u64,
}

/// The account of one monitored vault.
#[derive(Debug, PartialEq, Eq)]
pub struct VaultMonitor {
    /// The curator who owns the monitor.
    pub authority: Pubkey,
    /// The key that may report metric values.
    pub oracle_signer: Pubkey,
    /// Opaque label of the vault.
    pub vault_label: [u8; VAULT_LABEL_LEN],
    /// The bump seed of the account's address.
    pub bump: u8,
    /// The thresholds in the order in which they were added.
    pub thresholds: Vec<ThresholdConfig>,
}

impl Clone for VaultMonitor {
    fn clone(&self) -> (copy: VaultMonitor)
        ensures
            copy@ == self@,
    {
        VaultMonitor {
            authority: self.authority,
            oracle_signer: self.oracle_signer,
            vault_label: self.vault_label,
            bump: self.bump,
            thresholds: self.thresholds.clone(),
        }
    }
}

impl View for VaultMonitor {
    type V = MonitorState;

    open spec fn view(&self) -> MonitorState {
        MonitorState {
            authority: self.authority,
            oracle_signer: self.oracle_signer,
            vault_label: self.vault_label,
            bump: self.bump,
            thresholds: self.thresholds@,
        }
    }
}

/// A monitor together with the address of its account.
#[derive(Debug, PartialEq, Eq)]
pub struct MonitorAccount {
    pub address: Pubkey,
    pub state: VaultMonitor,
}

/// The chain's clock as an instruction reads it.
#[derive(Clone, Copy, Debug, PartialEq, Eq)]
pub struct Clock {
    pub slot: u64,
    pub unix_timestamp: i64,
}

/// Accounts of [`initialize_monitor`](crate::instructions::initialize_monitor).
#[derive(Debug, PartialEq, Eq)]
pub struct InitializeMonitor {
    /// Address of the account to set up.
    pub address: Pubkey,
    /// The monitor that the account holds; `None` in an account that was just
    /// created.
    pub monitor: Option<VaultMonitor>,
    /// Address of the signing curator.
    pub authority: Pubkey,
    /// The bump seed with which the address of the account was found.
    pub bump: u8,
}

/// Accounts of the instructions that only the authority may send.
#[derive(Debug, PartialEq, Eq)]
pub struct AuthorityAction {
    pub monitor: MonitorAccount,
    /// Address of the signer.
    pub authority: Pubkey,
}

/// Accounts of [`update_metric`](crate::instructions::update_metric).
#[derive(Debug, PartialEq, Eq)]
pub struct UpdateMetric {
    pub monitor: MonitorAccount,
    /// Address of the signer.
    pub oracle_signer: Pubkey,
}

} // verus!
