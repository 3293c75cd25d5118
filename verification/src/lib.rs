//! Risk thresholds for a monitored vault.
//!
//! A curator sets up a monitor for a vault and adds thresholds to it, each with
//! a name, a limit and the side of the limit that is a breach. An oracle signer
//! reports the values of the metrics. The first report in breach raises the flag
//! of its threshold and publishes a [`BreachEvent`]; the flag stays up, and
//! nothing more is published, until the curator clears it.
//!
//! - [`state`]: what is stored, and the accounts that an instruction works on
//! - [`instructions`]: the five instructions
//! - [`program`]: the instructions with the check of the account in front
//! - [`events`], [`error`]: what they publish, and why they refuse
//! - [`address`]: where the account of a monitor lives
//! - [`codec`]: the bytes of the account
//! - [`model`]: a monitor as a mathematical value
//! - [`effects`]: what each instruction accepts, and what it leaves in each field
//! - [`account_laws`]: what the addresses and the bytes of accounts promise
//! - [`laws`]: what holds over the whole life of a monitor

pub mod account_laws;
pub mod address;
pub mod codec;
pub mod effects;
pub mod error;
pub mod events;
pub mod instructions;
pub mod keys;
pub mod laws;
pub mod model;
pub mod program;
pub mod state;

pub use address::{find_monitor_address, MONITOR_SEED};
pub use codec::{AccountError, VAULT_MONITOR_DISCRIMINATOR};
pub use error::{AddressError, InstructionError, VaultThresholdsError};
pub use events::{
    BreachEvent, BreachReset, MonitorInitialized, OracleSignerRotated, ThresholdAdded,
};
pub use instructions::{
    add_threshold, initialize_monitor, reset_breach, set_oracle_signer, update_metric,
};
pub use keys::Pubkey;
pub use state::{
    AuthorityAction, Clock, Comparison, InitializeMonitor, MonitorAccount, ThresholdConfig,
    UpdateMetric, VaultMonitor, MAX_THRESHOLDS, NAME_LEN, VAULT_LABEL_LEN, VAULT_MONITOR_SPACE,
};
