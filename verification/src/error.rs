//! Reasons for which an instruction is refused.

use vstd::prelude::*;

verus! {

/// Number of the first error; the others count on from it in order.
pub const ERROR_CODE_OFFSET: u32 = 6000;

/// Why an instruction was refused. A refused instruction changes nothing.
#[derive(Clone, Copy, Debug, PartialEq, Eq, Structural)]
pub enum VaultThresholdsError {
    /// The monitor already holds as many thresholds as it can.
    TooManyThresholds,
    /// The monitor already holds a threshold with this name.
    DuplicateThreshold,
    /// The monitor holds no threshold with this name.
    ThresholdNotFound,
    /// The caller is not the oracle signer of the monitor.
    UnauthorizedOracle,
    /// The caller is not the authority of the monitor.
    Unauthorized,
    /// The reported value is one of the two sentinels `i64::MIN` and `i64::MAX`.
    InvalidMetricValue,
    /// The update carries an earlier slot than the last one that was applied.
    StaleUpdate,
    /// The name of the threshold is all zero.
    InvalidThresholdName,
    /// The label of the vault is all zero.
    InvalidVaultLabel,
    /// The oracle signer to install is the all-zero address.
    InvalidOracleSigner,
}

impl VaultThresholdsError {
    /// Position of the variant in the list of errors.
    pub open spec fn index(self) -> int {
        match self {
            VaultThresholdsError::TooManyThresholds => 0,
            VaultThresholdsError::DuplicateThreshold => 1,
            VaultThresholdsError::ThresholdNotFound => 2,
            VaultThresholdsError::UnauthorizedOracle => 3,
            VaultThresholdsError::Unauthorized => 4,
            VaultThresholdsError::InvalidMetricValue => 5,
            VaultThresholdsError::StaleUpdate => 6,
            VaultThresholdsError::InvalidThresholdName => 7,
            VaultThresholdsError::InvalidVaultLabel => 8,
            VaultThresholdsError::InvalidOracleSigner => 9,
        }
    }

    /// The text shown to the caller.
    pub open spec fn text(self) -> Seq<char> {
        match self {
            VaultThresholdsError::TooManyThresholds => "Threshold list is full (max 16)."@,
            VaultThresholdsError::DuplicateThreshold => "A threshold with this name already exists."@,
            VaultThresholdsError::ThresholdNotFound => "Threshold not found."@,
            VaultThresholdsError::UnauthorizedOracle => "Caller is not the configured oracle signer."@,
            VaultThresholdsError::Unauthorized => "Caller is not the monitor authority."@,
            VaultThresholdsError::InvalidMetricValue => "Metric value is a reserved sentinel."@,
            VaultThresholdsError::StaleUpdate => "Update is older than the last one applied."@,
            VaultThresholdsError::InvalidThresholdName => "Threshold name must not be all zero."@,
            VaultThresholdsError::InvalidVaultLabel => "Vault label must not be all zero."@,
            VaultThresholdsError::InvalidOracleSigner => "Oracle signer must not be the zero key."@,
        }
    }

    /// The number by which clients tell the errors apart.
    pub fn code(&self) -> (code: u32)
        ensures
            code == ERROR_CODE_OFFSET + self.index(),
    {
        let index: u32 = match self {
            VaultThresholdsError::TooManyThresholds => 0,
            VaultThresholdsError::DuplicateThreshold => 1,
            VaultThresholdsError::ThresholdNotFound => 2,
            VaultThresholdsError::UnauthorizedOracle => 3,
            VaultThresholdsError::Unauthorized => 4,
            VaultThresholdsError::InvalidMetricValue => 5,
            VaultThresholdsError::StaleUpdate => 6,
            VaultThresholdsError::InvalidThresholdName => 7,
            VaultThresholdsError::InvalidVaultLabel => 8,
            VaultThresholdsError::InvalidOracleSigner => 9,
        };
        ERROR_CODE_OFFSET + index
    }

    /// The message of the error.
    pub fn message(&self) -> (message: &'static str)
        ensures
            message@ == self.text(),
    {
        match self {
            VaultThresholdsError::TooManyThresholds => "Threshold list is full (max 16).",
            VaultThresholdsError::DuplicateThreshold => "A threshold with this name already exists.",
            VaultThresholdsError::ThresholdNotFound => "Threshold not found.",
            VaultThresholdsError::UnauthorizedOracle => "Caller is not the configured oracle signer.",
            VaultThresholdsError::Unauthorized => "Caller is not the monitor authority.",
            VaultThresholdsError::InvalidMetricValue => "Metric value is a reserved sentinel.",
            VaultThresholdsError::StaleUpdate => "Update is older than the last one applied.",
            VaultThresholdsError::InvalidThresholdName => "Threshold name must not be all zero.",
            VaultThresholdsError::InvalidVaultLabel => "Vault label must not be all zero.",
            VaultThresholdsError::InvalidOracleSigner => "Oracle signer must not be the zero key.",
        }
    }
}

/// Why the account of a monitor was not accepted.
#[derive(Clone, Copy, Debug, PartialEq, Eq, Structural)]
pub enum AddressError {
    /// The account is not at the address that its seeds derive.
    ConstraintSeeds,
    /// No bump seed gives an address for these seeds.
    NoViableBump,
    /// The account to set up already holds a monitor.
    AccountInUse,
}

/// Why the program turned an instruction down.
#[derive(Clone, Copy, Debug, PartialEq, Eq, Structural)]
pub enum InstructionError {
    /// The account of the monitor was not accepted.
    Address(AddressError),
    /// The instruction was refused.
    Refused(VaultThresholdsError),
}

} // verus!
