//! A monitor as a mathematical value, and what each instruction makes of it.

use crate::error::{AddressError, InstructionError, VaultThresholdsError};
use crate::events::BreachEvent;
use crate::keys::Pubkey;
use crate::state::{Clock, Comparison, ThresholdConfig, MAX_THRESHOLDS};
use vstd::prelude::*;

verus! {

/// The contents of a [`VaultMonitor`](crate::state::VaultMonitor).
#[verifier::ext_equal]
pub struct MonitorState {
    pub authority: Pubkey,
    pub oracle_signer: Pubkey,
    pub vault_label: [u8; 32],
    pub bump: u8,
    pub thresholds: Seq<ThresholdConfig>,
}

impl ThresholdConfig {
    /// The threshold that [`add_threshold`](crate::instructions::add_threshold)
    /// appends: nothing reported yet and no breach.
    pub open spec fn fresh(name: [u8; 32], threshold_value: i64, comparison: Comparison) -> Self {
        ThresholdConfig {
            name,
            threshold_value,
            comparison,
            current_value: 0,
            breached: false,
            last_update_slot: 0,
        }
    }

    /// Whether `value` is in breach of this threshold.
    pub open spec fn in_breach(self, value: i64) -> bool {
        self.comparison.in_breach(value as int, self.threshold_value as int)
    }

    /// Whether a report of `value` repeats the last applied report.
    pub open spec fn is_repeat(self, value: i64) -> bool {
        self.current_value == value && self.last_update_slot != 0
    }

    /// Whether a report of `value` is a new breach: it is in breach while the
    /// flag is down, and it does not repeat the last report.
    pub open spec fn is_crossing(self, value: i64) -> bool {
        !self.is_repeat(value) && self.in_breach(value) && !self.breached
    }

    /// The threshold after a report of `value` at `slot`. A repeated value is
    /// not recorded again. The flag is only ever raised.
    pub open spec fn reported(self, value: i64, slot: u64) -> Self {
        if self.is_repeat(value) {
            self
        } else {
            ThresholdConfig {
                current_value: value,
                last_update_slot: slot,
                breached: self.breached || self.in_breach(value),
                ..self
            }
        }
    }

    /// The threshold with its breach flag down.
    pub open spec fn rearmed(self) -> Self {
        ThresholdConfig { breached: false, ..self }
    }
}

/// Position of the first threshold called `name` at or after position `from`.
pub open spec fn position_from(
    thresholds: Seq<ThresholdConfig>,
    name: [u8; 32],
    from: int,
) -> Option<int>
    decreases thresholds.len() - from,
{
    if from >= thresholds.len() {
        None
    } else if thresholds[from].name == name {
        Some(from)
    } else {
        position_from(thresholds, name, from + 1)
    }
}

/// The two values that no metric may report.
pub open spec fn is_sentinel(value: i64) -> bool {
    value == i64::MIN || value == i64::MAX
}

/// Why setting up a monitor for a vault is refused, if it is. An account that
/// holds a monitor is never set up again.
pub open spec fn set_up_refusal(occupied: bool, vault_label: [u8; 32]) -> Option<InstructionError> {
    if occupied {
        Some(InstructionError::Address(AddressError::AccountInUse))
    } else if crate::keys::all_zero(vault_label@) {
        Some(InstructionError::Refused(VaultThresholdsError::InvalidVaultLabel))
    } else {
        None
    }
}

impl MonitorState {
    /// Position of the threshold called `name`, the first one if there are several.
    pub open spec fn position(self, name: [u8; 32]) -> Option<int> {
        position_from(self.thresholds, name, 0)
    }

    /// Whether the monitor has a threshold called `name`.
    pub open spec fn has(self, name: [u8; 32]) -> bool {
        self.position(name) is Some
    }

    /// The threshold called `name`.
    pub open spec fn threshold(self, name: [u8; 32]) -> ThresholdConfig
        recommends
            self.has(name),
    {
        self.thresholds[self.position(name)->0]
    }

    /// Whether the monitor has a threshold called `name` with its flag up.
    pub open spec fn flagged(self, name: [u8; 32]) -> bool {
        self.has(name) && self.threshold(name).breached
    }

    /// The monitor with the threshold called `name` replaced by `threshold`.
    pub open spec fn with(self, name: [u8; 32], threshold: ThresholdConfig) -> Self
        recommends
            self.has(name),
    {
        MonitorState {
            thresholds: self.thresholds.update(self.position(name)->0, threshold),
            ..self
        }
    }

    /// What holds of every monitor that the instructions have produced.
    pub open spec fn well_formed(self) -> bool {
        &&& !crate::keys::all_zero(self.vault_label@)
        &&& self.thresholds.len() <= MAX_THRESHOLDS
        &&& forall|i: int|
            0 <= i < self.thresholds.len() ==> {
                &&& !crate::keys::all_zero((#[trigger] self.thresholds[i]).name@)
                &&& !is_sentinel(self.thresholds[i].current_value)
            }
        &&& forall|i: int, j: int|
            0 <= i < j < self.thresholds.len() ==> self.thresholds[i].name
                != self.thresholds[j].name
    }

    /// The monitor that `authority` sets up for a vault. It has no threshold
    /// yet, and `authority` itself reports metric values.
    pub open spec fn initial(authority: Pubkey, vault_label: [u8; 32], bump: u8) -> Self {
        MonitorState {
            authority,
            oracle_signer: authority,
            vault_label,
            bump,
            thresholds: Seq::empty(),
        }
    }

    /// Why adding a threshold called `name` is refused, if it is.
    pub open spec fn add_refusal(self, caller: Pubkey, name: [u8; 32]) -> Option<
        VaultThresholdsError,
    > {
        if caller != self.authority {
            Some(VaultThresholdsError::Unauthorized)
        } else if crate::keys::all_zero(name@) {
            Some(VaultThresholdsError::InvalidThresholdName)
        } else if self.thresholds.len() >= MAX_THRESHOLDS {
            Some(VaultThresholdsError::TooManyThresholds)
        } else if self.has(name) {
            Some(VaultThresholdsError::DuplicateThreshold)
        } else {
            None
        }
    }

    /// The monitor with a fresh threshold appended.
    pub open spec fn added(
        self,
        name: [u8; 32],
        threshold_value: i64,
        comparison: Comparison,
    ) -> Self {
        MonitorState {
            thresholds: self.thresholds.push(
                ThresholdConfig::fresh(name, threshold_value, comparison),
            ),
            ..self
        }
    }

    /// Why a report of `value` for `name` at `slot` is refused, if it is.
    pub open spec fn update_refusal(
        self,
        signer: Pubkey,
        name: [u8; 32],
        value: i64,
        slot: u64,
    ) -> Option<VaultThresholdsError> {
        if signer != self.oracle_signer {
            Some(VaultThresholdsError::UnauthorizedOracle)
        } else if is_sentinel(value) {
            Some(VaultThresholdsError::InvalidMetricValue)
        } else if !self.has(name) {
            Some(VaultThresholdsError::ThresholdNotFound)
        } else if slot < self.threshold(name).last_update_slot {
            Some(VaultThresholdsError::StaleUpdate)
        } else {
            None
        }
    }

    /// The monitor after a report of `value` for `name` at `slot`.
    pub open spec fn updated(self, name: [u8; 32], value: i64, slot: u64) -> Self {
        self.with(name, self.threshold(name).reported(value, slot))
    }

    /// The event of an accepted report: one exactly when it is a new breach.
    pub open spec fn breach_event(
        self,
        monitor: Pubkey,
        name: [u8; 32],
        value: i64,
        clock: Clock,
    ) -> Option<BreachEvent> {
        let t = self.threshold(name);
        if t.is_crossing(value) {
            Some(
                BreachEvent {
                    authority: self.authority,
                    vault_label: self.vault_label,
                    metric_name: name,
                    value,
                    threshold: t.threshold_value,
                    comparison: t.comparison,
                    slot: clock.slot,
                    timestamp: clock.unix_timestamp,
                    monitor,
                },
            )
        } else {
            None
        }
    }

    /// Why clearing the flag of `name` is refused, if it is.
    pub open spec fn reset_refusal(self, caller: Pubkey, name: [u8; 32]) -> Option<
        VaultThresholdsError,
    > {
        if caller != self.authority {
            Some(VaultThresholdsError::Unauthorized)
        } else if !self.has(name) {
            Some(VaultThresholdsError::ThresholdNotFound)
        } else {
            None
        }
    }

    /// The monitor with the flag of `name` down.
    pub open spec fn reset(self, name: [u8; 32]) -> Self {
        self.with(name, self.threshold(name).rearmed())
    }

    /// Why installing `new_signer` is refused, if it is.
    pub open spec fn rotate_refusal(self, caller: Pubkey, new_signer: Pubkey) -> Option<
        VaultThresholdsError,
    > {
        if caller != self.authority {
            Some(VaultThresholdsError::Unauthorized)
        } else if crate::keys::all_zero(new_signer@) {
            Some(VaultThresholdsError::InvalidOracleSigner)
        } else {
            None
        }
    }

    /// The monitor with another oracle signer.
    pub open spec fn rotated(self, new_signer: Pubkey) -> Self {
        MonitorState { oracle_signer: new_signer, ..self }
    }
}

/// What a position found is, and what it means that there is none.
pub(crate) proof fn lemma_position_from(thresholds: Seq<ThresholdConfig>, name: [u8; 32], from: int)
    requires
        0 <= from,
    ensures
        match position_from(thresholds, name, from) {
            Some(i) => {
                &&& from <= i < thresholds.len()
                &&& thresholds[i].name == name
                &&& forall|j: int| from <= j < i ==> (#[trigger] thresholds[j]).name != name
            },
            None => forall|j: int|
                from <= j < thresholds.len() ==> (#[trigger] thresholds[j]).name != name,
        },
    decreases thresholds.len() - from,
{
    if from < thresholds.len() && thresholds[from].name != name {
        lemma_position_from(thresholds, name, from + 1);
    }
}

/// A position depends on the names alone, and thresholds appended later do not
/// change one that was found.
pub(crate) proof fn lemma_position_kept(
    before: Seq<ThresholdConfig>,
    after: Seq<ThresholdConfig>,
    name: [u8; 32],
    from: int,
)
    requires
        0 <= from,
        before.len() <= after.len(),
        forall|i: int| 0 <= i < before.len() ==> (#[trigger] after[i]).name == before[i].name,
    ensures
        position_from(before, name, from) is Some ==> position_from(after, name, from)
            == position_from(before, name, from),
        before.len() == after.len() ==> position_from(after, name, from) == position_from(
            before,
            name,
            from,
        ),
    decreases before.len() - from,
{
    if from < before.len() {
        assert(after[from].name == before[from].name);
        if before[from].name != name {
            lemma_position_kept(before, after, name, from + 1);
        }
    }
}

/// Replacing a threshold by another one with its name.
pub(crate) proof fn lemma_with(m: MonitorState, name: [u8; 32], t: ThresholdConfig, other: [u8; 32])
    requires
        m.has(name),
        t.name == name,
    ensures
        m.with(name, t).position(other) == m.position(other),
        m.with(name, t).has(name),
        m.with(name, t).threshold(name) == t,
        m.has(other) && other != name ==> m.with(name, t).threshold(other) == m.threshold(other),
        m.with(name, t).thresholds.len() == m.thresholds.len(),
        forall|i: int|
            0 <= i < m.thresholds.len() && m.thresholds[i].name != name ==> #[trigger] m.with(
                name,
                t,
            ).thresholds[i] == m.thresholds[i],
        forall|i: int|
            0 <= i < m.thresholds.len() ==> (#[trigger] m.with(name, t).thresholds[i]).name
                == m.thresholds[i].name,
{
    lemma_position_from(m.thresholds, name, 0);
    lemma_position_from(m.thresholds, other, 0);
    lemma_position_kept(m.thresholds, m.with(name, t).thresholds, name, 0);
    lemma_position_kept(m.thresholds, m.with(name, t).thresholds, other, 0);
}

/// Appending a threshold under a name that is free.
pub(crate) proof fn lemma_added(
    m: MonitorState,
    name: [u8; 32],
    value: i64,
    comparison: Comparison,
    other: [u8; 32],
)
    requires
        !m.has(name),
    ensures
        m.added(name, value, comparison).has(name),
        m.added(name, value, comparison).threshold(name) == ThresholdConfig::fresh(
            name,
            value,
            comparison,
        ),
        m.has(other) ==> m.added(name, value, comparison).has(other) && m.added(
            name,
            value,
            comparison,
        ).threshold(other) == m.threshold(other),
        !m.has(other) && other != name ==> !m.added(name, value, comparison).has(other),
{
    let n = m.added(name, value, comparison);
    lemma_position_from(m.thresholds, name, 0);
    lemma_position_from(m.thresholds, other, 0);
    lemma_position_from(n.thresholds, name, 0);
    lemma_position_from(n.thresholds, other, 0);
    lemma_position_kept(m.thresholds, n.thresholds, other, 0);
    assert(n.thresholds[m.thresholds.len() as int].name == name);
    if let Some(i) = n.position(name) {
        if i < m.thresholds.len() {
            assert(m.thresholds[i].name == name);
        }
    }
    if !m.has(other) && other != name {
        if let Some(i) = n.position(other) {
            if i < m.thresholds.len() {
                assert(m.thresholds[i].name == other);
            }
        }
    }
}

/// Adding a threshold keeps a monitor well formed.
pub(crate) proof fn lemma_added_well_formed(
    m: MonitorState,
    caller: Pubkey,
    name: [u8; 32],
    value: i64,
    comparison: Comparison,
)
    requires
        m.well_formed(),
        m.add_refusal(caller, name) is None,
    ensures
        m.added(name, value, comparison).well_formed(),
{
    lemma_position_from(m.thresholds, name, 0);
    let n = m.added(name, value, comparison);
    assert forall|i: int| 0 <= i < n.thresholds.len() implies {
        &&& !crate::keys::all_zero((#[trigger] n.thresholds[i]).name@)
        &&& !is_sentinel(n.thresholds[i].current_value)
    } by {
        if i < m.thresholds.len() {
            assert(n.thresholds[i] == m.thresholds[i]);
        }
    }
}

/// Replacing a threshold keeps a monitor well formed where the new one keeps
/// the name and holds no sentinel.
pub(crate) proof fn lemma_with_well_formed(m: MonitorState, name: [u8; 32], t: ThresholdConfig)
    requires
        m.well_formed(),
        m.has(name),
        t.name == name,
        !is_sentinel(t.current_value),
    ensures
        m.with(name, t).well_formed(),
{
    lemma_position_from(m.thresholds, name, 0);
    lemma_with(m, name, t, name);
    let n = m.with(name, t);
    assert forall|i: int| 0 <= i < n.thresholds.len() implies {
        &&& !crate::keys::all_zero((#[trigger] n.thresholds[i]).name@)
        &&& !is_sentinel(n.thresholds[i].current_value)
    } by {
        assert(m.thresholds[i].name == n.thresholds[i].name);
    }
    assert forall|i: int, j: int| 0 <= i < j < n.thresholds.len() implies n.thresholds[i].name
        != n.thresholds[j].name by {
        assert(m.thresholds[i].name != m.thresholds[j].name);
    }
}

/// A report keeps a monitor well formed.
pub(crate) proof fn lemma_updated_well_formed(
    m: MonitorState,
    signer: Pubkey,
    name: [u8; 32],
    value: i64,
    slot: u64,
)
    requires
        m.well_formed(),
        m.update_refusal(signer, name, value, slot) is None,
    ensures
        m.updated(name, value, slot).well_formed(),
{
    lemma_position_from(m.thresholds, name, 0);
    lemma_with_well_formed(m, name, m.threshold(name).reported(value, slot));
}

/// Clearing a flag keeps a monitor well formed.
pub(crate) proof fn lemma_reset_well_formed(m: MonitorState, name: [u8; 32])
    requires
        m.well_formed(),
        m.has(name),
    ensures
        m.reset(name).well_formed(),
{
    lemma_position_from(m.thresholds, name, 0);
    lemma_with_well_formed(m, name, m.threshold(name).rearmed());
}

} // verus!
