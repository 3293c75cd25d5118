//! What each instruction does, in terms of what is stored.
//!
//! For every instruction one law tells which requests are accepted and why the
//! others are refused, and one tells what an accepted request leaves in each
//! field. They speak of positions in the list of thresholds, of bytes and of
//! integers. Some more laws tell how an instruction bears on the next one.

use crate::error::{AddressError, InstructionError, VaultThresholdsError};
use crate::keys::Pubkey;
use crate::model::MonitorState;
use crate::state::{Clock, Comparison, ThresholdConfig, VaultMonitor};
use vstd::prelude::*;

verus! {

/// The model of a monitor holds what the monitor holds, field by field.
pub proof fn law_model_holds_the_fields(v: VaultMonitor)
    ensures
        v@.authority.bytes == v.authority.bytes,
        v@.oracle_signer.bytes == v.oracle_signer.bytes,
        v@.vault_label == v.vault_label,
        v@.bump == v.bump,
        v@.thresholds.len() == v.thresholds@.len(),
        forall|i: int|
            0 <= i < v.thresholds@.len() ==> #[trigger] v@.thresholds[i] == v.thresholds@[i],
{
}

/// A monitor is set up exactly where the account holds none and the label of
/// the vault has a byte other than zero. An account in use is refused as such,
/// whatever the label is.
pub proof fn law_set_up_is_accepted(occupied: bool, vault_label: [u8; 32])
    ensures
        crate::model::set_up_refusal(occupied, vault_label) is None <==> !occupied && exists|k: int|
            0 <= k < 32 && #[trigger] vault_label@[k] != 0,
        occupied ==> crate::model::set_up_refusal(occupied, vault_label) == Some(
            InstructionError::Address(AddressError::AccountInUse),
        ),
        !occupied && (forall|k: int| 0 <= k < 32 ==> #[trigger] vault_label@[k] == 0)
            ==> crate::model::set_up_refusal(occupied, vault_label) == Some(
            InstructionError::Refused(VaultThresholdsError::InvalidVaultLabel),
        ),
{
    assert(vault_label@.len() == 32);
    if exists|k: int| 0 <= k < 32 && #[trigger] vault_label@[k] != 0 {
        let k = choose|k: int| 0 <= k < 32 && #[trigger] vault_label@[k] != 0;
        assert(vault_label@[k] != 0);
    }
}

/// A monitor that was just set up belongs to the curator who signed, watches
/// the given vault, and has no threshold. The curator reports metric values,
/// and nobody else does.
pub proof fn law_set_up_is_for_the_curator(
    curator: Pubkey,
    vault_label: [u8; 32],
    bump: u8,
    signer: Pubkey,
    name: [u8; 32],
    value: i64,
    slot: u64,
)
    ensures
        ({
            let m = MonitorState::initial(curator, vault_label, bump);
            &&& m.authority == curator
            &&& m.oracle_signer == curator
            &&& m.vault_label == vault_label
            &&& m.bump == bump
            &&& m.thresholds.len() == 0
            &&& m.update_refusal(signer, name, value, slot) == Some(
                VaultThresholdsError::UnauthorizedOracle,
            ) <==> signer != curator
        }),
{
}

/// The curator of a monitor that was just set up may add every threshold that
/// has a name, and report a first value for it at once.
pub proof fn law_set_up_monitor_is_ready(
    curator: Pubkey,
    vault_label: [u8; 32],
    bump: u8,
    name: [u8; 32],
    limit: i64,
    comparison: Comparison,
    value: i64,
    slot: u64,
    k: int,
)
    requires
        0 <= k < 32,
        name@[k] != 0,
        value != i64::MIN,
        value != i64::MAX,
    ensures
        MonitorState::initial(curator, vault_label, bump).add_refusal(curator, name) is None,
        MonitorState::initial(curator, vault_label, bump).added(
            name,
            limit,
            comparison,
        ).update_refusal(curator, name, value, slot) is None,
{
    let m = MonitorState::initial(curator, vault_label, bump);
    assert(name@.len() == 32);
    crate::model::lemma_added(m, name, limit, comparison, name);
}

/// A threshold is added exactly where the caller is the authority, the name
/// has a byte other than zero, there are fewer than sixteen thresholds and none
/// has the name. Otherwise the first of these that fails is the reason.
pub proof fn law_add_is_accepted(m: MonitorState, caller: Pubkey, name: [u8; 32])
    ensures
        m.add_refusal(caller, name) is None <==> {
            &&& caller == m.authority
            &&& exists|k: int| 0 <= k < 32 && #[trigger] name@[k] != 0
            &&& m.thresholds.len() < 16
            &&& forall|i: int|
                0 <= i < m.thresholds.len() ==> (#[trigger] m.thresholds[i]).name != name
        },
        m.add_refusal(caller, name) == Some(VaultThresholdsError::Unauthorized) <==> caller
            != m.authority,
        m.add_refusal(caller, name) == Some(VaultThresholdsError::InvalidThresholdName) <==> {
            &&& caller == m.authority
            &&& forall|k: int| 0 <= k < 32 ==> #[trigger] name@[k] == 0
        },
        m.add_refusal(caller, name) == Some(VaultThresholdsError::TooManyThresholds) <==> {
            &&& caller == m.authority
            &&& exists|k: int| 0 <= k < 32 && #[trigger] name@[k] != 0
            &&& m.thresholds.len() >= 16
        },
        m.add_refusal(caller, name) == Some(VaultThresholdsError::DuplicateThreshold) <==> {
            &&& caller == m.authority
            &&& exists|k: int| 0 <= k < 32 && #[trigger] name@[k] != 0
            &&& m.thresholds.len() < 16
            &&& exists|i: int|
                0 <= i < m.thresholds.len() && (#[trigger] m.thresholds[i]).name == name
        },
{
    crate::model::lemma_position_from(m.thresholds, name, 0);
    assert(name@.len() == 32);
    if exists|k: int| 0 <= k < 32 && #[trigger] name@[k] != 0 {
        let k = choose|k: int| 0 <= k < 32 && #[trigger] name@[k] != 0;
        assert(name@[k] != 0);
    }
    if let Some(i) = m.position(name) {
        assert(m.thresholds[i].name == name);
    }
}

/// An accepted threshold comes last in the list, with the limit and the
/// comparison as they were given, nothing reported and its flag down. It is the
/// only one with its name. Everything else is as it was.
pub proof fn law_added_threshold_holds_what_was_given(
    m: MonitorState,
    caller: Pubkey,
    name: [u8; 32],
    limit: i64,
    comparison: Comparison,
    i: int,
)
    requires
        m.add_refusal(caller, name) is None,
    ensures
        ({
            let n = m.added(name, limit, comparison);
            &&& n.authority == m.authority
            &&& n.oracle_signer == m.oracle_signer
            &&& n.vault_label == m.vault_label
            &&& n.bump == m.bump
            &&& n.thresholds.len() == m.thresholds.len() + 1
            &&& 0 <= i < m.thresholds.len() ==> n.thresholds[i] == m.thresholds[i]
            &&& n.thresholds[m.thresholds.len() as int].name == name
            &&& 0 <= i < n.thresholds.len() && n.thresholds[i].name == name ==> {
                &&& i == m.thresholds.len()
                &&& n.thresholds[i].threshold_value == limit
                &&& n.thresholds[i].comparison == comparison
                &&& n.thresholds[i].current_value == 0
                &&& n.thresholds[i].breached == false
                &&& n.thresholds[i].last_update_slot == 0
            }
        }),
{
    crate::model::lemma_position_from(m.thresholds, name, 0);
}

/// The limit that was given is the limit that is watched: the first report for
/// a new threshold publishes an event exactly where its value is beyond that
/// limit, on the side that was given, and the event names that limit.
pub proof fn law_first_report_is_held_against_the_given_limit(
    m: MonitorState,
    caller: Pubkey,
    name: [u8; 32],
    limit: i64,
    comparison: Comparison,
    value: i64,
    clock: Clock,
    monitor: Pubkey,
)
    requires
        m.add_refusal(caller, name) is None,
        value != i64::MIN,
        value != i64::MAX,
    ensures
        ({
            let n = m.added(name, limit, comparison);
            let event = n.breach_event(monitor, name, value, clock);
            &&& n.update_refusal(m.oracle_signer, name, value, clock.slot) is None
            &&& event is Some <==> match comparison {
                Comparison::Above => value > limit,
                Comparison::Below => value < limit,
            }
            &&& event matches Some(e) ==> e.threshold == limit && e.comparison == comparison
                && e.value == value
        }),
{
    crate::model::lemma_added(m, name, limit, comparison, name);
}

/// A report for a threshold is accepted exactly where the signer is the oracle
/// signer, the value is none of the two sentinels, and the slot is not before
/// that of the last report. Otherwise the first of these that fails is the
/// reason. Of several thresholds with the name, the first one counts.
pub proof fn law_report_is_accepted(
    m: MonitorState,
    signer: Pubkey,
    name: [u8; 32],
    value: i64,
    slot: u64,
    i: int,
)
    requires
        0 <= i < m.thresholds.len(),
        m.thresholds[i].name == name,
        forall|j: int| 0 <= j < i ==> (#[trigger] m.thresholds[j]).name != name,
    ensures
        ({
            let refusal = m.update_refusal(signer, name, value, slot);
            &&& refusal is None <==> {
                &&& signer == m.oracle_signer
                &&& value != -0x8000_0000_0000_0000
                &&& value != 0x7fff_ffff_ffff_ffff
                &&& slot >= m.thresholds[i].last_update_slot
            }
            &&& refusal == Some(VaultThresholdsError::UnauthorizedOracle) <==> signer
                != m.oracle_signer
            &&& refusal == Some(VaultThresholdsError::InvalidMetricValue) <==> signer
                == m.oracle_signer && (value == -0x8000_0000_0000_0000 || value
                == 0x7fff_ffff_ffff_ffff)
            &&& refusal == Some(VaultThresholdsError::StaleUpdate) <==> signer == m.oracle_signer
                && value != -0x8000_0000_0000_0000 && value != 0x7fff_ffff_ffff_ffff && slot
                < m.thresholds[i].last_update_slot
        }),
{
    crate::laws::law_position_is_the_first(m, name, i);
}

/// A report for a name that no threshold has is refused: for a signer without
/// the right to report, for a sentinel, or else because nothing was found.
pub proof fn law_report_of_an_unknown_name(
    m: MonitorState,
    signer: Pubkey,
    name: [u8; 32],
    value: i64,
    slot: u64,
)
    requires
        forall|j: int| 0 <= j < m.thresholds.len() ==> (#[trigger] m.thresholds[j]).name != name,
    ensures
        m.update_refusal(signer, name, value, slot) == Some(
            if signer != m.oracle_signer {
                VaultThresholdsError::UnauthorizedOracle
            } else if value == -0x8000_0000_0000_0000 || value == 0x7fff_ffff_ffff_ffff {
                VaultThresholdsError::InvalidMetricValue
            } else {
                VaultThresholdsError::ThresholdNotFound
            },
        ),
{
    crate::laws::law_position_is_the_first(m, name, 0);
}

/// What a report leaves on record. A value that is on record already changes
/// nothing. Any other one is recorded with its slot; and the flag is up
/// afterwards exactly where it was up before or the value is greater than the
/// limit of an `Above` threshold or less than that of a `Below` one. The name,
/// the limit and the comparison stay, and so does everything else.
pub proof fn law_report_is_recorded(
    m: MonitorState,
    name: [u8; 32],
    value: i64,
    slot: u64,
    i: int,
    other: int,
)
    requires
        0 <= i < m.thresholds.len(),
        m.thresholds[i].name == name,
        forall|j: int| 0 <= j < i ==> (#[trigger] m.thresholds[j]).name != name,
    ensures
        ({
            let t = m.thresholds[i];
            let n = m.updated(name, value, slot);
            let u = n.thresholds[i];
            &&& t.current_value == value && t.last_update_slot != 0 ==> n == m
            &&& t.current_value != value || t.last_update_slot == 0 ==> {
                &&& u.current_value == value
                &&& u.last_update_slot == slot
                &&& u.breached <==> t.breached || (t.comparison is Above && value
                    > t.threshold_value) || (t.comparison is Below && value < t.threshold_value)
            }
            &&& u.name == t.name
            &&& u.threshold_value == t.threshold_value
            &&& u.comparison == t.comparison
            &&& n.thresholds.len() == m.thresholds.len()
            &&& 0 <= other < m.thresholds.len() && other != i ==> n.thresholds[other]
                == m.thresholds[other]
            &&& n.authority == m.authority
            &&& n.oracle_signer == m.oracle_signer
            &&& n.vault_label == m.vault_label
            &&& n.bump == m.bump
        }),
{
    crate::laws::law_position_is_the_first(m, name, i);
    assert(m.thresholds.update(i, m.thresholds[i]) =~= m.thresholds);
}

/// When a report publishes an event, and what the event says: exactly where
/// the flag is down, the value is not on record already, and it is greater than
/// the limit of an `Above` threshold or less than that of a `Below` one. The
/// flag goes up with it, and only with it.
pub proof fn law_breach_is_published(
    m: MonitorState,
    monitor: Pubkey,
    name: [u8; 32],
    value: i64,
    clock: Clock,
    i: int,
)
    requires
        0 <= i < m.thresholds.len(),
        m.thresholds[i].name == name,
        forall|j: int| 0 <= j < i ==> (#[trigger] m.thresholds[j]).name != name,
    ensures
        ({
            let t = m.thresholds[i];
            let event = m.breach_event(monitor, name, value, clock);
            let after = m.updated(name, value, clock.slot).thresholds[i];
            &&& event is Some <==> {
                &&& !t.breached
                &&& t.current_value != value || t.last_update_slot == 0
                &&& (t.comparison is Above && value > t.threshold_value) || (t.comparison is Below
                    && value < t.threshold_value)
            }
            &&& event is Some <==> !t.breached && after.breached
            &&& event matches Some(e) ==> {
                &&& e.authority == m.authority
                &&& e.vault_label == m.vault_label
                &&& e.metric_name == name
                &&& e.value == value
                &&& e.threshold == t.threshold_value
                &&& e.comparison == t.comparison
                &&& e.slot == clock.slot
                &&& e.timestamp == clock.unix_timestamp
                &&& e.monitor == monitor
            }
        }),
{
    crate::laws::law_position_is_the_first(m, name, i);
}

/// A worse value is a breach too: where a report is in breach of an `Above`
/// threshold, so is every greater one, and of a `Below` threshold every smaller
/// one. It stays in breach where the limit of an `Above` threshold is lower, or
/// that of a `Below` one higher. The limit itself is no breach.
pub proof fn law_breach_is_monotonic(t: ThresholdConfig, value: i64, worse: i64, stricter: i64)
    requires
        t.in_breach(value),
        match t.comparison {
            Comparison::Above => value <= worse && stricter <= t.threshold_value,
            Comparison::Below => value >= worse && stricter >= t.threshold_value,
        },
    ensures
        t.in_breach(worse),
        (ThresholdConfig { threshold_value: stricter, ..t }).in_breach(value),
        !t.in_breach(t.threshold_value),
{
}

/// The flag of a threshold is cleared exactly where the caller is the authority
/// and some threshold has the name, whatever that threshold holds.
pub proof fn law_reset_is_accepted(m: MonitorState, caller: Pubkey, name: [u8; 32])
    ensures
        m.reset_refusal(caller, name) is None <==> caller == m.authority && exists|i: int|
            0 <= i < m.thresholds.len() && (#[trigger] m.thresholds[i]).name == name,
        m.reset_refusal(caller, name) == Some(VaultThresholdsError::Unauthorized) <==> caller
            != m.authority,
        m.reset_refusal(caller, name) == Some(VaultThresholdsError::ThresholdNotFound) <==> caller
            == m.authority && forall|i: int|
            0 <= i < m.thresholds.len() ==> (#[trigger] m.thresholds[i]).name != name,
{
    crate::model::lemma_position_from(m.thresholds, name, 0);
    if let Some(i) = m.position(name) {
        assert(m.thresholds[i].name == name);
    }
}

/// Clearing a flag takes it down and changes nothing else.
pub proof fn law_reset_takes_the_flag_down(m: MonitorState, name: [u8; 32], i: int, other: int)
    requires
        0 <= i < m.thresholds.len(),
        m.thresholds[i].name == name,
        forall|j: int| 0 <= j < i ==> (#[trigger] m.thresholds[j]).name != name,
    ensures
        ({
            let t = m.thresholds[i];
            let n = m.reset(name);
            let u = n.thresholds[i];
            &&& u.breached == false
            &&& u.name == t.name
            &&& u.threshold_value == t.threshold_value
            &&& u.comparison == t.comparison
            &&& u.current_value == t.current_value
            &&& u.last_update_slot == t.last_update_slot
            &&& n.thresholds.len() == m.thresholds.len()
            &&& 0 <= other < m.thresholds.len() && other != i ==> n.thresholds[other]
                == m.thresholds[other]
            &&& n.authority == m.authority
            &&& n.oracle_signer == m.oracle_signer
            &&& n.vault_label == m.vault_label
            &&& n.bump == m.bump
        }),
{
    crate::laws::law_position_is_the_first(m, name, i);
}

/// The next breach after a reset is published: the flag being down again, a
/// report beyond the limit publishes an event, unless its value is on record.
pub proof fn law_breach_after_a_reset_is_published(
    m: MonitorState,
    monitor: Pubkey,
    name: [u8; 32],
    value: i64,
    clock: Clock,
    i: int,
)
    requires
        0 <= i < m.thresholds.len(),
        m.thresholds[i].name == name,
        forall|j: int| 0 <= j < i ==> (#[trigger] m.thresholds[j]).name != name,
    ensures
        m.reset(name).breach_event(monitor, name, value, clock) is Some <==> {
            &&& m.thresholds[i].current_value != value || m.thresholds[i].last_update_slot == 0
            &&& match m.thresholds[i].comparison {
                Comparison::Above => value > m.thresholds[i].threshold_value,
                Comparison::Below => value < m.thresholds[i].threshold_value,
            }
        },
{
    crate::laws::law_position_is_the_first(m, name, i);
    crate::model::lemma_with(m, name, m.threshold(name).rearmed(), name);
}

/// Another oracle signer is installed exactly where the caller is the authority
/// and the new key has a byte other than zero, whoever reported before.
pub proof fn law_rotation_is_accepted(m: MonitorState, caller: Pubkey, new_signer: Pubkey)
    ensures
        m.rotate_refusal(caller, new_signer) is None <==> caller == m.authority && exists|k: int|
            0 <= k < 32 && #[trigger] new_signer.bytes@[k] != 0,
        m.rotate_refusal(caller, new_signer) == Some(VaultThresholdsError::Unauthorized) <==> caller
            != m.authority,
        m.rotate_refusal(caller, new_signer) == Some(VaultThresholdsError::InvalidOracleSigner)
            <==> caller == m.authority && forall|k: int|
            0 <= k < 32 ==> #[trigger] new_signer.bytes@[k] == 0,
{
    assert(new_signer.bytes@.len() == 32);
    if exists|k: int| 0 <= k < 32 && #[trigger] new_signer.bytes@[k] != 0 {
        let k = choose|k: int| 0 <= k < 32 && #[trigger] new_signer.bytes@[k] != 0;
        assert(new_signer@[k] != 0);
    }
}

/// A rotation installs the given key and changes nothing else.
pub proof fn law_rotation_installs_the_key(m: MonitorState, new_signer: Pubkey)
    ensures
        m.rotated(new_signer).oracle_signer == new_signer,
        m.rotated(new_signer).authority == m.authority,
        m.rotated(new_signer).vault_label == m.vault_label,
        m.rotated(new_signer).bump == m.bump,
        m.rotated(new_signer).thresholds == m.thresholds,
{
}

/// Only the last rotation counts: one rotation bears neither on whether the
/// next one is accepted nor on what it leaves behind.
pub proof fn law_last_rotation_counts(
    m: MonitorState,
    first: Pubkey,
    caller: Pubkey,
    second: Pubkey,
)
    ensures
        m.rotated(first).rotate_refusal(caller, second) == m.rotate_refusal(caller, second),
        m.rotated(first).rotated(second) == m.rotated(second),
{
}

/// Reports do not bear on what the authority may do: afterwards the same
/// thresholds may be added, the same flags cleared and the same keys installed.
pub proof fn law_reports_leave_the_authority_its_rights(
    m: MonitorState,
    signer: Pubkey,
    name: [u8; 32],
    value: i64,
    slot: u64,
    caller: Pubkey,
    other: [u8; 32],
    key: Pubkey,
)
    requires
        m.update_refusal(signer, name, value, slot) is None,
    ensures
        ({
            let n = m.updated(name, value, slot);
            &&& n.add_refusal(caller, other) == m.add_refusal(caller, other)
            &&& n.reset_refusal(caller, other) == m.reset_refusal(caller, other)
            &&& n.rotate_refusal(caller, key) == m.rotate_refusal(caller, key)
        }),
{
    crate::model::lemma_position_from(m.thresholds, name, 0);
    crate::model::lemma_with(m, name, m.threshold(name).reported(value, slot), other);
}

/// Clients tell the reasons apart by their numbers, which count from 6000 in
/// the order in which the reasons are declared: no two reasons share one.
pub proof fn law_reasons_are_numbered(e: VaultThresholdsError, f: VaultThresholdsError)
    ensures
        ({
            let number = crate::error::ERROR_CODE_OFFSET + e.index();
            &&& 6000 <= number < 6010
            &&& e is TooManyThresholds <==> number == 6000
            &&& e is DuplicateThreshold <==> number == 6001
            &&& e is ThresholdNotFound <==> number == 6002
            &&& e is UnauthorizedOracle <==> number == 6003
            &&& e is Unauthorized <==> number == 6004
            &&& e is InvalidMetricValue <==> number == 6005
            &&& e is StaleUpdate <==> number == 6006
            &&& e is InvalidThresholdName <==> number == 6007
            &&& e is InvalidVaultLabel <==> number == 6008
            &&& e is InvalidOracleSigner <==> number == 6009
        }),
        e.index() == f.index() ==> e == f,
{
}

/// Readers tell the reasons apart by their messages: no two reasons share one.
pub proof fn law_reasons_have_messages_of_their_own(
    e: VaultThresholdsError,
    f: VaultThresholdsError,
)
    ensures
        e.text() == f.text() ==> e == f,
        VaultThresholdsError::TooManyThresholds.text() == "Threshold list is full (max 16)."@,
        VaultThresholdsError::DuplicateThreshold.text()
            == "A threshold with this name already exists."@,
        VaultThresholdsError::ThresholdNotFound.text() == "Threshold not found."@,
        VaultThresholdsError::UnauthorizedOracle.text()
            == "Caller is not the configured oracle signer."@,
        VaultThresholdsError::Unauthorized.text() == "Caller is not the monitor authority."@,
{
    reveal_strlit("Threshold list is full (max 16).");
    reveal_strlit("A threshold with this name already exists.");
    reveal_strlit("Threshold not found.");
    reveal_strlit("Caller is not the configured oracle signer.");
    reveal_strlit("Caller is not the monitor authority.");
    reveal_strlit("Metric value is a reserved sentinel.");
    reveal_strlit("Update is older than the last one applied.");
    reveal_strlit("Threshold name must not be all zero.");
    reveal_strlit("Vault label must not be all zero.");
    reveal_strlit("Oracle signer must not be the zero key.");
    if e.text() == f.text() {
        assert(e.text()[0] == f.text()[0]);
        assert(e.text().len() == f.text().len());
    }
}

} // verus!
