//! What holds over the whole life of a monitor.
//!
//! A history is a sequence of requests, accepted or not. The laws speak of the
//! monitor that a history leaves behind and of the breach events it publishes.
//! The last ones speak of all monitors of a program together.

use crate::codec::AccountError;
use crate::error::VaultThresholdsError;
use crate::events::BreachEvent;
use crate::keys::Pubkey;
use crate::model::MonitorState;
use crate::state::{
    Clock, Comparison, MonitorAccount, ThresholdConfig, VaultMonitor, MAX_THRESHOLDS,
    VAULT_MONITOR_SPACE,
};
use vstd::prelude::*;

verus! {

/// A request that a monitor receives after it has been set up.
pub enum Request {
    /// [`add_threshold`](crate::instructions::add_threshold)
    Add { caller: Pubkey, name: [u8; 32], value: i64, comparison: Comparison },
    /// [`update_metric`](crate::instructions::update_metric)
    Report { signer: Pubkey, name: [u8; 32], value: i64, clock: Clock },
    /// [`reset_breach`](crate::instructions::reset_breach)
    Reset { caller: Pubkey, name: [u8; 32] },
    /// [`set_oracle_signer`](crate::instructions::set_oracle_signer)
    Rotate { caller: Pubkey, new_signer: Pubkey },
}

impl Request {
    /// Why the request is refused, if it is.
    pub open spec fn refusal(self, m: MonitorState) -> Option<VaultThresholdsError> {
        match self {
            Request::Add { caller, name, .. } => m.add_refusal(caller, name),
            Request::Report { signer, name, value, clock } => m.update_refusal(
                signer,
                name,
                value,
                clock.slot,
            ),
            Request::Reset { caller, name } => m.reset_refusal(caller, name),
            Request::Rotate { caller, new_signer } => m.rotate_refusal(caller, new_signer),
        }
    }

    /// The monitor after the request.
    pub open spec fn applied(self, m: MonitorState) -> MonitorState {
        if self.refusal(m) is Some {
            m
        } else {
            match self {
                Request::Add { name, value, comparison, .. } => m.added(name, value, comparison),
                Request::Report { name, value, clock, .. } => m.updated(name, value, clock.slot),
                Request::Reset { name, .. } => m.reset(name),
                Request::Rotate { new_signer, .. } => m.rotated(new_signer),
            }
        }
    }

    /// The breach event that the request publishes, if any.
    pub open spec fn event(self, m: MonitorState, monitor: Pubkey) -> Option<BreachEvent> {
        if self.refusal(m) is Some {
            None
        } else {
            match self {
                Request::Report { name, value, clock, .. } => m.breach_event(
                    monitor,
                    name,
                    value,
                    clock,
                ),
                _ => None,
            }
        }
    }

    /// Whether the request publishes a breach event for `name`.
    pub open spec fn alerts(self, m: MonitorState, monitor: Pubkey, name: [u8; 32]) -> bool {
        self.event(m, monitor) matches Some(e) && e.metric_name == name
    }

    /// Whether the request clears the flag of `name`.
    pub open spec fn resets(self, m: MonitorState, name: [u8; 32]) -> bool {
        &&& self.refusal(m) is None
        &&& self matches Request::Reset { name: cleared, .. } && cleared == name
    }

    /// Whether the sender has no right to send the request.
    pub open spec fn from_stranger(self, m: MonitorState) -> bool {
        match self {
            Request::Add { caller, .. } => caller != m.authority,
            Request::Report { signer, .. } => signer != m.oracle_signer,
            Request::Reset { caller, .. } => caller != m.authority,
            Request::Rotate { caller, .. } => caller != m.authority,
        }
    }
}

/// The monitor that a history leaves behind.
pub open spec fn outcome(m: MonitorState, history: Seq<Request>) -> MonitorState
    decreases history.len(),
{
    if history.len() == 0 {
        m
    } else {
        history.last().applied(outcome(m, history.drop_last()))
    }
}

/// How many breach events a history publishes for `name`.
pub open spec fn alert_count(
    m: MonitorState,
    monitor: Pubkey,
    history: Seq<Request>,
    name: [u8; 32],
) -> nat
    decreases history.len(),
{
    if history.len() == 0 {
        0
    } else {
        let before = history.drop_last();
        alert_count(m, monitor, before, name) + if history.last().alerts(outcome(m, before), monitor, name) {
            1nat
        } else {
            0
        }
    }
}

/// How often a history clears the flag of `name`.
pub open spec fn reset_count(m: MonitorState, history: Seq<Request>, name: [u8; 32]) -> nat
    decreases history.len(),
{
    if history.len() == 0 {
        0
    } else {
        let before = history.drop_last();
        reset_count(m, before, name) + if history.last().resets(outcome(m, before), name) {
            1nat
        } else {
            0
        }
    }
}

/// One for a threshold whose flag is up, zero otherwise.
pub open spec fn flag(m: MonitorState, name: [u8; 32]) -> nat {
    if m.flagged(name) {
        1
    } else {
        0
    }
}

/// A position is that of the first threshold with the name, and there is none
/// exactly where no threshold has the name.
pub proof fn law_position_is_the_first(m: MonitorState, name: [u8; 32], i: int)
    ensures
        m.position(name) == Some(i) <==> {
            &&& 0 <= i < m.thresholds.len()
            &&& m.thresholds[i].name == name
            &&& forall|j: int| 0 <= j < i ==> (#[trigger] m.thresholds[j]).name != name
        },
        m.position(name) is None <==> forall|j: int|
            0 <= j < m.thresholds.len() ==> (#[trigger] m.thresholds[j]).name != name,
{
    crate::model::lemma_position_from(m.thresholds, name, 0);
    if let Some(p) = m.position(name) {
        assert(m.thresholds[p].name == name);
        if 0 <= i < m.thresholds.len() && m.thresholds[i].name == name && i != p {
            assert(p < i);
        }
    }
}

/// A monitor that was just set up for a vault with a label is well formed.
pub proof fn law_initial_is_well_formed(authority: Pubkey, vault_label: [u8; 32], bump: u8)
    requires
        !crate::keys::all_zero(vault_label@),
    ensures
        MonitorState::initial(authority, vault_label, bump).well_formed(),
{
}

/// Every history keeps a monitor well formed: at most sixteen thresholds, each
/// with a name of its own that is not all zero, and no sentinel recorded.
pub proof fn law_history_keeps_well_formed(m: MonitorState, history: Seq<Request>)
    requires
        m.well_formed(),
    ensures
        outcome(m, history).well_formed(),
    decreases history.len(),
{
    if history.len() > 0 {
        law_history_keeps_well_formed(m, history.drop_last());
        let before = outcome(m, history.drop_last());
        let request = history.last();
        if request.refusal(before) is None {
            match request {
                Request::Add { caller, name, value, comparison } => {
                    crate::model::lemma_added_well_formed(before, caller, name, value, comparison);
                },
                Request::Report { signer, name, value, clock } => {
                    crate::model::lemma_updated_well_formed(
                        before,
                        signer,
                        name,
                        value,
                        clock.slot,
                    );
                },
                Request::Reset { name, .. } => {
                    crate::model::lemma_reset_well_formed(before, name);
                },
                Request::Rotate { .. } => {},
            }
        }
    }
}

/// No history changes whose monitor it is, for which vault, or its bump seed.
pub proof fn law_history_keeps_identity(m: MonitorState, history: Seq<Request>)
    ensures
        outcome(m, history).authority == m.authority,
        outcome(m, history).vault_label == m.vault_label,
        outcome(m, history).bump == m.bump,
    decreases history.len(),
{
    if history.len() > 0 {
        law_history_keeps_identity(m, history.drop_last());
    }
}

/// What was watched stays on record: no history removes a threshold, moves it,
/// or changes its name, its limit or its comparison. And the slot of its last
/// report never goes back.
pub proof fn law_thresholds_stay_on_record(m: MonitorState, history: Seq<Request>, i: int)
    requires
        0 <= i < m.thresholds.len(),
    ensures
        i < outcome(m, history).thresholds.len(),
        outcome(m, history).thresholds[i].name == m.thresholds[i].name,
        outcome(m, history).thresholds[i].threshold_value == m.thresholds[i].threshold_value,
        outcome(m, history).thresholds[i].comparison == m.thresholds[i].comparison,
        outcome(m, history).thresholds[i].last_update_slot >= m.thresholds[i].last_update_slot,
    decreases history.len(),
{
    if history.len() > 0 {
        law_thresholds_stay_on_record(m, history.drop_last(), i);
        let before = outcome(m, history.drop_last());
        match history.last() {
            Request::Report { name, .. } => {
                crate::model::lemma_position_from(before.thresholds, name, 0);
            },
            Request::Reset { name, .. } => {
                crate::model::lemma_position_from(before.thresholds, name, 0);
            },
            _ => {},
        }
    }
}

/// What one request makes of the threshold called `name`.
proof fn lemma_threshold_after_one_request(m: MonitorState, request: Request, name: [u8; 32])
    ensures
        m.has(name) ==> request.applied(m).has(name) && request.applied(m).threshold(name) == (
        if request.refusal(m) is Some {
            m.threshold(name)
        } else {
            match request {
                Request::Report { name: n, value, clock, .. } => if n == name {
                    m.threshold(name).reported(value, clock.slot)
                } else {
                    m.threshold(name)
                },
                Request::Reset { name: n, .. } => if n == name {
                    m.threshold(name).rearmed()
                } else {
                    m.threshold(name)
                },
                _ => m.threshold(name),
            }
        }),
        !m.has(name) ==> !request.applied(m).flagged(name),
{
    if request.refusal(m) is None {
        match request {
            Request::Add { name: n, value, comparison, .. } => {
                crate::model::lemma_added(m, n, value, comparison, name);
            },
            Request::Report { name: n, value, clock, .. } => {
                crate::model::lemma_position_from(m.thresholds, n, 0);
                crate::model::lemma_with(m, n, m.threshold(n).reported(value, clock.slot), name);
            },
            Request::Reset { name: n, .. } => {
                crate::model::lemma_position_from(m.thresholds, n, 0);
                crate::model::lemma_with(m, n, m.threshold(n).rearmed(), name);
            },
            Request::Rotate { new_signer, .. } => {
                assert(m.rotated(new_signer).thresholds == m.thresholds);
            },
        }
    }
}

/// How one request moves the flag of a threshold.
proof fn lemma_flag_of_one_request(
    m: MonitorState,
    monitor: Pubkey,
    request: Request,
    name: [u8; 32],
)
    ensures
        request.alerts(m, monitor, name) ==> !m.flagged(name) && request.applied(m).flagged(name),
        !request.alerts(m, monitor, name) && !request.resets(m, name) ==> request.applied(
            m,
        ).flagged(name) == m.flagged(name),
        request.resets(m, name) ==> !request.applied(m).flagged(name),
{
    lemma_threshold_after_one_request(m, request, name);
}

/// Exactly one event per crossing: where a history does not clear the flag of a
/// threshold, it publishes one breach event for it if the flag went up, and
/// none otherwise.
pub proof fn law_one_event_per_crossing(
    m: MonitorState,
    monitor: Pubkey,
    history: Seq<Request>,
    name: [u8; 32],
)
    requires
        reset_count(m, history, name) == 0,
    ensures
        alert_count(m, monitor, history, name) + flag(m, name) == flag(outcome(m, history), name),
        alert_count(m, monitor, history, name) <= 1,
    decreases history.len(),
{
    if history.len() > 0 {
        let before = history.drop_last();
        law_one_event_per_crossing(m, monitor, before, name);
        lemma_flag_of_one_request(outcome(m, before), monitor, history.last(), name);
    }
}

/// The values reported for `name` that a history accepts, in order.
pub open spec fn accepted_values(m: MonitorState, history: Seq<Request>, name: [u8; 32]) -> Seq<i64>
    decreases history.len(),
{
    if history.len() == 0 {
        Seq::empty()
    } else {
        let before = history.drop_last();
        let values = accepted_values(m, before, name);
        match history.last() {
            Request::Report { name: reported, value, .. } => if reported == name
                && history.last().refusal(outcome(m, before)) is None {
                values.push(value)
            } else {
                values
            },
            _ => values,
        }
    }
}

/// Whether the report at position `i` is one that the threshold `t` has not on
/// record yet: `t` has no report, or a value up to `i` differs from its last one.
pub open spec fn is_news(t: ThresholdConfig, values: Seq<i64>, i: int) -> bool {
    t.last_update_slot == 0 || exists|j: int| 0 <= j <= i && #[trigger] values[j] != t.current_value
}

/// Whether one of the values reported to the threshold `t` is a new breach: in
/// breach, and not one of the leading repeats of the value on record.
pub open spec fn some_new_breach(t: ThresholdConfig, values: Seq<i64>) -> bool {
    exists|i: int|
        0 <= i < values.len() && t.in_breach(#[trigger] values[i]) && is_news(t, values, i)
}

/// What a further value adds: it is a new breach, or the new breaches are those
/// before it; and one that repeats the value before it is never the first.
proof fn lemma_one_more_value(t: ThresholdConfig, values: Seq<i64>, value: i64)
    ensures
        some_new_breach(t, values.push(value)) <==> some_new_breach(t, values) || t.in_breach(value)
            && is_news(t, values.push(value), values.len() as int),
        is_news(t, values, values.len() - 1) ==> is_news(
            t,
            values.push(value),
            values.len() as int,
        ),
        !is_news(t, values, values.len() - 1) ==> (is_news(
            t,
            values.push(value),
            values.len() as int,
        ) <==> value != t.current_value),
        values.len() > 0 && value == values.last() && t.in_breach(value) && is_news(
            t,
            values,
            values.len() - 1,
        ) ==> some_new_breach(t, values),
{
    let after = values.push(value);
    let n = values.len() as int;
    assert(after[n] == value);
    assert(n > 0 ==> values.last() == values[n - 1]);
    assert forall|i: int| 0 <= i < n implies is_news(t, after, i) == is_news(t, values, i) by {
        if t.last_update_slot != 0 {
            if is_news(t, after, i) {
                let j = choose|j: int| 0 <= j <= i && #[trigger] after[j] != t.current_value;
                assert(values[j] != t.current_value);
            }
            if is_news(t, values, i) {
                let j = choose|j: int| 0 <= j <= i && #[trigger] values[j] != t.current_value;
                assert(after[j] != t.current_value);
            }
        }
    }
    if some_new_breach(t, values) {
        let i = choose|i: int|
            0 <= i < n && t.in_breach(#[trigger] values[i]) && is_news(t, values, i);
        assert(t.in_breach(after[i]) && is_news(t, after, i));
    }
    if some_new_breach(t, after) {
        let i = choose|i: int|
            0 <= i < after.len() && t.in_breach(#[trigger] after[i]) && is_news(t, after, i);
        if i < n {
            assert(t.in_breach(values[i]) && is_news(t, values, i));
        }
    }
    if t.last_update_slot != 0 {
        if is_news(t, values, n - 1) {
            let j = choose|j: int| 0 <= j <= n - 1 && #[trigger] values[j] != t.current_value;
            assert(after[j] != t.current_value);
        } else if is_news(t, after, n) && value == t.current_value {
            let j = choose|j: int| 0 <= j <= n && #[trigger] after[j] != t.current_value;
            assert(values[j] != t.current_value);
        }
    }
}

/// The flag follows the values: a history that does not clear the flag of a
/// threshold leaves it up exactly where it was up before or an accepted value
/// was a new breach. This holds of every threshold, whether it was just added,
/// has been reported to, or was armed again. The value on record is the last
/// accepted one, and the limit is the same.
pub proof fn law_flag_follows_the_values(m: MonitorState, history: Seq<Request>, name: [u8; 32])
    requires
        m.has(name),
        reset_count(m, history, name) == 0,
    ensures
        outcome(m, history).has(name),
        ({
            let t = m.threshold(name);
            let u = outcome(m, history).threshold(name);
            let values = accepted_values(m, history, name);
            &&& u.breached <==> t.breached || some_new_breach(t, values)
            &&& u.current_value == (if values.len() == 0 {
                t.current_value
            } else {
                values.last()
            })
            &&& values.len() == 0 || !is_news(t, values, values.len() - 1) ==> u == t
            &&& u.last_update_slot >= t.last_update_slot
            &&& u.name == t.name
            &&& u.threshold_value == t.threshold_value
            &&& u.comparison == t.comparison
        }),
    decreases history.len(),
{
    if history.len() > 0 {
        let before = history.drop_last();
        let n = outcome(m, before);
        let request = history.last();
        law_flag_follows_the_values(m, before, name);
        lemma_threshold_after_one_request(n, request, name);
        if let Request::Report { value, .. } = request {
            lemma_one_more_value(m.threshold(name), accepted_values(m, before, name), value);
        }
    }
}

/// Exactly the first new breach is published: while the flag of a threshold is
/// not cleared, a request publishes an event for it where the flag was down at
/// the start, the request is an accepted report of a new breach and no accepted
/// value before it was one, and nowhere else. This holds of every threshold,
/// whether it was just added, has been reported to, or was armed again.
pub proof fn law_first_breach_is_published(
    m: MonitorState,
    monitor: Pubkey,
    history: Seq<Request>,
    request: Request,
    name: [u8; 32],
)
    requires
        m.has(name),
        reset_count(m, history, name) == 0,
    ensures
        ({
            let t = m.threshold(name);
            let values = accepted_values(m, history, name);
            request.alerts(outcome(m, history), monitor, name) <==> {
                &&& !t.breached
                &&& request.refusal(outcome(m, history)) is None
                &&& request matches Request::Report { name: reported, value, .. } && reported
                    == name && t.in_breach(value) && is_news(
                    t,
                    values.push(value),
                    values.len() as int,
                )
                &&& !some_new_breach(t, values)
            }
        }),
{
    law_flag_follows_the_values(m, history, name);
    if let Request::Report { value, .. } = request {
        lemma_one_more_value(m.threshold(name), accepted_values(m, history, name), value);
    }
}

/// A threshold alerts again only after its flag was cleared: a history
/// publishes at most one breach event more than it clears the flag.
pub proof fn law_events_are_bounded_by_resets(
    m: MonitorState,
    monitor: Pubkey,
    history: Seq<Request>,
    name: [u8; 32],
)
    ensures
        alert_count(m, monitor, history, name) + flag(m, name) <= flag(outcome(m, history), name)
            + reset_count(m, history, name),
        alert_count(m, monitor, history, name) <= 1 + reset_count(m, history, name),
    decreases history.len(),
{
    if history.len() > 0 {
        let before = history.drop_last();
        law_events_are_bounded_by_resets(m, monitor, before, name);
        lemma_flag_of_one_request(outcome(m, before), monitor, history.last(), name);
    }
}

/// The flag is sticky: once up, it stays up through every history that does not
/// clear it, and such a history publishes nothing more for the threshold.
pub proof fn law_flag_is_sticky(
    m: MonitorState,
    monitor: Pubkey,
    history: Seq<Request>,
    name: [u8; 32],
)
    requires
        m.flagged(name),
        reset_count(m, history, name) == 0,
    ensures
        outcome(m, history).flagged(name),
        alert_count(m, monitor, history, name) == 0,
{
    law_one_event_per_crossing(m, monitor, history, name);
}

/// Requests of senders without the right to send them change nothing and
/// publish nothing.
pub proof fn law_strangers_change_nothing(
    m: MonitorState,
    monitor: Pubkey,
    history: Seq<Request>,
    name: [u8; 32],
)
    requires
        forall|i: int| 0 <= i < history.len() ==> (#[trigger] history[i]).from_stranger(m),
    ensures
        outcome(m, history) == m,
        alert_count(m, monitor, history, name) == 0,
    decreases history.len(),
{
    if history.len() > 0 {
        let before = history.drop_last();
        assert forall|i: int| 0 <= i < before.len() implies (
        #[trigger] before[i]).from_stranger(m) by {
            assert(before[i] == history[i]);
        }
        law_strangers_change_nothing(m, monitor, before, name);
        assert(history.last() == history[history.len() - 1]);
    }
}

/// The right to report goes over as a whole: after a rotation the reports of
/// the new signer are judged as those of the old one were before, and every
/// other key is turned away.
pub proof fn law_rotation_hands_over(
    m: MonitorState,
    caller: Pubkey,
    new_signer: Pubkey,
    signer: Pubkey,
    name: [u8; 32],
    value: i64,
    slot: u64,
)
    requires
        m.rotate_refusal(caller, new_signer) is None,
    ensures
        signer != new_signer ==> m.rotated(new_signer).update_refusal(signer, name, value, slot)
            == Some(VaultThresholdsError::UnauthorizedOracle),
        m.rotated(new_signer).update_refusal(new_signer, name, value, slot) == m.update_refusal(
            m.oracle_signer,
            name,
            value,
            slot,
        ),
{
}

/// A report that is accepted is on record: the threshold holds the reported
/// value afterwards, and nothing else changes but its slot and its flag.
pub proof fn law_report_is_read_back(
    m: MonitorState,
    signer: Pubkey,
    name: [u8; 32],
    value: i64,
    slot: u64,
    other: [u8; 32],
)
    requires
        m.update_refusal(signer, name, value, slot) is None,
    ensures
        m.updated(name, value, slot).has(name),
        m.updated(name, value, slot).threshold(name).current_value == value,
        m.updated(name, value, slot).oracle_signer == m.oracle_signer,
        m.has(other) && other != name ==> m.updated(name, value, slot).threshold(other)
            == m.threshold(other),
{
    crate::model::lemma_position_from(m.thresholds, name, 0);
    crate::model::lemma_with(m, name, m.threshold(name).reported(value, slot), other);
}

/// Clearing the flag arms a threshold again: the next report that is in breach
/// is accepted and publishes an event, unless it repeats the value on record.
pub proof fn law_reset_arms_again(
    m: MonitorState,
    caller: Pubkey,
    name: [u8; 32],
    value: i64,
    clock: Clock,
    monitor: Pubkey,
)
    requires
        m.reset_refusal(caller, name) is None,
        m.threshold(name).in_breach(value),
        !crate::model::is_sentinel(value),
        clock.slot >= m.threshold(name).last_update_slot,
        !m.threshold(name).is_repeat(value),
    ensures
        m.reset(name).update_refusal(m.oracle_signer, name, value, clock.slot) is None,
        m.reset(name).breach_event(monitor, name, value, clock) is Some,
{
    crate::model::lemma_position_from(m.thresholds, name, 0);
    crate::model::lemma_with(m, name, m.threshold(name).rearmed(), name);
}

/// Reporting a value again is silent: the second report is accepted and
/// publishes nothing. It changes nothing where the first one left a slot on
/// record other than zero.
pub proof fn law_repeated_report_is_silent(
    m: MonitorState,
    name: [u8; 32],
    value: i64,
    slot: u64,
    clock: Clock,
    monitor: Pubkey,
)
    requires
        m.update_refusal(m.oracle_signer, name, value, slot) is None,
        clock.slot >= slot,
    ensures
        m.updated(name, value, slot).update_refusal(m.oracle_signer, name, value, clock.slot)
            is None,
        m.updated(name, value, slot).breach_event(monitor, name, value, clock) is None,
        m.updated(name, value, slot).threshold(name).last_update_slot != 0 ==> m.updated(
            name,
            value,
            slot,
        ).updated(name, value, clock.slot) == m.updated(name, value, slot),
{
    crate::model::lemma_position_from(m.thresholds, name, 0);
    let n = m.updated(name, value, slot);
    crate::model::lemma_with(m, name, m.threshold(name).reported(value, slot), name);
    assert(n.threshold(name).is_repeat(value) ==> n.updated(name, value, clock.slot).thresholds
        =~= n.thresholds);
}

/// An accepted threshold is there, fresh, and its name is taken from then on.
/// The thresholds that were there before are as they were.
pub proof fn law_added_threshold_is_there(
    m: MonitorState,
    caller: Pubkey,
    name: [u8; 32],
    value: i64,
    comparison: Comparison,
    other: [u8; 32],
)
    requires
        m.add_refusal(caller, name) is None,
    ensures
        m.added(name, value, comparison).has(name),
        m.added(name, value, comparison).threshold(name) == ThresholdConfig::fresh(
            name,
            value,
            comparison,
        ),
        m.added(name, value, comparison).add_refusal(caller, name) is Some,
        m.has(other) ==> m.added(name, value, comparison).threshold(other) == m.threshold(other),
{
    crate::model::lemma_added(m, name, value, comparison, other);
}

/// A monitor with sixteen thresholds takes no further one.
pub proof fn law_full_monitor_takes_no_more(m: MonitorState, name: [u8; 32])
    requires
        m.thresholds.len() == MAX_THRESHOLDS,
        !crate::keys::all_zero(name@),
    ensures
        m.add_refusal(m.authority, name) == Some(VaultThresholdsError::TooManyThresholds),
{
}

/// A threshold that was written is read back as it was.
pub proof fn law_threshold_round_trip(t: ThresholdConfig, r: Result<ThresholdConfig, AccountError>)
    requires
        ThresholdConfig::reading(t.layout(), r),
    ensures
        r == Ok::<_, AccountError>(t),
{
    if let Ok(u) = r {
        crate::codec::lemma_layout_injective(t, u);
    }
}

/// A monitor that was written to its account is read back as it was, whatever
/// follows it in the space of the account.
pub proof fn law_monitor_round_trip(
    m: MonitorState,
    rest: Seq<u8>,
    r: Result<VaultMonitor, AccountError>,
)
    requires
        m.writable(),
        VaultMonitor::reading(m.layout() + rest, r),
    ensures
        r matches Ok(n) && n@ == m,
{
    let data = m.layout() + rest;
    assert(data.take(8) =~= crate::codec::VAULT_MONITOR_DISCRIMINATOR@);
    assert(data.skip(8) =~= m.body_layout() + rest);
    assert(m.body_layout().is_prefix_of(data.skip(8)));
    if let Ok(n) = r {
        crate::codec::lemma_body_prefix_free(m, n@, data.skip(8));
    }
}

/// The account has room for every well-formed monitor: eight bytes for its
/// type, 97 for the fixed fields, four for the number of thresholds and 58 for
/// each of them.
pub proof fn law_space_suffices(m: MonitorState)
    requires
        m.well_formed(),
    ensures
        m.writable(),
        m.layout().len() == 109 + 58 * m.thresholds.len(),
        m.layout().len() <= 1037,
        m.layout().len() <= VAULT_MONITOR_SPACE,
{
    crate::codec::lemma_layout_len(m);
}

/// A monitor never outgrows its account, whatever is requested of it.
pub proof fn law_monitor_never_outgrows_its_account(
    authority: Pubkey,
    vault_label: [u8; 32],
    bump: u8,
    history: Seq<Request>,
)
    requires
        !crate::keys::all_zero(vault_label@),
    ensures
        outcome(MonitorState::initial(authority, vault_label, bump), history).layout().len()
            <= VAULT_MONITOR_SPACE,
{
    let m = MonitorState::initial(authority, vault_label, bump);
    law_initial_is_well_formed(authority, vault_label, bump);
    law_history_keeps_well_formed(m, history);
    law_space_suffices(outcome(m, history));
}

/// There is one monitor per curator and vault: their canonical bump seed, and
/// with it the address, is the only one.
pub proof fn law_one_address_per_vault(
    authority: Pubkey,
    vault_label: [u8; 32],
    bump: u8,
    other: u8,
    program_id: Pubkey,
)
    requires
        crate::address::is_canonical_bump(authority, vault_label, bump, program_id),
        crate::address::is_canonical_bump(authority, vault_label, other, program_id),
    ensures
        bump == other,
        crate::address::monitor_address(authority, vault_label, bump, program_id)
            == crate::address::monitor_address(authority, vault_label, other, program_id),
{
}

/// No history moves a monitor from its address: an account that is where its
/// contents say stays there.
pub proof fn law_history_keeps_address(
    before: MonitorAccount,
    after: MonitorAccount,
    history: Seq<Request>,
    program_id: Pubkey,
)
    requires
        before.at_derived_address(program_id),
        after.address == before.address,
        after.state@ == outcome(before.state@, history),
    ensures
        after.at_derived_address(program_id),
{
    law_history_keeps_identity(before.state@, history);
}

/// A monitor that was set up in an account at the canonical address is where
/// its contents say.
pub proof fn law_initialized_at_derived_address(
    account: MonitorAccount,
    authority: Pubkey,
    vault_label: [u8; 32],
    bump: u8,
    program_id: Pubkey,
)
    requires
        crate::address::monitor_address(authority, vault_label, bump, program_id) == Some(
            account.address@,
        ),
        account.state@ == MonitorState::initial(authority, vault_label, bump),
    ensures
        account.at_derived_address(program_id),
{
}

/// All monitors of a program, by the address of their accounts.
pub type Ledger = Map<Pubkey, MonitorState>;

/// An instruction that the program receives for the account at an address.
pub enum Instruction {
    /// [`run_initialize_monitor`](crate::program::run_initialize_monitor)
    SetUp { address: Pubkey, authority: Pubkey, vault_label: [u8; 32] },
    /// One of the instructions on a monitor that is there.
    Send { address: Pubkey, request: Request },
}

impl Instruction {
    /// Whether the instruction sets up a monitor.
    pub open spec fn sets_up(self, ledger: Ledger, program_id: Pubkey) -> bool {
        match self {
            Instruction::SetUp { address, authority, vault_label } =>
                crate::program::run_set_up_refusal(
                address,
                ledger.contains_key(address),
                authority,
                vault_label,
                program_id,
            ) is None,
            Instruction::Send { .. } => false,
        }
    }

    /// The ledger after the instruction. A request to an account without a
    /// monitor, or with one whose contents derive another address, is turned down.
    pub open spec fn applied(self, ledger: Ledger, program_id: Pubkey) -> Ledger {
        match self {
            Instruction::SetUp { address, authority, vault_label } => if self.sets_up(
                ledger,
                program_id,
            ) {
                ledger.insert(
                    address,
                    MonitorState::initial(
                        authority,
                        vault_label,
                        crate::address::canonical_bump(authority, vault_label, program_id)->0,
                    ),
                )
            } else {
                ledger
            },
            Instruction::Send { address, request } => if ledger.contains_key(address)
                && crate::address::monitor_address(
                ledger[address].authority,
                ledger[address].vault_label,
                ledger[address].bump,
                program_id,
            ) == Some(address@) {
                ledger.insert(address, request.applied(ledger[address]))
            } else {
                ledger
            },
        }
    }
}

/// The ledger that a sequence of instructions leaves behind.
pub open spec fn ledger_outcome(
    ledger: Ledger,
    program_id: Pubkey,
    instructions: Seq<Instruction>,
) -> Ledger
    decreases instructions.len(),
{
    if instructions.len() == 0 {
        ledger
    } else {
        instructions.last().applied(
            ledger_outcome(ledger, program_id, instructions.drop_last()),
            program_id,
        )
    }
}

/// Whether every monitor is well formed and at the canonical address for its
/// own authority and vault.
pub open spec fn ledger_well_formed(ledger: Ledger, program_id: Pubkey) -> bool {
    forall|address: Pubkey| #[trigger]
        ledger.contains_key(address) ==> {
            let m = ledger[address];
            &&& m.well_formed()
            &&& crate::address::is_canonical_bump(m.authority, m.vault_label, m.bump, program_id)
            &&& crate::address::monitor_address(m.authority, m.vault_label, m.bump, program_id)
                == Some(address@)
        }
}

/// A monitor in use is not set up again: at a taken address a set-up is turned
/// down and changes nothing.
pub proof fn law_taken_address_is_not_set_up(
    ledger: Ledger,
    program_id: Pubkey,
    address: Pubkey,
    authority: Pubkey,
    vault_label: [u8; 32],
)
    requires
        ledger.contains_key(address),
    ensures
        crate::program::run_set_up_refusal(address, true, authority, vault_label, program_id)
            is Some,
        ({
            let instruction = Instruction::SetUp { address, authority, vault_label };
            &&& !instruction.sets_up(ledger, program_id)
            &&& instruction.applied(ledger, program_id) == ledger
        }),
{
}

/// No sequence of instructions removes a monitor, or changes whose it is, for
/// which vault, or its bump seed.
pub proof fn law_monitors_stay(
    ledger: Ledger,
    program_id: Pubkey,
    instructions: Seq<Instruction>,
    address: Pubkey,
)
    requires
        ledger.contains_key(address),
    ensures
        ({
            let after = ledger_outcome(ledger, program_id, instructions);
            &&& after.contains_key(address)
            &&& after[address].authority == ledger[address].authority
            &&& after[address].vault_label == ledger[address].vault_label
            &&& after[address].bump == ledger[address].bump
        }),
    decreases instructions.len(),
{
    if instructions.len() > 0 {
        law_monitors_stay(ledger, program_id, instructions.drop_last(), address);
    }
}

/// One set-up per curator and vault: after a monitor was set up, and whatever
/// was done to it and to others since, a second set-up by the same authority
/// for the same vault is turned down, at every address, and changes nothing.
pub proof fn law_second_set_up_is_refused(
    ledger: Ledger,
    program_id: Pubkey,
    first: Pubkey,
    authority: Pubkey,
    vault_label: [u8; 32],
    instructions: Seq<Instruction>,
    second: Pubkey,
)
    requires
        (Instruction::SetUp { address: first, authority, vault_label }).sets_up(ledger, program_id),
    ensures
        ({
            let set_up = (Instruction::SetUp { address: first, authority, vault_label }).applied(
                ledger,
                program_id,
            );
            let later = ledger_outcome(set_up, program_id, instructions);
            let again = Instruction::SetUp { address: second, authority, vault_label };
            &&& crate::program::run_set_up_refusal(
                second,
                later.contains_key(second),
                authority,
                vault_label,
                program_id,
            ) is Some
            &&& !again.sets_up(later, program_id)
            &&& again.applied(later, program_id) == later
        }),
{
    let set_up = (Instruction::SetUp { address: first, authority, vault_label }).applied(
        ledger,
        program_id,
    );
    law_monitors_stay(set_up, program_id, instructions, first);
    if second@ == first@ {
        crate::keys::lemma_same_view(second.bytes, first.bytes);
    }
}

/// Every sequence of instructions keeps the ledger well formed.
pub proof fn law_ledger_stays_well_formed(
    ledger: Ledger,
    program_id: Pubkey,
    instructions: Seq<Instruction>,
)
    requires
        ledger_well_formed(ledger, program_id),
    ensures
        ledger_well_formed(ledger_outcome(ledger, program_id, instructions), program_id),
    decreases instructions.len(),
{
    if instructions.len() > 0 {
        law_ledger_stays_well_formed(ledger, program_id, instructions.drop_last());
        let before = ledger_outcome(ledger, program_id, instructions.drop_last());
        let instruction = instructions.last();
        let after = instruction.applied(before, program_id);
        assert forall|address: Pubkey| #[trigger] after.contains_key(address) implies {
            let m = after[address];
            &&& m.well_formed()
            &&& crate::address::is_canonical_bump(m.authority, m.vault_label, m.bump, program_id)
            &&& crate::address::monitor_address(m.authority, m.vault_label, m.bump, program_id)
                == Some(address@)
        } by {
            match instruction {
                Instruction::SetUp { address: new, authority, vault_label } => {
                    if address != new || !instruction.sets_up(before, program_id) {
                        assert(before.contains_key(address));
                    }
                },
                Instruction::Send { address: sent, request } => {
                    assert(before.contains_key(address));
                    if address == sent {
                        let m = before[address];
                        let history = seq![request];
                        assert(history.drop_last() =~= Seq::empty());
                        assert(outcome(m, history.drop_last()) == m);
                        assert(outcome(m, history) == request.applied(m));
                        law_history_keeps_well_formed(m, history);
                        law_history_keeps_identity(m, history);
                    }
                },
            }
        }
    }
}

/// There is at most one monitor per curator and vault.
pub proof fn law_one_monitor_per_curator_and_vault(
    program_id: Pubkey,
    instructions: Seq<Instruction>,
    a: Pubkey,
    b: Pubkey,
)
    requires
        ({
            let ledger = ledger_outcome(Map::empty(), program_id, instructions);
            &&& ledger.contains_key(a)
            &&& ledger.contains_key(b)
            &&& ledger[a].authority == ledger[b].authority
            &&& ledger[a].vault_label == ledger[b].vault_label
        }),
    ensures
        a == b,
{
    let ledger = ledger_outcome(Map::empty(), program_id, instructions);
    law_ledger_stays_well_formed(Map::empty(), program_id, instructions);
    let m = ledger[a];
    let n = ledger[b];
    law_one_address_per_vault(m.authority, m.vault_label, m.bump, n.bump, program_id);
    crate::keys::lemma_same_view(a.bytes, b.bytes);
}

} // verus!
