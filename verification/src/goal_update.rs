//! The decisions of a strategic-goal update: which fields an update writes, whether the
//! record's own stamp is renewed, which fields get a change-log entry, and which goals
//! log a change of their sync priority.

use vstd::prelude::*;
use crate::clock::Timestamp;
use crate::ident::{fresh_uuid, parse_uuid_text, uuid_parsed};
use crate::json::{encode_json_opt_int, encode_json_opt_text, encode_json_text, json_opt_int, json_opt_text, json_text_encoding};
use crate::strategic_goal::StrategicGoal;
use crate::sync_records::{logs_field_update, ChangeLogEntry};
use crate::sync_types::{lower_text, ChangeOperationType, SyncPriority};
use crate::text::same_text;
use crate::workshop::{opt_text_eq, same_opt_text};

verus! {

/// Changes to a strategic goal: only the fields that are set change. The target and
/// actual values are the bit patterns of their floating-point numbers.
#[derive(Clone, Debug)]
pub struct UpdateStrategicGoal {
    pub objective_code: Option<String>,
    pub outcome: Option<String>,
    pub kpi: Option<String>,
    pub target_value: Option<u64>,
    pub actual_value: Option<u64>,
    pub status_id: Option<i64>,
    pub responsible_team: Option<String>,
    pub sync_priority: Option<SyncPriority>,
    pub updated_by_user_id: u128,
}

/// The fields of a strategic goal that an update can set.
#[derive(Clone, Copy, Debug, PartialEq, Eq, Structural)]
pub enum GoalColumn {
    ObjectiveCode,
    Outcome,
    Kpi,
    TargetValue,
    ActualValue,
    StatusId,
    ResponsibleTeam,
    SyncPriority,
}

impl GoalColumn {
    /// The column and change-log name of the field.
    pub open spec fn name(self) -> Seq<char> {
        match self {
            GoalColumn::ObjectiveCode => "objective_code"@,
            GoalColumn::Outcome => "outcome"@,
            GoalColumn::Kpi => "kpi"@,
            GoalColumn::TargetValue => "target_value"@,
            GoalColumn::ActualValue => "actual_value"@,
            GoalColumn::StatusId => "status_id"@,
            GoalColumn::ResponsibleTeam => "responsible_team"@,
            GoalColumn::SyncPriority => "sync_priority"@,
        }
    }

    pub fn as_str(&self) -> (r: &'static str)
        ensures
            r@ == self.name(),
    {
        match self {
            GoalColumn::ObjectiveCode => "objective_code",
            GoalColumn::Outcome => "outcome",
            GoalColumn::Kpi => "kpi",
            GoalColumn::TargetValue => "target_value",
            GoalColumn::ActualValue => "actual_value",
            GoalColumn::StatusId => "status_id",
            GoalColumn::ResponsibleTeam => "responsible_team",
            GoalColumn::SyncPriority => "sync_priority",
        }
    }
}

/// Every field an update can set, in the order they are written and logged.
pub open spec fn all_goal_columns() -> Seq<GoalColumn> {
    seq![GoalColumn::ObjectiveCode, GoalColumn::Outcome, GoalColumn::Kpi, GoalColumn::TargetValue,
        GoalColumn::ActualValue, GoalColumn::StatusId, GoalColumn::ResponsibleTeam, GoalColumn::SyncPriority]
}

fn all_goal_columns_vec() -> (r: Vec<GoalColumn>)
    ensures
        r@ == all_goal_columns(),
{
    let mut r: Vec<GoalColumn> = Vec::new();
    r.push(GoalColumn::ObjectiveCode);
    r.push(GoalColumn::Outcome);
    r.push(GoalColumn::Kpi);
    r.push(GoalColumn::TargetValue);
    r.push(GoalColumn::ActualValue);
    r.push(GoalColumn::StatusId);
    r.push(GoalColumn::ResponsibleTeam);
    r.push(GoalColumn::SyncPriority);
    assert(r@ =~= all_goal_columns());
    r
}

/// True when an update sets the field.
pub open spec fn goal_column_set(u: UpdateStrategicGoal, c: GoalColumn) -> bool {
    match c {
        GoalColumn::ObjectiveCode => u.objective_code is Some,
        GoalColumn::Outcome => u.outcome is Some,
        GoalColumn::Kpi => u.kpi is Some,
        GoalColumn::TargetValue => u.target_value is Some,
        GoalColumn::ActualValue => u.actual_value is Some,
        GoalColumn::StatusId => u.status_id is Some,
        GoalColumn::ResponsibleTeam => u.responsible_team is Some,
        GoalColumn::SyncPriority => u.sync_priority is Some,
    }
}

/// The fields an update sets, in the order they are written.
pub open spec fn goal_set_columns(u: UpdateStrategicGoal) -> Seq<GoalColumn> {
    all_goal_columns().filter(|c: GoalColumn| goal_column_set(u, c))
}

impl UpdateStrategicGoal {
    /// True when this update sets the field.
    pub fn sets(&self, c: GoalColumn) -> (r: bool)
        ensures
            r == goal_column_set(*self, c),
    {
        match c {
            GoalColumn::ObjectiveCode => self.objective_code.is_some(),
            GoalColumn::Outcome => self.outcome.is_some(),
            GoalColumn::Kpi => self.kpi.is_some(),
            GoalColumn::TargetValue => self.target_value.is_some(),
            GoalColumn::ActualValue => self.actual_value.is_some(),
            GoalColumn::StatusId => self.status_id.is_some(),
            GoalColumn::ResponsibleTeam => self.responsible_team.is_some(),
            GoalColumn::SyncPriority => self.sync_priority.is_some(),
        }
    }

    /// The fields this update writes, each with a new stamp, in order.
    pub fn set_columns(&self) -> (r: Vec<GoalColumn>)
        ensures
            r@ == goal_set_columns(*self),
    {
        let all = all_goal_columns_vec();
        let ghost pred = |c: GoalColumn| goal_column_set(*self, c);
        let mut r: Vec<GoalColumn> = Vec::new();
        let mut i: usize = 0;
        while i < all.len()
            invariant
                all@ == all_goal_columns(),
                pred == (|c: GoalColumn| goal_column_set(*self, c)),
                i <= all@.len(),
                r@ == all@.take(i as int).filter(pred),
            decreases all@.len() - i,
        {
            let c = all[i];
            proof {
                let next = all@.take(i as int + 1);
                assert(next.drop_last() =~= all@.take(i as int));
                assert(next.last() == c);
                assert(next.filter(pred) == (if pred(c) { all@.take(i as int).filter(pred).push(c) } else {
                    all@.take(i as int).filter(pred) })) by {
                    reveal(Seq::filter);
                }
            }
            if self.sets(c) {
                r.push(c);
            }
            i = i + 1;
        }
        proof {
            assert(all@.take(all@.len() as int) =~= all@);
        }
        r
    }
}

/// True when an update writes the goal at all: it sets a field, or it comes from
/// another user or another device than the goal's last update (then only the record's
/// stamp is renewed). Otherwise the goal is left as it is.
pub open spec fn goal_update_writes(fields_set: bool, old: StrategicGoal, user_id: u128, acting_device_id: Option<u128>) -> bool {
    fields_set || old.updated_by_user_id != Some(user_id) || old.updated_by_device_id != acting_device_id
}

/// Decides whether an update writes the goal, and so renews its stamp.
pub fn renews_goal_stamp(fields_set: bool, old: &StrategicGoal, user_id: u128, acting_device_id: Option<u128>) -> (r: bool)
    ensures
        r == goal_update_writes(fields_set, *old, user_id, acting_device_id),
{
    fields_set || old.updated_by_user_id != Some(user_id) || old.updated_by_device_id != acting_device_id
}

/// True when the field's value differs between two states of a goal. Whether the
/// target and the actual values differ is given, as their floating-point numbers
/// compare.
pub open spec fn goal_column_changed(old: StrategicGoal, new: StrategicGoal, c: GoalColumn, target_changed: bool, actual_changed: bool) -> bool {
    match c {
        GoalColumn::ObjectiveCode => old.objective_code@ != new.objective_code@,
        GoalColumn::Outcome => !same_opt_text(old.outcome, new.outcome),
        GoalColumn::Kpi => !same_opt_text(old.kpi, new.kpi),
        GoalColumn::TargetValue => target_changed,
        GoalColumn::ActualValue => actual_changed,
        GoalColumn::StatusId => old.status_id != new.status_id,
        GoalColumn::ResponsibleTeam => !same_opt_text(old.responsible_team, new.responsible_team),
        GoalColumn::SyncPriority => old.sync_priority != new.sync_priority,
    }
}

/// The fields whose values differ between two states of a goal, in the order they are
/// logged.
pub open spec fn changed_goal_columns_of(old: StrategicGoal, new: StrategicGoal, target_changed: bool, actual_changed: bool) -> Seq<GoalColumn> {
    all_goal_columns().filter(|c: GoalColumn| goal_column_changed(old, new, c, target_changed, actual_changed))
}

fn goal_column_differs(old: &StrategicGoal, new: &StrategicGoal, c: GoalColumn, target_changed: bool, actual_changed: bool) -> (r: bool)
    ensures
        r == goal_column_changed(*old, *new, c, target_changed, actual_changed),
{
    match c {
        GoalColumn::ObjectiveCode => !same_text(old.objective_code.as_str(), new.objective_code.as_str()),
        GoalColumn::Outcome => !opt_text_eq(&old.outcome, &new.outcome),
        GoalColumn::Kpi => !opt_text_eq(&old.kpi, &new.kpi),
        GoalColumn::TargetValue => target_changed,
        GoalColumn::ActualValue => actual_changed,
        GoalColumn::StatusId => old.status_id != new.status_id,
        GoalColumn::ResponsibleTeam => !opt_text_eq(&old.responsible_team, &new.responsible_team),
        GoalColumn::SyncPriority => old.sync_priority != new.sync_priority,
    }
}

/// The fields whose values differ between the state before and after an update, each
/// of which gets a change-log entry.
pub fn changed_goal_columns(old: &StrategicGoal, new: &StrategicGoal, target_changed: bool, actual_changed: bool) -> (r: Vec<GoalColumn>)
    ensures
        r@ == changed_goal_columns_of(*old, *new, target_changed, actual_changed),
{
    let all = all_goal_columns_vec();
    let ghost pred = |c: GoalColumn| goal_column_changed(*old, *new, c, target_changed, actual_changed);
    let mut r: Vec<GoalColumn> = Vec::new();
    let mut i: usize = 0;
    while i < all.len()
        invariant
            all@ == all_goal_columns(),
            pred == (|c: GoalColumn| goal_column_changed(*old, *new, c, target_changed, actual_changed)),
            i <= all@.len(),
            r@ == all@.take(i as int).filter(pred),
        decreases all@.len() - i,
    {
        let c = all[i];
        proof {
            let next = all@.take(i as int + 1);
            assert(next.drop_last() =~= all@.take(i as int));
            assert(next.last() == c);
            assert(next.filter(pred) == (if pred(c) { all@.take(i as int).filter(pred).push(c) } else {
                all@.take(i as int).filter(pred) })) by {
                reveal(Seq::filter);
            }
        }
        if goal_column_differs(old, new, c, target_changed, actual_changed) {
            r.push(c);
        }
        i = i + 1;
    }
    proof {
        assert(all@.take(all@.len() as int) =~= all@);
    }
    r
}

/// A goal whose state is the same before and after an update (its target and actual
/// values compare equal) gets no change-log entry.
pub proof fn unchanged_goal_logs_nothing(g: StrategicGoal)
    ensures
        changed_goal_columns_of(g, g, false, false) == Seq::<GoalColumn>::empty(),
{
    let pred = |c: GoalColumn| goal_column_changed(g, g, c, false, false);
    let f = all_goal_columns().filter(pred);
    if f.len() > 0 {
        all_goal_columns().lemma_filter_pred(pred, 0);
        assert(!pred(f[0]));
    }
    assert(f =~= Seq::<GoalColumn>::empty());
}

/// The (goal, priority) pairs read back from stored (identifier, priority name) rows, in
/// order; a row whose identifier is no UUID or whose name is no priority is left out.
pub open spec fn priorities_read(rows: Seq<(String, String)>) -> Seq<(u128, SyncPriority)>
    decreases rows.len(),
{
    if rows.len() == 0 {
        Seq::empty()
    } else {
        let prev = priorities_read(rows.drop_last());
        match (uuid_parsed(rows.last().0@), SyncPriority::named(lower_text(rows.last().1@))) {
            (Some(u), Some(p)) => prev.push((u, p)),
            _ => prev,
        }
    }
}

/// Reads the stored priorities of goals, leaving out the rows that cannot be read.
pub fn read_goal_priorities(rows: &Vec<(String, String)>) -> (r: Vec<(u128, SyncPriority)>)
    ensures
        r@ == priorities_read(rows@),
{
    let mut r: Vec<(u128, SyncPriority)> = Vec::new();
    let mut i: usize = 0;
    while i < rows.len()
        invariant
            i <= rows@.len(),
            r@ == priorities_read(rows@.take(i as int)),
        decreases rows@.len() - i,
    {
        let row = &rows[i];
        proof {
            assert(rows@.take(i as int + 1).drop_last() =~= rows@.take(i as int));
            assert(rows@.take(i as int + 1).last() == rows@[i as int]);
        }
        match (parse_uuid_text(row.0.as_str()), SyncPriority::from_str(row.1.as_str())) {
            (Some(u), Ok(p)) => r.push((u, p)),
            _ => {},
        }
        i = i + 1;
    }
    proof {
        assert(rows@.take(rows@.len() as int) =~= rows@);
    }
    r
}

/// The priority each goal had, from (goal, priority) pairs: a goal listed twice has its
/// later priority.
pub open spec fn priority_map(pairs: Seq<(u128, SyncPriority)>) -> Map<u128, SyncPriority>
    decreases pairs.len(),
{
    if pairs.len() == 0 {
        Map::empty()
    } else {
        priority_map(pairs.drop_last()).insert(pairs.last().0, pairs.last().1)
    }
}

fn old_priority_of(pairs: &Vec<(u128, SyncPriority)>, id: u128) -> (r: Option<SyncPriority>)
    ensures
        match r {
            Some(p) => priority_map(pairs@).contains_key(id) && priority_map(pairs@)[id] == p,
            None => !priority_map(pairs@).contains_key(id),
        },
{
    let mut found: Option<SyncPriority> = None;
    let mut j: usize = 0;
    while j < pairs.len()
        invariant
            j <= pairs@.len(),
            match found {
                Some(p) => priority_map(pairs@.take(j as int)).contains_key(id) && priority_map(pairs@.take(j as int))[id] == p,
                None => !priority_map(pairs@.take(j as int)).contains_key(id),
            },
        decreases pairs@.len() - j,
    {
        proof {
            assert(pairs@.take(j as int + 1).drop_last() =~= pairs@.take(j as int));
            assert(pairs@.take(j as int + 1).last() == pairs@[j as int]);
        }
        if pairs[j].0 == id {
            found = Some(pairs[j].1);
        }
        j = j + 1;
    }
    proof {
        assert(pairs@.take(pairs@.len() as int) =~= pairs@);
    }
    found
}

/// True when setting a goal's priority is a change to log: the goal had a priority, and
/// it was another one.
pub open spec fn priority_change_logged(old: Map<u128, SyncPriority>, p: SyncPriority, id: u128) -> bool {
    old.contains_key(id) && old[id] != p
}

/// The goals, in the order given, whose priority change is logged.
pub open spec fn priority_logged_ids(ids: Seq<u128>, old: Map<u128, SyncPriority>, p: SyncPriority) -> Seq<u128> {
    ids.filter(|id: u128| priority_change_logged(old, p, id))
}

/// The change-log entry of a goal's priority change: an update of `sync_priority` from
/// the old to the new priority name (as JSON texts), by the acting user and device at
/// `now`.
pub open spec fn logs_priority_change(
    e: ChangeLogEntry,
    id: u128,
    old: SyncPriority,
    new: SyncPriority,
    now: Timestamp,
    user_id: u128,
    acting_device_id: Seq<char>,
) -> bool {
    &&& e.entity_table@ == "strategic_goals"@
    &&& e.entity_id == id
    &&& e.operation_type == ChangeOperationType::Update
    &&& e.field_name matches Some(f) && f@ == "sync_priority"@
    &&& e.old_value matches Some(v) && v@ == json_text_encoding(old.name())
    &&& e.new_value matches Some(v) && v@ == json_text_encoding(new.name())
    &&& e.document_metadata is None
    &&& e.timestamp == now
    &&& e.user_id == user_id
    &&& e.device_id == uuid_parsed(acting_device_id)
    &&& e.sync_batch_id is None && e.processed_at is None && e.sync_error is None
}

/// The change-log entries of setting the priority of the given goals: one for each goal,
/// in the order given, whose earlier priority is known and differs.
pub fn goal_priority_logs(
    ids: &Vec<u128>,
    old: &Vec<(u128, SyncPriority)>,
    priority: SyncPriority,
    now: Timestamp,
    user_id: u128,
    acting_device_id: &str,
) -> (r: Vec<ChangeLogEntry>)
    ensures
        r@.len() == priority_logged_ids(ids@, priority_map(old@), priority).len(),
        forall|i: int| 0 <= i < r@.len() ==> {
            let id = #[trigger] priority_logged_ids(ids@, priority_map(old@), priority)[i];
            logs_priority_change(r@[i], id, priority_map(old@)[id], priority, now, user_id, acting_device_id@)
        },
{
    let ghost m = priority_map(old@);
    let ghost pred = |id: u128| priority_change_logged(m, priority, id);
    let mut r: Vec<ChangeLogEntry> = Vec::new();
    let mut k: usize = 0;
    while k < ids.len()
        invariant
            k <= ids@.len(),
            m == priority_map(old@),
            pred == (|id: u128| priority_change_logged(m, priority, id)),
            r@.len() == ids@.take(k as int).filter(pred).len(),
            forall|i: int| 0 <= i < r@.len() ==> {
                let id = #[trigger] ids@.take(k as int).filter(pred)[i];
                logs_priority_change(r@[i], id, m[id], priority, now, user_id, acting_device_id@)
            },
        decreases ids@.len() - k,
    {
        let id = ids[k];
        let ghost before = ids@.take(k as int).filter(pred);
        proof {
            let next = ids@.take(k as int + 1);
            assert(next.drop_last() =~= ids@.take(k as int));
            assert(next.last() == id);
            assert(next.filter(pred) == (if pred(id) { before.push(id) } else { before })) by {
                reveal(Seq::filter);
            }
        }
        match old_priority_of(old, id) {
            Some(p) => if p != priority {
                let entry = ChangeLogEntry {
                    operation_id: fresh_uuid(),
                    entity_table: String::from_str("strategic_goals"),
                    entity_id: id,
                    operation_type: ChangeOperationType::Update,
                    field_name: Some(String::from_str("sync_priority")),
                    old_value: Some(encode_json_text(p.as_str())),
                    new_value: Some(encode_json_text(priority.as_str())),
                    document_metadata: None,
                    timestamp: now,
                    user_id,
                    device_id: parse_uuid_text(acting_device_id),
                    sync_batch_id: None,
                    processed_at: None,
                    sync_error: None,
                };
                r.push(entry);
                proof {
                    assert forall|i: int| 0 <= i < r@.len() implies {
                        let x = #[trigger] ids@.take(k as int + 1).filter(pred)[i];
                        logs_priority_change(r@[i], x, m[x], priority, now, user_id, acting_device_id@)
                    } by {
                        if i < before.len() {
                            assert(ids@.take(k as int + 1).filter(pred)[i] == before[i]);
                        }
                    }
                }
            },
            None => {},
        }
        k = k + 1;
    }
    proof {
        assert(ids@.take(ids@.len() as int) =~= ids@);
    }
    r
}

/// True for the fields whose values are floating-point numbers (the target and the
/// actual value); the JSON of those is written outside the library.
pub open spec fn is_figure_column(c: GoalColumn) -> bool {
    c == GoalColumn::TargetValue || c == GoalColumn::ActualValue
}

/// The JSON text of a field's value, as the change log records it, for every field but
/// the two floating-point figures.
pub open spec fn goal_column_json(g: StrategicGoal, c: GoalColumn) -> Seq<char> {
    match c {
        GoalColumn::ObjectiveCode => json_text_encoding(g.objective_code@),
        GoalColumn::Outcome => json_opt_text(g.outcome),
        GoalColumn::Kpi => json_opt_text(g.kpi),
        GoalColumn::StatusId => json_opt_int(g.status_id),
        GoalColumn::ResponsibleTeam => json_opt_text(g.responsible_team),
        GoalColumn::SyncPriority => json_text_encoding(g.sync_priority.name()),
        _ => Seq::empty(),
    }
}

/// The JSON text of a field's value, as the change log records it.
pub fn goal_field_json(g: &StrategicGoal, c: GoalColumn) -> (r: String)
    requires
        !is_figure_column(c),
    ensures
        r@ == goal_column_json(*g, c),
{
    match c {
        GoalColumn::ObjectiveCode => encode_json_text(g.objective_code.as_str()),
        GoalColumn::Outcome => encode_json_opt_text(&g.outcome),
        GoalColumn::Kpi => encode_json_opt_text(&g.kpi),
        GoalColumn::StatusId => encode_json_opt_int(g.status_id),
        GoalColumn::ResponsibleTeam => encode_json_opt_text(&g.responsible_team),
        _ => encode_json_text(g.sync_priority.as_str()),
    }
}

/// The change-log entry of a changed field of a goal, other than the two figures: an
/// update by the user from the device at `now`, with the field's values before and
/// after as JSON.
pub fn goal_change_log(
    id: u128,
    old: &StrategicGoal,
    new: &StrategicGoal,
    c: GoalColumn,
    now: Timestamp,
    user_id: u128,
    device_id: Option<u128>,
) -> (r: ChangeLogEntry)
    requires
        !is_figure_column(c),
    ensures
        logs_field_update(r, "strategic_goals"@, id, c.name(), goal_column_json(*old, c), goal_column_json(*new, c),
            now, user_id, device_id),
{
    ChangeLogEntry::field_update("strategic_goals", id, c.as_str(), goal_field_json(old, c), goal_field_json(new, c),
        now, user_id, device_id)
}

} // verus!
