//! Strategic goals: the include options of queries, the goal record (its numeric values
//! held as the bit patterns of their floating-point numbers) and its stored row, the
//! query filter, the rules of objective codes, status names, and paging of goal lists.

use vstd::prelude::*;
use crate::doc_fields::{EntityFieldMetadata, FieldType};
use crate::clock::{rfc3339_stamp, rfc3339_text, Timestamp};
use crate::errors::DomainError;
use crate::records::{opt_stamp, opt_stamp_fault, opt_uuid, opt_uuid_fault, or_next, read_opt_stamp, read_opt_uuid, read_stamp, read_uuid, reports, stamp_fault, uuid_fault, FieldFault};
use crate::ident::uuid_parsed;
use crate::sync_types::{lower_text, to_lowercase_text, SyncPriority};
use crate::text::{decimal, join2, join3, same_text, signed_decimal, signed_decimal_text};
use crate::validation::{check_max_length, check_min_length, check_required, first_broken, max_length_rule, min_length_rule, reports_broken, required_rule, Broken};

verus! {

/// How a user relates to a strategic goal.
#[derive(Clone, Copy, Debug, PartialEq, Eq, Structural)]
pub enum UserGoalRole {
    /// The user created the goal.
    Created,
    /// The user last updated the goal.
    Updated,
}

/// Related data to fetch with strategic goals.
#[derive(Clone, Copy, Debug, PartialEq, Eq, Structural)]
pub enum StrategicGoalInclude {
    Documents,
    Status,
    Projects,
    ProjectCount,
    Activities,
    Participants,
    DocumentCounts,
}

/// The include option a (lower-cased) name stands for.
pub open spec fn include_named(s: Seq<char>) -> Option<StrategicGoalInclude> {
    if s == "documents"@ {
        Some(StrategicGoalInclude::Documents)
    } else if s == "status"@ {
        Some(StrategicGoalInclude::Status)
    } else if s == "projects"@ {
        Some(StrategicGoalInclude::Projects)
    } else if s == "projectcount"@ || s == "project_count"@ {
        Some(StrategicGoalInclude::ProjectCount)
    } else if s == "activities"@ {
        Some(StrategicGoalInclude::Activities)
    } else if s == "participants"@ {
        Some(StrategicGoalInclude::Participants)
    } else if s == "documentcounts"@ || s == "document_counts"@ {
        Some(StrategicGoalInclude::DocumentCounts)
    } else {
        None
    }
}

impl StrategicGoalInclude {
    /// Reads an include option, without regard to case; `projectcount` and
    /// `documentcounts` may also be written with an underscore. Any other text is
    /// refused with `Unknown include option: TEXT`.
    pub fn from_str(s: &str) -> (r: Result<StrategicGoalInclude, String>)
        ensures
            match include_named(lower_text(s@)) {
                Some(v) => r == Ok::<StrategicGoalInclude, String>(v),
                None => r matches Err(m) && m@ == "Unknown include option: "@ + s@,
            },
    {
        let low = to_lowercase_text(s);
        let t = low.as_str();
        if same_text(t, "documents") {
            Ok(StrategicGoalInclude::Documents)
        } else if same_text(t, "status") {
            Ok(StrategicGoalInclude::Status)
        } else if same_text(t, "projects") {
            Ok(StrategicGoalInclude::Projects)
        } else if same_text(t, "projectcount") || same_text(t, "project_count") {
            Ok(StrategicGoalInclude::ProjectCount)
        } else if same_text(t, "activities") {
            Ok(StrategicGoalInclude::Activities)
        } else if same_text(t, "participants") {
            Ok(StrategicGoalInclude::Participants)
        } else if same_text(t, "documentcounts") || same_text(t, "document_counts") {
            Ok(StrategicGoalInclude::DocumentCounts)
        } else {
            Err(join2("Unknown include option: ", s))
        }
    }
}

/// Reads an include option from its name, as `StrategicGoalInclude::from_str` does.
impl core::str::FromStr for StrategicGoalInclude {
    type Err = String;

    fn from_str(s: &str) -> Result<StrategicGoalInclude, String> {
        StrategicGoalInclude::from_str(s)
    }
}

/// The name shown for a goal status: the four seeded statuses by name, another status
/// by its number, and none as `No Status`.
pub open spec fn status_label(status_id: Option<i64>) -> Seq<char> {
    match status_id {
        Some(1) => "On Track"@,
        Some(2) => "At Risk"@,
        Some(3) => "Delayed"@,
        Some(4) => "Completed"@,
        Some(n) => "Unknown Status ("@ + signed_decimal(n as int) + ")"@,
        None => "No Status"@,
    }
}

/// The name shown for a goal status.
pub fn status_name(status_id: Option<i64>) -> (r: String)
    ensures
        r@ == status_label(status_id),
{
    match status_id {
        Some(1) => String::from_str("On Track"),
        Some(2) => String::from_str("At Risk"),
        Some(3) => String::from_str("Delayed"),
        Some(4) => String::from_str("Completed"),
        Some(n) => join2("Unknown Status (", signed_decimal_text(n).as_str()).concat(")"),
        None => String::from_str("No Status"),
    }
}

/// The goal counts by status name, from the counts by status, taken in order: a name
/// counted twice keeps its later count.
pub open spec fn distribution(counts: Seq<(Option<i64>, i64)>) -> Map<Seq<char>, i64>
    decreases counts.len(),
{
    if counts.len() == 0 {
        Map::empty()
    } else {
        distribution(counts.drop_last()).insert(status_label(counts.last().0), counts.last().1)
    }
}

/// The map a list of (name, count) entries stands for, entries taken in order.
pub open spec fn entries_map(v: Seq<(String, i64)>) -> Map<Seq<char>, i64>
    decreases v.len(),
{
    if v.len() == 0 {
        Map::empty()
    } else {
        entries_map(v.drop_last()).insert(v.last().0@, v.last().1)
    }
}

/// No name appears twice in a list of entries.
pub open spec fn distinct_names(v: Seq<(String, i64)>) -> bool {
    forall|i: int, j: int| 0 <= i < j < v.len() ==> v[i].0@ != v[j].0@
}

proof fn entries_map_update(v: Seq<(String, i64)>, f: int, e: (String, i64))
    requires
        distinct_names(v),
        0 <= f < v.len(),
        v[f].0@ == e.0@,
    ensures
        entries_map(v.update(f, e)) == entries_map(v).insert(e.0@, e.1),
    decreases v.len(),
{
    let w = v.update(f, e);
    assert(w.drop_last() =~= if f == v.len() - 1 { v.drop_last() } else { v.drop_last().update(f, e) });
    if f == v.len() - 1 {
        assert(entries_map(w) =~= entries_map(v).insert(e.0@, e.1));
    } else {
        assert(distinct_names(v.drop_last()));
        entries_map_update(v.drop_last(), f, e);
        assert(v.last().0@ != e.0@);
        assert(entries_map(w) =~= entries_map(v).insert(e.0@, e.1));
    }
}

/// Named counts with each name once, in the place where it first appears: a name given
/// twice keeps its later count.
pub fn merge_counts(entries: &Vec<(String, i64)>) -> (r: Vec<(String, i64)>)
    ensures
        distinct_names(r@),
        entries_map(r@) == entries_map(entries@),
{
    let mut r: Vec<(String, i64)> = Vec::new();
    let mut k: usize = 0;
    while k < entries.len()
        invariant
            k <= entries@.len(),
            distinct_names(r@),
            entries_map(r@) == entries_map(entries@.take(k as int)),
        decreases entries@.len() - k,
    {
        let name = entries[k].0.clone();
        let count = entries[k].1;
        let mut found: Option<usize> = None;
        let mut i: usize = 0;
        while i < r.len()
            invariant
                i <= r@.len(),
                found is None ==> forall|j: int| 0 <= j < i ==> r@[j].0@ != name@,
                found matches Some(f) ==> f < r@.len() && r@[f as int].0@ == name@,
            decreases r@.len() - i,
        {
            if found.is_none() && same_text(r[i].0.as_str(), name.as_str()) {
                found = Some(i);
            }
            i = i + 1;
        }
        proof {
            assert(entries@.take(k as int + 1).drop_last() =~= entries@.take(k as int));
            assert(entries@.take(k as int + 1).last().0@ == name@);
            assert(entries@.take(k as int + 1).last().1 == count);
        }
        let ghost before = r@;
        let ghost entry_name = name@;
        match found {
            Some(f) => {
                proof {
                    entries_map_update(before, f as int, (name, count));
                }
                r.set(f, (name, count));
                proof {
                    assert(r@ == before.update(f as int, (name, count)));
                    assert forall|i: int, j: int| 0 <= i < j < r@.len() implies r@[i].0@ != r@[j].0@ by {
                        if i == f as int {
                            assert(before[i].0@ == entry_name);
                        }
                        if j == f as int {
                            assert(before[j].0@ == entry_name);
                        }
                    }
                }
            },
            None => {
                r.push((name, count));
                proof {
                    assert(r@.drop_last() =~= before);
                }
            },
        }
        k = k + 1;
    }
    proof {
        assert(entries@.take(entries@.len() as int) =~= entries@);
    }
    r
}

/// The goal counts by status name, from the counts by status: a name counted twice
/// keeps its later count. Each name appears once, in the place where it first appears.
pub fn status_distribution(counts: &Vec<(Option<i64>, i64)>) -> (r: Vec<(String, i64)>)
    ensures
        distinct_names(r@),
        entries_map(r@) == distribution(counts@),
{
    let mut named: Vec<(String, i64)> = Vec::new();
    let mut k: usize = 0;
    while k < counts.len()
        invariant
            k <= counts@.len(),
            entries_map(named@) == distribution(counts@.take(k as int)),
        decreases counts@.len() - k,
    {
        let (status_id, count) = counts[k];
        proof {
            assert(counts@.take(k as int + 1).drop_last() =~= counts@.take(k as int));
            assert(counts@.take(k as int + 1).last() == (status_id, count));
        }
        let ghost before = named@;
        named.push((status_name(status_id), count));
        proof {
            assert(named@.drop_last() =~= before);
        }
        k = k + 1;
    }
    proof {
        assert(counts@.take(counts@.len() as int) =~= counts@);
    }
    merge_counts(&named)
}

/// Which page of a list to show: pages count from 1.
#[derive(Clone, Copy, Debug, PartialEq, Eq, Structural)]
pub struct PaginationParams {
    pub page: u32,
    pub per_page: u32,
}

/// The identifiers on a page: those from position `(page - 1) * per_page` on, at most
/// `per_page` of them.
pub fn page_of_ids(ids: &Vec<u128>, params: PaginationParams) -> (r: Vec<u128>)
    requires
        params.page >= 1,
        (params.page - 1) * params.per_page <= u32::MAX,
    ensures
        ({
            let start = (params.page - 1) * params.per_page;
            let end = if start + params.per_page < ids@.len() { start + params.per_page } else { ids@.len() as int };
            r@ == if start < ids@.len() { ids@.subrange(start, end) } else { Seq::<u128>::empty() }
        }),
{
    let offset: u64 = ((params.page - 1) as u64) * (params.per_page as u64);
    let limit: u64 = params.per_page as u64;
    let mut r: Vec<u128> = Vec::new();
    if offset >= ids.len() as u64 {
        return r;
    }
    let start = offset as usize;
    let end: usize = if offset + limit < ids.len() as u64 { (offset + limit) as usize } else { ids.len() };
    let mut i = start;
    while i < end
        invariant
            start <= i <= end <= ids@.len(),
            r@ == ids@.subrange(start as int, i as int),
        decreases end - i,
    {
        r.push(ids[i]);
        proof {
            assert(ids@.subrange(start as int, i as int + 1) =~= ids@.subrange(start as int, i as int).push(ids@[i as int]));
        }
        i = i + 1;
    }
    r
}

/// A strategic goal. Each editable field carries when, by whom and from which device it
/// was last changed. The target and actual values are the bit patterns of their
/// floating-point numbers.
#[derive(Clone, Debug)]
pub struct StrategicGoal {
    pub id: u128,
    pub objective_code: String,
    pub objective_code_updated_at: Option<Timestamp>,
    pub objective_code_updated_by: Option<u128>,
    pub objective_code_updated_by_device_id: Option<u128>,
    pub outcome: Option<String>,
    pub outcome_updated_at: Option<Timestamp>,
    pub outcome_updated_by: Option<u128>,
    pub outcome_updated_by_device_id: Option<u128>,
    pub kpi: Option<String>,
    pub kpi_updated_at: Option<Timestamp>,
    pub kpi_updated_by: Option<u128>,
    pub kpi_updated_by_device_id: Option<u128>,
    pub target_value: Option<u64>,
    pub target_value_updated_at: Option<Timestamp>,
    pub target_value_updated_by: Option<u128>,
    pub target_value_updated_by_device_id: Option<u128>,
    pub actual_value: Option<u64>,
    pub actual_value_updated_at: Option<Timestamp>,
    pub actual_value_updated_by: Option<u128>,
    pub actual_value_updated_by_device_id: Option<u128>,
    pub status_id: Option<i64>,
    pub status_id_updated_at: Option<Timestamp>,
    pub status_id_updated_by: Option<u128>,
    pub status_id_updated_by_device_id: Option<u128>,
    pub responsible_team: Option<String>,
    pub responsible_team_updated_at: Option<Timestamp>,
    pub responsible_team_updated_by: Option<u128>,
    pub responsible_team_updated_by_device_id: Option<u128>,
    pub created_at: Timestamp,
    pub updated_at: Timestamp,
    pub created_by_user_id: Option<u128>,
    pub created_by_device_id: Option<u128>,
    pub updated_by_user_id: Option<u128>,
    pub updated_by_device_id: Option<u128>,
    pub deleted_at: Option<Timestamp>,
    pub deleted_by_user_id: Option<u128>,
    pub deleted_by_device_id: Option<u128>,
    pub sync_priority: SyncPriority,
}

impl StrategicGoal {
    /// True when the goal has been soft-deleted.
    pub fn is_deleted(&self) -> (r: bool)
        ensures
            r == (self.deleted_at is Some),
    {
        self.deleted_at.is_some()
    }
}

/// A stored strategic goal, as the database gives it.
#[derive(Clone, Debug)]
pub struct StrategicGoalRow {
    pub id: String,
    pub objective_code: String,
    pub objective_code_updated_at: Option<String>,
    pub objective_code_updated_by: Option<String>,
    pub objective_code_updated_by_device_id: Option<String>,
    pub outcome: Option<String>,
    pub outcome_updated_at: Option<String>,
    pub outcome_updated_by: Option<String>,
    pub outcome_updated_by_device_id: Option<String>,
    pub kpi: Option<String>,
    pub kpi_updated_at: Option<String>,
    pub kpi_updated_by: Option<String>,
    pub kpi_updated_by_device_id: Option<String>,
    pub target_value: Option<u64>,
    pub target_value_updated_at: Option<String>,
    pub target_value_updated_by: Option<String>,
    pub target_value_updated_by_device_id: Option<String>,
    pub actual_value: Option<u64>,
    pub actual_value_updated_at: Option<String>,
    pub actual_value_updated_by: Option<String>,
    pub actual_value_updated_by_device_id: Option<String>,
    pub status_id: Option<i64>,
    pub status_id_updated_at: Option<String>,
    pub status_id_updated_by: Option<String>,
    pub status_id_updated_by_device_id: Option<String>,
    pub responsible_team: Option<String>,
    pub responsible_team_updated_at: Option<String>,
    pub responsible_team_updated_by: Option<String>,
    pub responsible_team_updated_by_device_id: Option<String>,
    pub created_at: String,
    pub updated_at: String,
    pub created_by_user_id: Option<String>,
    pub created_by_device_id: Option<String>,
    pub updated_by_user_id: Option<String>,
    pub updated_by_device_id: Option<String>,
    pub deleted_at: Option<String>,
    pub deleted_by_user_id: Option<String>,
    pub deleted_by_device_id: Option<String>,
    pub sync_priority: String,
}

/// The first field of a stored goal that cannot be read, if any.
pub open spec fn goal_row_fault(row: StrategicGoalRow) -> Option<FieldFault> {
    or_next(uuid_fault(row.id@, "id"@),
    or_next(opt_stamp_fault(row.objective_code_updated_at, "objective_code_updated_at"@),
    or_next(opt_uuid_fault(row.objective_code_updated_by, "objective_code_updated_by"@),
    or_next(opt_uuid_fault(row.objective_code_updated_by_device_id, "objective_code_updated_by_device_id"@),
    or_next(opt_stamp_fault(row.outcome_updated_at, "outcome_updated_at"@),
    or_next(opt_uuid_fault(row.outcome_updated_by, "outcome_updated_by"@),
    or_next(opt_uuid_fault(row.outcome_updated_by_device_id, "outcome_updated_by_device_id"@),
    or_next(opt_stamp_fault(row.kpi_updated_at, "kpi_updated_at"@),
    or_next(opt_uuid_fault(row.kpi_updated_by, "kpi_updated_by"@),
    or_next(opt_uuid_fault(row.kpi_updated_by_device_id, "kpi_updated_by_device_id"@),
    or_next(opt_stamp_fault(row.target_value_updated_at, "target_value_updated_at"@),
    or_next(opt_uuid_fault(row.target_value_updated_by, "target_value_updated_by"@),
    or_next(opt_uuid_fault(row.target_value_updated_by_device_id, "target_value_updated_by_device_id"@),
    or_next(opt_stamp_fault(row.actual_value_updated_at, "actual_value_updated_at"@),
    or_next(opt_uuid_fault(row.actual_value_updated_by, "actual_value_updated_by"@),
    or_next(opt_uuid_fault(row.actual_value_updated_by_device_id, "actual_value_updated_by_device_id"@),
    or_next(opt_stamp_fault(row.status_id_updated_at, "status_id_updated_at"@),
    or_next(opt_uuid_fault(row.status_id_updated_by, "status_id_updated_by"@),
    or_next(opt_uuid_fault(row.status_id_updated_by_device_id, "status_id_updated_by_device_id"@),
    or_next(opt_stamp_fault(row.responsible_team_updated_at, "responsible_team_updated_at"@),
    or_next(opt_uuid_fault(row.responsible_team_updated_by, "responsible_team_updated_by"@),
    or_next(opt_uuid_fault(row.responsible_team_updated_by_device_id, "responsible_team_updated_by_device_id"@),
    or_next(stamp_fault(row.created_at@, "created_at"@),
    or_next(stamp_fault(row.updated_at@, "updated_at"@),
    or_next(opt_uuid_fault(row.created_by_user_id, "created_by_user_id"@),
    or_next(opt_uuid_fault(row.created_by_device_id, "created_by_device_id"@),
    or_next(opt_uuid_fault(row.updated_by_user_id, "updated_by_user_id"@),
    or_next(opt_uuid_fault(row.updated_by_device_id, "updated_by_device_id"@),
    or_next(opt_stamp_fault(row.deleted_at, "deleted_at"@),
    or_next(opt_uuid_fault(row.deleted_by_user_id, "deleted_by_user_id"@),
    opt_uuid_fault(row.deleted_by_device_id, "deleted_by_device_id"@)))))))))))))))))))))))))))))))
}

/// The sync priority a stored name reads as, without regard to case; normal when the
/// name is unknown.
pub open spec fn stored_priority(s: Seq<char>) -> SyncPriority {
    match SyncPriority::named(lower_text(s)) {
        Some(p) => p,
        None => SyncPriority::Normal,
    }
}

impl StrategicGoalRow {
    /// Reads a stored goal; the first field that cannot be read gives a format error of
    /// that field. An unknown sync priority reads as normal.
    pub fn into_entity(self) -> (r: Result<StrategicGoal, DomainError>)
        ensures
            match goal_row_fault(self) {
                None => r matches Ok(g)
                    && g.id == uuid_parsed(self.id@).unwrap()
                    && g.objective_code_updated_at == opt_stamp(self.objective_code_updated_at)
                    && g.objective_code_updated_by == opt_uuid(self.objective_code_updated_by)
                    && g.objective_code_updated_by_device_id == opt_uuid(self.objective_code_updated_by_device_id)
                    && g.outcome_updated_at == opt_stamp(self.outcome_updated_at)
                    && g.outcome_updated_by == opt_uuid(self.outcome_updated_by)
                    && g.outcome_updated_by_device_id == opt_uuid(self.outcome_updated_by_device_id)
                    && g.kpi_updated_at == opt_stamp(self.kpi_updated_at)
                    && g.kpi_updated_by == opt_uuid(self.kpi_updated_by)
                    && g.kpi_updated_by_device_id == opt_uuid(self.kpi_updated_by_device_id)
                    && g.target_value_updated_at == opt_stamp(self.target_value_updated_at)
                    && g.target_value_updated_by == opt_uuid(self.target_value_updated_by)
                    && g.target_value_updated_by_device_id == opt_uuid(self.target_value_updated_by_device_id)
                    && g.actual_value_updated_at == opt_stamp(self.actual_value_updated_at)
                    && g.actual_value_updated_by == opt_uuid(self.actual_value_updated_by)
                    && g.actual_value_updated_by_device_id == opt_uuid(self.actual_value_updated_by_device_id)
                    && g.status_id_updated_at == opt_stamp(self.status_id_updated_at)
                    && g.status_id_updated_by == opt_uuid(self.status_id_updated_by)
                    && g.status_id_updated_by_device_id == opt_uuid(self.status_id_updated_by_device_id)
                    && g.responsible_team_updated_at == opt_stamp(self.responsible_team_updated_at)
                    && g.responsible_team_updated_by == opt_uuid(self.responsible_team_updated_by)
                    && g.responsible_team_updated_by_device_id == opt_uuid(self.responsible_team_updated_by_device_id)
                    && g.created_at == rfc3339_stamp(self.created_at@).unwrap()
                    && g.updated_at == rfc3339_stamp(self.updated_at@).unwrap()
                    && g.created_by_user_id == opt_uuid(self.created_by_user_id)
                    && g.created_by_device_id == opt_uuid(self.created_by_device_id)
                    && g.updated_by_user_id == opt_uuid(self.updated_by_user_id)
                    && g.updated_by_device_id == opt_uuid(self.updated_by_device_id)
                    && g.deleted_at == opt_stamp(self.deleted_at)
                    && g.deleted_by_user_id == opt_uuid(self.deleted_by_user_id)
                    && g.deleted_by_device_id == opt_uuid(self.deleted_by_device_id)
                    && g.objective_code == self.objective_code
                    && g.outcome == self.outcome
                    && g.kpi == self.kpi
                    && g.target_value == self.target_value
                    && g.actual_value == self.actual_value
                    && g.status_id == self.status_id
                    && g.responsible_team == self.responsible_team
                    && g.sync_priority == stored_priority(self.sync_priority@),
                Some(f) => r matches Err(e) && reports(e, f),
            },
    {
        let row = self;
        let id = match read_uuid(row.id.as_str(), "id") {
            Ok(v) => v,
            Err(e) => return Err(e),
        };
        let objective_code_updated_at = match read_opt_stamp(&row.objective_code_updated_at, "objective_code_updated_at") {
            Ok(v) => v,
            Err(e) => return Err(e),
        };
        let objective_code_updated_by = match read_opt_uuid(&row.objective_code_updated_by, "objective_code_updated_by") {
            Ok(v) => v,
            Err(e) => return Err(e),
        };
        let objective_code_updated_by_device_id = match read_opt_uuid(&row.objective_code_updated_by_device_id, "objective_code_updated_by_device_id") {
            Ok(v) => v,
            Err(e) => return Err(e),
        };
        let outcome_updated_at = match read_opt_stamp(&row.outcome_updated_at, "outcome_updated_at") {
            Ok(v) => v,
            Err(e) => return Err(e),
        };
        let outcome_updated_by = match read_opt_uuid(&row.outcome_updated_by, "outcome_updated_by") {
            Ok(v) => v,
            Err(e) => return Err(e),
        };
        let outcome_updated_by_device_id = match read_opt_uuid(&row.outcome_updated_by_device_id, "outcome_updated_by_device_id") {
            Ok(v) => v,
            Err(e) => return Err(e),
        };
        let kpi_updated_at = match read_opt_stamp(&row.kpi_updated_at, "kpi_updated_at") {
            Ok(v) => v,
            Err(e) => return Err(e),
        };
        let kpi_updated_by = match read_opt_uuid(&row.kpi_updated_by, "kpi_updated_by") {
            Ok(v) => v,
            Err(e) => return Err(e),
        };
        let kpi_updated_by_device_id = match read_opt_uuid(&row.kpi_updated_by_device_id, "kpi_updated_by_device_id") {
            Ok(v) => v,
            Err(e) => return Err(e),
        };
        let target_value_updated_at = match read_opt_stamp(&row.target_value_updated_at, "target_value_updated_at") {
            Ok(v) => v,
            Err(e) => return Err(e),
        };
        let target_value_updated_by = match read_opt_uuid(&row.target_value_updated_by, "target_value_updated_by") {
            Ok(v) => v,
            Err(e) => return Err(e),
        };
        let target_value_updated_by_device_id = match read_opt_uuid(&row.target_value_updated_by_device_id, "target_value_updated_by_device_id") {
            Ok(v) => v,
            Err(e) => return Err(e),
        };
        let actual_value_updated_at = match read_opt_stamp(&row.actual_value_updated_at, "actual_value_updated_at") {
            Ok(v) => v,
            Err(e) => return Err(e),
        };
        let actual_value_updated_by = match read_opt_uuid(&row.actual_value_updated_by, "actual_value_updated_by") {
            Ok(v) => v,
            Err(e) => return Err(e),
        };
        let actual_value_updated_by_device_id = match read_opt_uuid(&row.actual_value_updated_by_device_id, "actual_value_updated_by_device_id") {
            Ok(v) => v,
            Err(e) => return Err(e),
        };
        let status_id_updated_at = match read_opt_stamp(&row.status_id_updated_at, "status_id_updated_at") {
            Ok(v) => v,
            Err(e) => return Err(e),
        };
        let status_id_updated_by = match read_opt_uuid(&row.status_id_updated_by, "status_id_updated_by") {
            Ok(v) => v,
            Err(e) => return Err(e),
        };
        let status_id_updated_by_device_id = match read_opt_uuid(&row.status_id_updated_by_device_id, "status_id_updated_by_device_id") {
            Ok(v) => v,
            Err(e) => return Err(e),
        };
        let responsible_team_updated_at = match read_opt_stamp(&row.responsible_team_updated_at, "responsible_team_updated_at") {
            Ok(v) => v,
            Err(e) => return Err(e),
        };
        let responsible_team_updated_by = match read_opt_uuid(&row.responsible_team_updated_by, "responsible_team_updated_by") {
            Ok(v) => v,
            Err(e) => return Err(e),
        };
        let responsible_team_updated_by_device_id = match read_opt_uuid(&row.responsible_team_updated_by_device_id, "responsible_team_updated_by_device_id") {
            Ok(v) => v,
            Err(e) => return Err(e),
        };
        let created_at = match read_stamp(row.created_at.as_str(), "created_at") {
            Ok(v) => v,
            Err(e) => return Err(e),
        };
        let updated_at = match read_stamp(row.updated_at.as_str(), "updated_at") {
            Ok(v) => v,
            Err(e) => return Err(e),
        };
        let created_by_user_id = match read_opt_uuid(&row.created_by_user_id, "created_by_user_id") {
            Ok(v) => v,
            Err(e) => return Err(e),
        };
        let created_by_device_id = match read_opt_uuid(&row.created_by_device_id, "created_by_device_id") {
            Ok(v) => v,
            Err(e) => return Err(e),
        };
        let updated_by_user_id = match read_opt_uuid(&row.updated_by_user_id, "updated_by_user_id") {
            Ok(v) => v,
            Err(e) => return Err(e),
        };
        let updated_by_device_id = match read_opt_uuid(&row.updated_by_device_id, "updated_by_device_id") {
            Ok(v) => v,
            Err(e) => return Err(e),
        };
        let deleted_at = match read_opt_stamp(&row.deleted_at, "deleted_at") {
            Ok(v) => v,
            Err(e) => return Err(e),
        };
        let deleted_by_user_id = match read_opt_uuid(&row.deleted_by_user_id, "deleted_by_user_id") {
            Ok(v) => v,
            Err(e) => return Err(e),
        };
        let deleted_by_device_id = match read_opt_uuid(&row.deleted_by_device_id, "deleted_by_device_id") {
            Ok(v) => v,
            Err(e) => return Err(e),
        };
        let sync_priority = match SyncPriority::from_str(row.sync_priority.as_str()) {
            Ok(p) => p,
            Err(_) => SyncPriority::Normal,
        };
        Ok(StrategicGoal {
            id,
            objective_code: row.objective_code,
            objective_code_updated_at,
            objective_code_updated_by,
            objective_code_updated_by_device_id,
            outcome: row.outcome,
            outcome_updated_at,
            outcome_updated_by,
            outcome_updated_by_device_id,
            kpi: row.kpi,
            kpi_updated_at,
            kpi_updated_by,
            kpi_updated_by_device_id,
            target_value: row.target_value,
            target_value_updated_at,
            target_value_updated_by,
            target_value_updated_by_device_id,
            actual_value: row.actual_value,
            actual_value_updated_at,
            actual_value_updated_by,
            actual_value_updated_by_device_id,
            status_id: row.status_id,
            status_id_updated_at,
            status_id_updated_by,
            status_id_updated_by_device_id,
            responsible_team: row.responsible_team,
            responsible_team_updated_at,
            responsible_team_updated_by,
            responsible_team_updated_by_device_id,
            created_at,
            updated_at,
            created_by_user_id,
            created_by_device_id,
            updated_by_user_id,
            updated_by_device_id,
            deleted_at,
            deleted_by_user_id,
            deleted_by_device_id,
            sync_priority,
        })
    }
}

/// The first rule an objective code breaks: it is required, with 2 to 50 characters.
pub open spec fn objective_code_broken(code: Seq<char>) -> Option<Broken> {
    first_broken(required_rule("objective_code"@, code),
    first_broken(min_length_rule("objective_code"@, code, 2),
        max_length_rule("objective_code"@, code, 50)))
}

/// Checks an objective code: required, with 2 to 50 characters.
pub fn check_objective_code(code: &str) -> (r: Result<(), DomainError>)
    ensures
        match objective_code_broken(code@) {
            None => r is Ok,
            Some(b) => r matches Err(e) && reports_broken(e, b),
        },
{
    match check_required("objective_code", code) { Ok(()) => {}, Err(e) => return Err(e) }
    match check_min_length("objective_code", code, 2) { Ok(()) => {}, Err(e) => return Err(e) }
    check_max_length("objective_code", code, 50)
}

/// Checks a changed objective code, when one is given: 2 to 50 characters.
pub fn check_changed_objective_code(code: &Option<String>) -> (r: Result<(), DomainError>)
    ensures
        match *code {
            Some(c) => match first_broken(min_length_rule("objective_code"@, c@, 2), max_length_rule("objective_code"@, c@, 50)) {
                None => r is Ok,
                Some(b) => r matches Err(e) && reports_broken(e, b),
            },
            None => r is Ok,
        },
{
    match code {
        Some(c) => {
            match check_min_length("objective_code", c.as_str(), 2) { Ok(()) => {}, Err(e) => return Err(e) }
            check_max_length("objective_code", c.as_str(), 50)
        },
        None => Ok(()),
    }
}

/// The conditions of a strategic-goal query. Numbers that are floating-point in the
/// query are given as the bit patterns of those numbers.
#[derive(Clone, Debug)]
pub struct StrategicGoalFilter {
    pub status_ids: Option<Vec<i64>>,
    pub responsible_teams: Option<Vec<String>>,
    pub years: Option<Vec<i32>>,
    pub months: Option<Vec<i32>>,
    pub user_role: Option<(u128, UserGoalRole)>,
    pub sync_priorities: Option<Vec<SyncPriority>>,
    pub search_text: Option<String>,
    pub progress_range: Option<(u64, u64)>,
    pub target_value_range: Option<(u64, u64)>,
    pub actual_value_range: Option<(u64, u64)>,
    pub date_range: Option<(String, String)>,
    pub days_stale: Option<u32>,
    pub exclude_deleted: Option<bool>,
}

/// True when a filter sets no condition (whether deleted goals are excluded is not a
/// condition).
pub open spec fn unconstrained(f: StrategicGoalFilter) -> bool {
    &&& f.status_ids is None
    &&& f.responsible_teams is None
    &&& f.years is None
    &&& f.months is None
    &&& f.user_role is None
    &&& f.sync_priorities is None
    &&& f.search_text is None
    &&& f.progress_range is None
    &&& f.target_value_range is None
    &&& f.actual_value_range is None
    &&& f.date_range is None
    &&& f.days_stale is None
}

impl StrategicGoalFilter {
    /// The filter with no condition, excluding deleted goals.
    pub fn default() -> (r: StrategicGoalFilter)
        ensures
            unconstrained(r),
            r.exclude_deleted == Some(true),
    {
        StrategicGoalFilter {
            status_ids: None,
            responsible_teams: None,
            years: None,
            months: None,
            user_role: None,
            sync_priorities: None,
            search_text: None,
            progress_range: None,
            target_value_range: None,
            actual_value_range: None,
            date_range: None,
            days_stale: None,
            exclude_deleted: Some(true),
        }
    }

    /// A filter that matches every goal that is not deleted.
    pub fn all() -> (r: StrategicGoalFilter)
        ensures
            unconstrained(r),
            r.exclude_deleted == Some(true),
    {
        StrategicGoalFilter::default()
    }

    /// A filter on these statuses only.
    pub fn by_status(status_ids: Vec<i64>) -> (r: StrategicGoalFilter)
        ensures
            r == (StrategicGoalFilter { status_ids: Some(status_ids), ..StrategicGoalFilter::default_spec() }),
    {
        let mut f = StrategicGoalFilter::default();
        f.status_ids = Some(status_ids);
        f
    }

    /// A filter on these years and months only.
    pub fn by_date_parts(years: Option<Vec<i32>>, months: Option<Vec<i32>>) -> (r: StrategicGoalFilter)
        ensures
            r == (StrategicGoalFilter { years: years, months: months, ..StrategicGoalFilter::default_spec() }),
    {
        let mut f = StrategicGoalFilter::default();
        f.years = years;
        f.months = months;
        f
    }

    /// The filter with no condition, excluding deleted goals.
    pub open spec fn default_spec() -> StrategicGoalFilter {
        StrategicGoalFilter {
            status_ids: None,
            responsible_teams: None,
            years: None,
            months: None,
            user_role: None,
            sync_priorities: None,
            search_text: None,
            progress_range: None,
            target_value_range: None,
            actual_value_range: None,
            date_range: None,
            days_stale: None,
            exclude_deleted: Some(true),
        }
    }

    /// True when the filter sets no condition.
    pub fn is_empty(&self) -> (r: bool)
        ensures
            r == unconstrained(*self),
    {
        self.status_ids.is_none() && self.responsible_teams.is_none() && self.years.is_none()
            && self.months.is_none() && self.user_role.is_none() && self.sync_priorities.is_none()
            && self.search_text.is_none() && self.progress_range.is_none() && self.target_value_range.is_none()
            && self.actual_value_range.is_none() && self.date_range.is_none() && self.days_stale.is_none()
    }
}

/// The fields of a strategic goal as documents see them, in order.
pub open spec fn goal_field_table() -> Seq<EntityFieldMetadata> {
    seq![
        EntityFieldMetadata { field_name: "objective_code", display_name: "Objective Code", supports_documents: false, field_type: FieldType::Text, is_document_reference_only: false },
        EntityFieldMetadata { field_name: "outcome", display_name: "Outcome", supports_documents: true, field_type: FieldType::Text, is_document_reference_only: false },
        EntityFieldMetadata { field_name: "kpi", display_name: "KPI", supports_documents: true, field_type: FieldType::Text, is_document_reference_only: false },
        EntityFieldMetadata { field_name: "target_value", display_name: "Target Value", supports_documents: false, field_type: FieldType::Number, is_document_reference_only: false },
        EntityFieldMetadata { field_name: "actual_value", display_name: "Actual Value", supports_documents: true, field_type: FieldType::Number, is_document_reference_only: false },
        EntityFieldMetadata { field_name: "responsible_team", display_name: "Responsible Team", supports_documents: false, field_type: FieldType::Text, is_document_reference_only: false },
        EntityFieldMetadata { field_name: "supporting_documentation", display_name: "Supporting Documentation", supports_documents: true, field_type: FieldType::DocumentRef, is_document_reference_only: true },
        EntityFieldMetadata { field_name: "impact_assessment", display_name: "Impact Assessment", supports_documents: true, field_type: FieldType::DocumentRef, is_document_reference_only: true },
        EntityFieldMetadata { field_name: "theory_of_change", display_name: "Theory of Change", supports_documents: true, field_type: FieldType::DocumentRef, is_document_reference_only: true },
        EntityFieldMetadata { field_name: "baseline_data", display_name: "Baseline Data", supports_documents: true, field_type: FieldType::DocumentRef, is_document_reference_only: true },
    ]
}

impl StrategicGoal {
    /// The fields of a strategic goal as documents see them: which take documents, and which only
    /// refer to attached documents.
    pub fn field_metadata() -> (r: Vec<EntityFieldMetadata>)
        ensures
            r@ == goal_field_table(),
    {
        let mut r: Vec<EntityFieldMetadata> = Vec::new();
        r.push(EntityFieldMetadata { field_name: "objective_code", display_name: "Objective Code", supports_documents: false, field_type: FieldType::Text, is_document_reference_only: false });
        r.push(EntityFieldMetadata { field_name: "outcome", display_name: "Outcome", supports_documents: true, field_type: FieldType::Text, is_document_reference_only: false });
        r.push(EntityFieldMetadata { field_name: "kpi", display_name: "KPI", supports_documents: true, field_type: FieldType::Text, is_document_reference_only: false });
        r.push(EntityFieldMetadata { field_name: "target_value", display_name: "Target Value", supports_documents: false, field_type: FieldType::Number, is_document_reference_only: false });
        r.push(EntityFieldMetadata { field_name: "actual_value", display_name: "Actual Value", supports_documents: true, field_type: FieldType::Number, is_document_reference_only: false });
        r.push(EntityFieldMetadata { field_name: "responsible_team", display_name: "Responsible Team", supports_documents: false, field_type: FieldType::Text, is_document_reference_only: false });
        r.push(EntityFieldMetadata { field_name: "supporting_documentation", display_name: "Supporting Documentation", supports_documents: true, field_type: FieldType::DocumentRef, is_document_reference_only: true });
        r.push(EntityFieldMetadata { field_name: "impact_assessment", display_name: "Impact Assessment", supports_documents: true, field_type: FieldType::DocumentRef, is_document_reference_only: true });
        r.push(EntityFieldMetadata { field_name: "theory_of_change", display_name: "Theory of Change", supports_documents: true, field_type: FieldType::DocumentRef, is_document_reference_only: true });
        r.push(EntityFieldMetadata { field_name: "baseline_data", display_name: "Baseline Data", supports_documents: true, field_type: FieldType::DocumentRef, is_document_reference_only: true });
        assert(r@ =~= goal_field_table());
        r
    }
}

/// The instant `days` days before `now`, from which on a goal that was not updated
/// counts as stale; `now` itself where that instant cannot be represented.
pub fn stale_cutoff(now: Timestamp, days: u32) -> (r: Timestamp)
    ensures
        ({
            let secs = now.secs() - days * 86400;
            if i64::MIN <= secs && rfc3339_text(secs as i64, now.nanos()) is Some {
                r.secs() == secs && r.nanos() == now.nanos()
            } else {
                r == now
            }
        }),
{
    let back: i64 = (days as i64) * 86400;
    match now.seconds().checked_sub(back) {
        Some(secs) => match Timestamp::from_parts(secs, now.subsec_nanos()) {
            Some(t) => t,
            None => now,
        },
        None => now,
    }
}

} // verus!
