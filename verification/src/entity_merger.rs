//! How remote changes are applied to local entities: which changes are skipped, which
//! table's merger takes a change, how a batch of changes stops at its first failure,
//! and what each table's merger does with the outcome of a merge or a deletion.

use vstd::prelude::*;
use crate::errors::{domain_text, DomainError, ValidationError};
use crate::ident::{parse_uuid_text, uuid_parsed, uuid_text, uuid_to_text};
use crate::json::{json_int_value, json_string_value, read_json_int, read_json_string};
use crate::sync_records::{ChangeLogEntry, MergeOutcome};
use crate::sync_types::ChangeOperationType;
use crate::text::{join2, join3, same_text};

verus! {

/// Helpers shared by the per-table mergers.
pub struct BaseDomainMerger;

/// The error for a JSON value that a field cannot be read from.
pub open spec fn is_json_error(e: DomainError, field: Seq<char>, detail: Seq<char>) -> bool {
    e matches DomainError::Validation(ValidationError::Format { field: f, reason: m })
        && f@ == field
        && m@ == "Invalid JSON for field '"@ + field + "': "@ + detail
}

/// True when a change was made on the acting device: it names a device, and the
/// acting device's identifier is a UUID equal to it.
pub open spec fn made_locally(change: ChangeLogEntry, acting_device_id: Seq<char>) -> bool {
    match change.device_id {
        Some(d) => uuid_parsed(acting_device_id) == Some(d),
        None => false,
    }
}

impl BaseDomainMerger {
    /// The error for a JSON value that a field cannot be read from, given the parser's
    /// description of the problem.
    pub fn json_error(field_name: &str, detail: &str) -> (r: DomainError)
        ensures
            is_json_error(r, field_name@, detail@),
    {
        let reason = join3("Invalid JSON for field '", field_name, "': ").concat(detail);
        DomainError::Validation(ValidationError::Format { field: String::from_str(field_name), reason })
    }

    /// Reads an optional JSON string value of a field: no value reads as `None`.
    pub fn parse_json_string(value: &Option<String>, field_name: &str) -> (r: Result<Option<String>, DomainError>)
        ensures
            match *value {
                None => r == Ok::<Option<String>, DomainError>(None),
                Some(t) => match json_string_value(t@) {
                    Ok(s) => r matches Ok(Some(v)) && v@ == s,
                    Err(m) => r matches Err(e) && is_json_error(e, field_name@, m),
                },
            },
    {
        match value {
            None => Ok(None),
            Some(t) => match read_json_string(t.as_str()) {
                Ok(s) => Ok(Some(s)),
                Err(m) => Err(BaseDomainMerger::json_error(field_name, m.as_str())),
            },
        }
    }

    /// Reads an optional JSON integer value of a field: no value reads as `None`.
    pub fn parse_json_int(value: &Option<String>, field_name: &str) -> (r: Result<Option<i64>, DomainError>)
        ensures
            match *value {
                None => r == Ok::<Option<i64>, DomainError>(None),
                Some(t) => match json_int_value(t@) {
                    Ok(n) => r == Ok::<Option<i64>, DomainError>(Some(n)),
                    Err(m) => r matches Err(e) && is_json_error(e, field_name@, m),
                },
            },
    {
        match value {
            None => Ok(None),
            Some(t) => match read_json_int(t.as_str()) {
                Ok(n) => Ok(Some(n)),
                Err(m) => Err(BaseDomainMerger::json_error(field_name, m.as_str())),
            },
        }
    }

    /// The identifier of the entity a change is about.
    pub fn get_entity_id(change: &ChangeLogEntry) -> (r: Result<u128, DomainError>)
        ensures
            r == Ok::<u128, DomainError>(change.entity_id),
    {
        Ok(change.entity_id)
    }

    /// True when the change was made on the acting device, and so is already applied
    /// here. A change that names no device, or an acting device identifier that is no
    /// UUID, counts as remote.
    pub fn is_local_change(change: &ChangeLogEntry, acting_device_id: &str) -> (r: bool)
        ensures
            r == made_locally(*change, acting_device_id@),
    {
        match change.device_id {
            Some(d) => match parse_uuid_text(acting_device_id) {
                Some(a) => a == d,
                None => false,
            },
            None => false,
        }
    }
}

/// The step a change is routed to.
#[derive(Clone, Copy, Debug, PartialEq, Eq, Structural)]
pub enum ChangeRoute {
    Create,
    Update,
    SoftDelete,
}

/// Routes a change by its kind. A hard deletion is refused: it must come as a
/// tombstone. `within_tx` says whether the change is applied inside a batch
/// transaction, which the refusal names.
pub fn route_change(op: ChangeOperationType, within_tx: bool) -> (r: Result<ChangeRoute, DomainError>)
    ensures
        op == ChangeOperationType::Create ==> r == Ok::<ChangeRoute, DomainError>(ChangeRoute::Create),
        op == ChangeOperationType::Update ==> r == Ok::<ChangeRoute, DomainError>(ChangeRoute::Update),
        op == ChangeOperationType::Delete ==> r == Ok::<ChangeRoute, DomainError>(ChangeRoute::SoftDelete),
        op == ChangeOperationType::HardDelete ==> (r matches Err(DomainError::Internal(m)) && m@ == (if within_tx {
            "Hard delete via ChangeLogEntry in apply_change_with_tx is not standard; use apply_tombstone."@
        } else {
            "Hard delete via ChangeLogEntry in apply_change is not standard; use apply_tombstone."@
        })),
{
    match op {
        ChangeOperationType::Create => Ok(ChangeRoute::Create),
        ChangeOperationType::Update => Ok(ChangeRoute::Update),
        ChangeOperationType::Delete => Ok(ChangeRoute::SoftDelete),
        ChangeOperationType::HardDelete => if within_tx {
            Err(DomainError::Internal(String::from_str(
                "Hard delete via ChangeLogEntry in apply_change_with_tx is not standard; use apply_tombstone.")))
        } else {
            Err(DomainError::Internal(String::from_str(
                "Hard delete via ChangeLogEntry in apply_change is not standard; use apply_tombstone.")))
        },
    }
}

/// The tables that have a merger, each at most once, in the order they were first
/// registered; a merger is found by its position.
pub struct MergerRegistry {
    tables: Vec<String>,
}

impl MergerRegistry {
    /// The registered tables, in order.
    pub closed spec fn tables(&self) -> Seq<Seq<char>> {
        self.tables@.map_values(|t: String| t@)
    }

    /// No table is registered twice.
    pub closed spec fn wf(&self) -> bool {
        forall|i: int, j: int| 0 <= i < j < self.tables@.len() ==> self.tables@[i]@ != self.tables@[j]@
    }

    /// A registry with no merger.
    pub fn new() -> (r: MergerRegistry)
        ensures
            r.wf(),
            r.tables() == Seq::<Seq<char>>::empty(),
    {
        let r = MergerRegistry { tables: Vec::new() };
        assert(r.tables() =~= Seq::<Seq<char>>::empty());
        r
    }

    /// The position of a table's merger, if it has one.
    pub fn position(&self, table: &str) -> (r: Option<usize>)
        requires
            self.wf(),
        ensures
            match r {
                Some(i) => i < self.tables().len() && self.tables()[i as int] == table@,
                None => !self.tables().contains(table@),
            },
    {
        let mut i: usize = 0;
        while i < self.tables.len()
            invariant
                i <= self.tables@.len(),
                forall|k: int| 0 <= k < i ==> self.tables@[k]@ != table@,
            decreases self.tables@.len() - i,
        {
            if same_text(self.tables[i].as_str(), table) {
                return Some(i);
            }
            i = i + 1;
        }
        proof {
            if self.tables().contains(table@) {
                let k = choose|k: int| 0 <= k < self.tables().len() && self.tables()[k] == table@;
                assert(self.tables@[k]@ == table@);
            }
        }
        None
    }

    /// Registers the merger of a table and gives its position; a table registered
    /// before keeps its position, and its merger is replaced there.
    pub fn register(&mut self, table: &str) -> (r: usize)
        requires
            old(self).wf(),
        ensures
            final(self).wf(),
            r < final(self).tables().len(),
            final(self).tables()[r as int] == table@,
            old(self).tables().contains(table@) ==> final(self).tables() == old(self).tables(),
            !old(self).tables().contains(table@) ==> final(self).tables() == old(self).tables().push(table@),
    {
        match self.position(table) {
            Some(i) => i,
            None => {
                let ghost before = self.tables();
                self.tables.push(String::from_str(table));
                proof {
                    assert(self.tables() =~= before.push(table@));
                    assert forall|i: int, j: int| 0 <= i < j < self.tables@.len()
                        implies self.tables@[i]@ != self.tables@[j]@ by {
                        if j == self.tables@.len() - 1 {
                            assert(before[i] == self.tables@[i]@);
                            assert(before.contains(before[i]));
                        }
                    }
                }
                self.tables.len() - 1
            },
        }
    }

    /// The position of the merger that takes changes to a table; a table without one is
    /// an internal error (`within_tx` adds that the lookup happened in a transaction).
    pub fn lookup(&self, table: &str, within_tx: bool) -> (r: Result<usize, DomainError>)
        requires
            self.wf(),
        ensures
            match r {
                Ok(i) => i < self.tables().len() && self.tables()[i as int] == table@,
                Err(e) => !self.tables().contains(table@) && (e matches DomainError::Internal(m)
                    && m@ == "No merger registered for entity type: "@ + table@
                        + (if within_tx { " (within tx)"@ } else { Seq::<char>::empty() })),
            },
    {
        match self.position(table) {
            Some(i) => Ok(i),
            None => {
                let m = join2("No merger registered for entity type: ", table);
                if within_tx {
                    Err(DomainError::Internal(m.concat(" (within tx)")))
                } else {
                    proof {
                        assert(m@ =~= m@ + Seq::<char>::empty());
                    }
                    Err(DomainError::Internal(m))
                }
            },
        }
    }
}

/// A registered table's merger is found again by a lookup, whatever was registered
/// after it.
pub proof fn registered_merger_is_found(reg: MergerRegistry, later: MergerRegistry, table: Seq<char>)
    requires
        reg.tables().contains(table),
        later.tables().len() >= reg.tables().len(),
        later.tables().subrange(0, reg.tables().len() as int) == reg.tables(),
    ensures
        later.tables().contains(table),
{
    let k = choose|k: int| 0 <= k < reg.tables().len() && reg.tables()[k] == table;
    assert(later.tables().subrange(0, reg.tables().len() as int)[k] == later.tables()[k]);
}

/// Applying a batch of changes in one transaction: changes are applied in order until
/// the first failure; after it, the rest are skipped and the batch fails with that
/// first error.
pub struct BatchApplication {
    applied: Vec<u128>,
    failure: Option<DomainError>,
}

impl BatchApplication {
    /// The operation identifiers of the changes applied so far, in order.
    pub closed spec fn applied(&self) -> Seq<u128> {
        self.applied@
    }

    /// The first failure, if one happened.
    pub closed spec fn failure(&self) -> Option<DomainError> {
        self.failure
    }

    pub fn new() -> (r: BatchApplication)
        ensures
            r.applied() == Seq::<u128>::empty(),
            r.failure() is None,
    {
        BatchApplication { applied: Vec::new(), failure: None }
    }

    /// True while no change has failed: the next change is to be applied.
    pub fn should_apply(&self) -> (r: bool)
        ensures
            r == (self.failure() is None),
    {
        self.failure.is_none()
    }

    /// Records the result of applying the change with this operation identifier. Once a
    /// change has failed, nothing more is recorded.
    pub fn record(&mut self, operation_id: u128, result: Result<(), DomainError>)
        ensures
            old(self).failure() is Some ==> final(self).applied() == old(self).applied()
                && final(self).failure() == old(self).failure(),
            old(self).failure() is None ==> match result {
                Ok(_) => final(self).applied() == old(self).applied().push(operation_id)
                    && final(self).failure() is None,
                Err(e) => final(self).applied() == old(self).applied()
                    && final(self).failure() == Some(e),
            },
    {
        if self.failure.is_some() {
            return;
        }
        match result {
            Ok(()) => self.applied.push(operation_id),
            Err(e) => self.failure = Some(e),
        }
    }

    /// The outcome of the batch: the first failure, or the identifiers of all applied
    /// changes.
    pub fn finish(self) -> (r: Result<Vec<u128>, DomainError>)
        ensures
            match self.failure() {
                Some(e) => r == Err::<Vec<u128>, DomainError>(e),
                None => r matches Ok(v) && v@ == self.applied(),
            },
    {
        match self.failure {
            Some(e) => Err(e),
            None => Ok(self.applied),
        }
    }
}

/// The error reported when a failed batch could not be rolled back either: the batch's
/// first failure `e` and the description of the rollback's failure.
pub fn rollback_failure(e: &DomainError, rollback: &str) -> (r: DomainError)
    ensures
        r matches DomainError::Internal(m) && m@ == "Original batch error: "@ + domain_text(*e)
            + ". Also failed to rollback: "@ + rollback@ + ". Original error details: "@ + domain_text(*e),
{
    let shown = e.message();
    DomainError::Internal(join3("Original batch error: ", shown.as_str(), ". Also failed to rollback: ")
        .concat(rollback).concat(". Original error details: ").concat(shown.as_str()))
}

/// The identifiers a batch application has recorded as applied, and whether it has
/// failed, after the results of the given changes were recorded in order on a fresh
/// application (each step as `BatchApplication::record` states it).
pub open spec fn replay(ids: Seq<u128>, results: Seq<bool>) -> (Seq<u128>, bool)
    decreases ids.len(),
{
    if ids.len() == 0 || results.len() == 0 {
        (Seq::empty(), false)
    } else {
        let (applied, failed) = replay(ids.drop_last(), results.subrange(0, ids.len() - 1));
        if failed {
            (applied, true)
        } else if results[ids.len() - 1] {
            (applied.push(ids.last()), false)
        } else {
            (applied, true)
        }
    }
}

/// The changes a batch applies are exactly its longest run of successes from the start:
/// the applied identifiers are a prefix of the batch, every change before the first
/// failure is applied, and none after it.
pub proof fn batch_applies_prefix_before_first_failure(ids: Seq<u128>, results: Seq<bool>)
    requires
        ids.len() == results.len(),
    ensures
        ({
            let (applied, failed) = replay(ids, results);
            &&& applied.len() <= ids.len()
            &&& applied == ids.subrange(0, applied.len() as int)
            &&& forall|k: int| 0 <= k < applied.len() ==> results[k]
            &&& failed <==> applied.len() < ids.len()
            &&& failed ==> !results[applied.len() as int]
        }),
    decreases ids.len(),
{
    if ids.len() > 0 {
        let n = ids.len() - 1;
        let prefix_ids = ids.drop_last();
        let prefix_results = results.subrange(0, n as int);
        batch_applies_prefix_before_first_failure(prefix_ids, prefix_results);
        let (applied, failed) = replay(prefix_ids, prefix_results);
        assert(forall|k: int| 0 <= k < n ==> prefix_results[k] == results[k]);
        assert(forall|k: int| 0 <= k < n ==> prefix_ids[k] == ids[k]);
        if !failed && results[n as int] {
            assert(applied.push(ids.last()) =~= ids.subrange(0, applied.len() as int + 1));
        } else if !failed {
            assert(applied =~= ids.subrange(0, applied.len() as int));
        } else {
            assert(applied =~= ids.subrange(0, applied.len() as int));
        }
    }
}

/// The tables whose remote changes have a merger of their own.
#[derive(Clone, Copy, Debug, PartialEq, Eq, Structural)]
pub enum MergerKind {
    Project,
    User,
    Donor,
    Document,
    DocumentType,
    Funding,
    Livelihood,
    SubsequentGrant,
    StrategicGoal,
}

/// What a merger does with a remote creation or update.
#[derive(Clone, Copy, Debug, PartialEq, Eq, Structural)]
pub enum ChangeStep {
    /// Nothing: the change is local or the table ignores such changes.
    Skip,
    /// Hand the change to the table's repository to merge.
    Merge,
}

/// What a merger does with a remote soft deletion.
#[derive(Clone, Copy, Debug, PartialEq, Eq, Structural)]
pub enum SoftDeleteStep {
    /// Nothing: soft deletions stay local to the device that made them.
    Ignore,
    /// Soft-delete the local entity too.
    Apply,
}

/// What a deletion service reported for a hard deletion.
#[derive(Clone, Debug)]
pub enum DeletionReport {
    /// The entity was hard-deleted.
    HardDeleted,
    /// Something else was done; the text describes it.
    Other(String),
}

impl MergerKind {
    /// The table a merger takes changes to.
    pub open spec fn table(self) -> Seq<char> {
        match self {
            MergerKind::Project => "projects"@,
            MergerKind::User => "users"@,
            MergerKind::Donor => "donors"@,
            MergerKind::Document => "media_documents"@,
            MergerKind::DocumentType => "document_types"@,
            MergerKind::Funding => "project_funding"@,
            MergerKind::Livelihood => "livelihoods"@,
            MergerKind::SubsequentGrant => "subsequent_grants"@,
            MergerKind::StrategicGoal => "strategic_goals"@,
        }
    }

    pub fn entity_table(&self) -> (r: &'static str)
        ensures
            r@ == self.table(),
    {
        match self {
            MergerKind::Project => "projects",
            MergerKind::User => "users",
            MergerKind::Donor => "donors",
            MergerKind::Document => "media_documents",
            MergerKind::DocumentType => "document_types",
            MergerKind::Funding => "project_funding",
            MergerKind::Livelihood => "livelihoods",
            MergerKind::SubsequentGrant => "subsequent_grants",
            MergerKind::StrategicGoal => "strategic_goals",
        }
    }

    /// True for the mergers that refuse a merge of a creation or an update that ends
    /// in a hard deletion.
    pub open spec fn guards_hard_delete_outcome(self) -> bool {
        self == MergerKind::Donor || self == MergerKind::Document || self == MergerKind::Funding
    }

    /// The word a merger's messages use for its entities.
    pub open spec fn noun(self) -> Seq<char> {
        match self {
            MergerKind::Donor => "donor"@,
            MergerKind::Document => "document"@,
            _ => "funding"@,
        }
    }

    /// A remote creation or update: a change made on this device is skipped (it is
    /// already applied), document types ignore remote changes, and every other change
    /// is merged.
    pub fn on_change(&self, is_local: bool) -> (r: ChangeStep)
        ensures
            r == (if *self == MergerKind::DocumentType || is_local { ChangeStep::Skip } else { ChangeStep::Merge }),
    {
        if *self == MergerKind::DocumentType || is_local {
            ChangeStep::Skip
        } else {
            ChangeStep::Merge
        }
    }

    /// A remote soft deletion: only projects apply it, and only when it was not made on
    /// this device; soft deletions of every other table stay local.
    pub fn on_soft_delete(&self, is_local: bool) -> (r: SoftDeleteStep)
        ensures
            r == (if *self == MergerKind::Project && !is_local { SoftDeleteStep::Apply } else { SoftDeleteStep::Ignore }),
    {
        if *self == MergerKind::Project && !is_local {
            SoftDeleteStep::Apply
        } else {
            SoftDeleteStep::Ignore
        }
    }

    /// Settles the outcome of a merge of a creation (`is_create`) or an update. Donor,
    /// document and funding mergers refuse an outcome that hard-deleted the entity;
    /// every other outcome is accepted.
    pub fn after_merge(&self, is_create: bool, outcome: &MergeOutcome) -> (r: Result<(), DomainError>)
        ensures
            match *outcome {
                MergeOutcome::HardDeleted(id) => if self.guards_hard_delete_outcome() {
                    r matches Err(DomainError::Internal(m)) && m@ ==
                        (if is_create { "CREATE"@ } else { "UPDATE"@ })
                            + " operation resulted in HardDeleted for "@ + self.noun() + " "@ + uuid_text(id)
                } else {
                    r is Ok
                },
                _ => r is Ok,
            },
    {
        match outcome {
            MergeOutcome::HardDeleted(id) => {
                let noun = match self {
                    MergerKind::Donor => "donor",
                    MergerKind::Document => "document",
                    MergerKind::Funding => "funding",
                    _ => return Ok(()),
                };
                let op = if is_create { "CREATE" } else { "UPDATE" };
                let id_text = uuid_to_text(*id);
                Err(DomainError::Internal(join3(op, " operation resulted in HardDeleted for ", noun)
                    .concat(" ").concat(id_text.as_str())))
            },
            _ => Ok(()),
        }
    }

    /// Checks that a tombstone is for this merger's table. Projects check nothing; the
    /// other mergers refuse another table, each with its own message.
    pub fn check_tombstone(&self, tombstone_type: &str) -> (r: Result<(), DomainError>)
        ensures
            (*self == MergerKind::Project || tombstone_type@ == self.table()) ==> r is Ok,
            (*self != MergerKind::Project && tombstone_type@ != self.table()) ==> (r matches Err(DomainError::Internal(m))
                && m@ == match *self {
                    MergerKind::User => "Tombstone entity type mismatch: expected "@ + self.table()
                        + ", got "@ + tombstone_type@,
                    MergerKind::Donor | MergerKind::Document | MergerKind::Funding =>
                        "Tombstone entity type mismatch: expected '"@ + self.table() + "', got '"@
                            + tombstone_type@ + "'"@,
                    MergerKind::DocumentType => "Tombstone entity type mismatch for document_types"@,
                    _ => "Tombstone entity type mismatch"@,
                }),
    {
        if *self == MergerKind::Project {
            return Ok(());
        }
        let table = self.entity_table();
        if same_text(tombstone_type, table) {
            return Ok(());
        }
        let m = match self {
            MergerKind::User => join3("Tombstone entity type mismatch: expected ", table, ", got ").concat(tombstone_type),
            MergerKind::Donor | MergerKind::Document | MergerKind::Funding =>
                join3("Tombstone entity type mismatch: expected '", table, "', got '").concat(tombstone_type).concat("'"),
            MergerKind::DocumentType => String::from_str("Tombstone entity type mismatch for document_types"),
            _ => String::from_str("Tombstone entity type mismatch"),
        };
        Err(DomainError::Internal(m))
    }

    /// Settles what deleting the entity of a tombstone gave. An entity that is already
    /// gone is fine for every merger but the project and document-type ones, which pass
    /// every error on. Donor, document and funding mergers also refuse a deletion that
    /// was not a hard deletion; the others accept any report.
    pub fn settle_hard_delete(&self, result: Result<DeletionReport, DomainError>) -> (r: Result<(), DomainError>)
        ensures
            match result {
                Ok(DeletionReport::HardDeleted) => r is Ok,
                Ok(DeletionReport::Other(d)) => if self.guards_hard_delete_outcome() {
                    r matches Err(DomainError::Internal(m)) && m@ ==
                        "Unexpected outcome from DeleteService for "@ + self.noun() + " hard delete: "@ + d@
                } else {
                    r is Ok
                },
                Err(e) => if e is EntityNotFound
                    && *self != MergerKind::Project && *self != MergerKind::DocumentType {
                    r is Ok
                } else {
                    r == Err::<(), DomainError>(e)
                },
            },
    {
        match result {
            Ok(DeletionReport::HardDeleted) => Ok(()),
            Ok(DeletionReport::Other(d)) => {
                let noun = match self {
                    MergerKind::Donor => "donor",
                    MergerKind::Document => "document",
                    MergerKind::Funding => "funding",
                    _ => return Ok(()),
                };
                Err(DomainError::Internal(join3("Unexpected outcome from DeleteService for ", noun, " hard delete: ")
                    .concat(d.as_str())))
            },
            Err(e) => {
                let tolerant = *self != MergerKind::Project && *self != MergerKind::DocumentType;
                match e {
                    DomainError::EntityNotFound(_, _) if tolerant => Ok(()),
                    other => Err(other),
                }
            },
        }
    }
}

/// A partial update of a project: only the fields that are set change.
#[derive(Clone, Debug)]
pub struct UpdateProject {
    pub name: Option<String>,
    pub status_id: Option<i64>,
    pub objective: Option<String>,
    pub outcome: Option<String>,
    pub timeline: Option<String>,
    pub responsible_team: Option<String>,
    /// `Some(None)` clears the strategic goal; `None` leaves it as it is.
    pub strategic_goal_id: Option<Option<u128>>,
}

impl UpdateProject {
    /// An update that changes nothing.
    pub open spec fn is_blank(self) -> bool {
        &&& self.name is None
        &&& self.status_id is None
        &&& self.objective is None
        &&& self.outcome is None
        &&& self.timeline is None
        &&& self.responsible_team is None
        &&& self.strategic_goal_id is None
    }

    pub fn blank() -> (r: UpdateProject)
        ensures
            r.is_blank(),
    {
        UpdateProject {
            name: None,
            status_id: None,
            objective: None,
            outcome: None,
            timeline: None,
            responsible_team: None,
            strategic_goal_id: None,
        }
    }
}

/// What the project merger does with a remote change.
#[derive(Clone, Debug)]
pub enum ProjectStep {
    /// Nothing: the change was made on this device, or names a field the merger does
    /// not handle.
    Skip,
    /// Create the project the JSON text describes.
    CreateFrom(String),
    /// Update the project with the given fields.
    Apply(UpdateProject),
    /// Update the project with every field of the JSON text.
    ApplyFull(String),
}

/// The merger of remote changes to projects.
pub struct ProjectEntityMerger;

/// The one field a field-level update sets, with its value.
pub open spec fn sets_only(u: UpdateProject, field: Seq<char>, text: Seq<char>) -> bool {
    if field == "name"@ {
        u.name matches Some(v) && v@ == text && UpdateProject { name: None, ..u }.is_blank()
    } else if field == "objective"@ {
        u.objective matches Some(v) && v@ == text && UpdateProject { objective: None, ..u }.is_blank()
    } else if field == "outcome"@ {
        u.outcome matches Some(v) && v@ == text && UpdateProject { outcome: None, ..u }.is_blank()
    } else if field == "timeline"@ {
        u.timeline matches Some(v) && v@ == text && UpdateProject { timeline: None, ..u }.is_blank()
    } else if field == "responsible_team"@ {
        u.responsible_team matches Some(v) && v@ == text && UpdateProject { responsible_team: None, ..u }.is_blank()
    } else {
        false
    }
}

/// The fields a field-level update takes as JSON strings.
pub open spec fn is_text_field(field: Seq<char>) -> bool {
    field == "name"@ || field == "objective"@ || field == "outcome"@ || field == "timeline"@
        || field == "responsible_team"@
}

impl ProjectEntityMerger {
    pub fn new() -> (r: ProjectEntityMerger) {
        ProjectEntityMerger
    }

    pub fn entity_table(&self) -> (r: &'static str)
        ensures
            r@ == "projects"@,
    {
        "projects"
    }

    /// A remote creation: skipped when made on this device; otherwise the new value
    /// must hold the project to create.
    pub fn plan_create(&self, change: &ChangeLogEntry, acting_device_id: &str) -> (r: Result<ProjectStep, DomainError>)
        ensures
            made_locally(*change, acting_device_id@) ==> (r matches Ok(ProjectStep::Skip)),
            !made_locally(*change, acting_device_id@) ==> match change.new_value {
                Some(t) => r matches Ok(ProjectStep::CreateFrom(j)) && j@ == t@,
                None => r matches Err(DomainError::Internal(m)) && m@ == "Missing new_value for project create"@,
            },
    {
        if BaseDomainMerger::is_local_change(change, acting_device_id) {
            return Ok(ProjectStep::Skip);
        }
        match &change.new_value {
            Some(t) => Ok(ProjectStep::CreateFrom(String::from_str(t.as_str()))),
            None => Err(DomainError::Internal(String::from_str("Missing new_value for project create"))),
        }
    }

    /// A remote update. One made on this device is skipped. A field-level update reads
    /// the field's JSON value into a partial update (a name and a status are required;
    /// a strategic goal must be a UUID); a field the merger does not know is skipped.
    /// An update without a field carries the whole project in its new value.
    pub fn plan_update(&self, change: &ChangeLogEntry, acting_device_id: &str) -> (r: Result<ProjectStep, DomainError>)
        ensures
            made_locally(*change, acting_device_id@) ==> (r matches Ok(ProjectStep::Skip)),
            !made_locally(*change, acting_device_id@) ==> match change.field_name {
                None => match change.new_value {
                    Some(t) => r matches Ok(ProjectStep::ApplyFull(j)) && j@ == t@,
                    None => r matches Err(DomainError::Internal(m)) && m@ == "Missing new_value for full project update"@,
                },
                Some(f) => if is_text_field(f@) {
                    match change.new_value {
                        None => if f@ == "name"@ {
                            r matches Err(DomainError::Internal(m)) && m@ == "Missing name value for project update"@
                        } else {
                            r matches Ok(ProjectStep::Apply(u)) && u.is_blank()
                        },
                        Some(t) => match json_string_value(t@) {
                            Ok(v) => r matches Ok(ProjectStep::Apply(u)) && sets_only(u, f@, v),
                            Err(m) => r matches Err(e) && is_json_error(e, f@, m),
                        },
                    }
                } else if f@ == "status_id"@ {
                    match change.new_value {
                        None => r matches Err(DomainError::Internal(m)) && m@ == "Missing status_id value for project update"@,
                        Some(t) => match json_int_value(t@) {
                            Ok(n) => r matches Ok(ProjectStep::Apply(u))
                                && u.status_id == Some(n) && UpdateProject { status_id: None, ..u }.is_blank(),
                            Err(m) => r matches Err(e) && is_json_error(e, f@, m),
                        },
                    }
                } else if f@ == "strategic_goal_id"@ {
                    match change.new_value {
                        None => r matches Ok(ProjectStep::Apply(u))
                            && u.strategic_goal_id == Some(None::<u128>)
                            && UpdateProject { strategic_goal_id: None, ..u }.is_blank(),
                        Some(t) => match json_string_value(t@) {
                            Err(m) => r matches Err(e) && is_json_error(e, f@, m),
                            Ok(v) => match uuid_parsed(v) {
                                Some(g) => r matches Ok(ProjectStep::Apply(u))
                                    && u.strategic_goal_id == Some(Some(g))
                                    && UpdateProject { strategic_goal_id: None, ..u }.is_blank(),
                                None => r matches Err(DomainError::Internal(m))
                                    && m@ == "Invalid UUID for strategic_goal_id"@,
                            },
                        },
                    }
                } else {
                    r matches Ok(ProjectStep::Skip)
                },
            },
    {
        if BaseDomainMerger::is_local_change(change, acting_device_id) {
            return Ok(ProjectStep::Skip);
        }
        let field = match &change.field_name {
            None => {
                return match &change.new_value {
                    Some(t) => Ok(ProjectStep::ApplyFull(String::from_str(t.as_str()))),
                    None => Err(DomainError::Internal(String::from_str("Missing new_value for full project update"))),
                };
            },
            Some(f) => f.as_str(),
        };
        let mut update = UpdateProject::blank();
        if same_text(field, "name") {
            match BaseDomainMerger::parse_json_string(&change.new_value, "name") {
                Ok(Some(v)) => update.name = Some(v),
                Ok(None) => return Err(DomainError::Internal(String::from_str("Missing name value for project update"))),
                Err(e) => return Err(e),
            }
        } else if same_text(field, "objective") {
            match BaseDomainMerger::parse_json_string(&change.new_value, "objective") {
                Ok(v) => update.objective = v,
                Err(e) => return Err(e),
            }
        } else if same_text(field, "outcome") {
            match BaseDomainMerger::parse_json_string(&change.new_value, "outcome") {
                Ok(v) => update.outcome = v,
                Err(e) => return Err(e),
            }
        } else if same_text(field, "timeline") {
            match BaseDomainMerger::parse_json_string(&change.new_value, "timeline") {
                Ok(v) => update.timeline = v,
                Err(e) => return Err(e),
            }
        } else if same_text(field, "responsible_team") {
            match BaseDomainMerger::parse_json_string(&change.new_value, "responsible_team") {
                Ok(v) => update.responsible_team = v,
                Err(e) => return Err(e),
            }
        } else if same_text(field, "status_id") {
            match BaseDomainMerger::parse_json_int(&change.new_value, "status_id") {
                Ok(Some(n)) => update.status_id = Some(n),
                Ok(None) => return Err(DomainError::Internal(String::from_str("Missing status_id value for project update"))),
                Err(e) => return Err(e),
            }
        } else if same_text(field, "strategic_goal_id") {
            match BaseDomainMerger::parse_json_string(&change.new_value, "strategic_goal_id") {
                Ok(Some(v)) => match parse_uuid_text(v.as_str()) {
                    Some(g) => update.strategic_goal_id = Some(Some(g)),
                    None => return Err(DomainError::Internal(String::from_str("Invalid UUID for strategic_goal_id"))),
                },
                Ok(None) => update.strategic_goal_id = Some(None),
                Err(e) => return Err(e),
            }
        } else {
            return Ok(ProjectStep::Skip);
        }
        Ok(ProjectStep::Apply(update))
    }

    /// A remote soft deletion is applied unless it was made on this device.
    pub fn plan_soft_delete(&self, change: &ChangeLogEntry, acting_device_id: &str) -> (r: SoftDeleteStep)
        ensures
            r == (if made_locally(*change, acting_device_id@) { SoftDeleteStep::Ignore } else { SoftDeleteStep::Apply }),
    {
        let local = BaseDomainMerger::is_local_change(change, acting_device_id);
        MergerKind::Project.on_soft_delete(local)
    }
}

} // verus!
