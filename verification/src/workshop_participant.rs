//! The link between a workshop and a participant, with the participant's evaluations
//! before and after the workshop, and the decisions of the link repository.

use vstd::prelude::*;
use crate::clock::{rfc3339_stamp, Timestamp};
use crate::cloud_storage::{occurs_in, text_contains};
use crate::errors::{DbError, DomainError, ValidationError};
use crate::ident::{parse_uuid_text, uuid_parsed, uuid_text, uuid_to_text};
use crate::records::{or_next, reports, FieldFault};
use crate::sync_records::{ChangeLogEntry, MergeOutcome};
use crate::sync_types::ChangeOperationType;
use crate::text::{join2, join3, same_text};
use crate::validation::{check_max_length, first_broken, max_length_rule, reports_broken, Broken};
use crate::workshop::{ParticipantSummary, carries_workshop, db_stamp, db_stamp_fault, db_uuid, db_uuid_fault, named_stamp_fault, named_uuid_fault, not_nil_rule};

verus! {

/// A participant's attendance of a workshop.
#[derive(Clone, Debug)]
pub struct WorkshopParticipant {
    pub id: u128,
    pub workshop_id: u128,
    pub participant_id: u128,
    pub pre_evaluation: Option<String>,
    pub pre_evaluation_updated_at: Option<Timestamp>,
    pub pre_evaluation_updated_by: Option<u128>,
    pub post_evaluation: Option<String>,
    pub post_evaluation_updated_at: Option<Timestamp>,
    pub post_evaluation_updated_by: Option<u128>,
    pub created_at: Timestamp,
    pub updated_at: Timestamp,
    pub created_by_user_id: Option<u128>,
    pub updated_by_user_id: Option<u128>,
    pub deleted_at: Option<Timestamp>,
    pub deleted_by_user_id: Option<u128>,
}

impl WorkshopParticipant {
    /// True when the link has been soft-deleted.
    pub fn is_deleted(&self) -> (r: bool)
        ensures
            r == (self.deleted_at is Some),
    {
        self.deleted_at.is_some()
    }
}

/// A participant to add to a workshop.
#[derive(Clone, Debug)]
pub struct NewWorkshopParticipant {
    pub workshop_id: u128,
    pub participant_id: u128,
    pub pre_evaluation: Option<String>,
    pub post_evaluation: Option<String>,
    pub created_by_user_id: Option<u128>,
}

/// Changes to a participant's evaluations: only the ones that are set change.
#[derive(Clone, Debug)]
pub struct UpdateWorkshopParticipant {
    pub pre_evaluation: Option<String>,
    pub post_evaluation: Option<String>,
    pub updated_by_user_id: u128,
}

/// An evaluation, when given, has at most 1000 characters.
pub open spec fn evaluation_rule(field: Seq<char>, e: Option<String>) -> Option<Broken> {
    match e {
        Some(t) => max_length_rule(field, t@, 1000),
        None => None,
    }
}

/// The first rule the evaluations break.
pub open spec fn evaluations_broken(pre: Option<String>, post: Option<String>) -> Option<Broken> {
    first_broken(evaluation_rule("pre_evaluation"@, pre), evaluation_rule("post_evaluation"@, post))
}

fn check_evaluations(pre: &Option<String>, post: &Option<String>) -> (r: Result<(), DomainError>)
    ensures
        match evaluations_broken(*pre, *post) {
            None => r is Ok,
            Some(b) => r matches Err(e) && reports_broken(e, b),
        },
{
    if let Some(t) = pre {
        match check_max_length("pre_evaluation", t.as_str(), 1000) { Ok(()) => {}, Err(e) => return Err(e) }
    }
    if let Some(t) = post {
        match check_max_length("post_evaluation", t.as_str(), 1000) { Ok(()) => {}, Err(e) => return Err(e) }
    }
    Ok(())
}

impl NewWorkshopParticipant {
    /// Checks the rules: neither identifier may be nil, and each given evaluation has at
    /// most 1000 characters; the first rule broken is reported.
    pub fn validate(&self) -> (r: Result<(), DomainError>)
        ensures
            match first_broken(not_nil_rule("workshop_id"@, Some(self.workshop_id)),
                first_broken(not_nil_rule("participant_id"@, Some(self.participant_id)),
                    evaluations_broken(self.pre_evaluation, self.post_evaluation))) {
                None => r is Ok,
                Some(b) => r matches Err(e) && reports_broken(e, b),
            },
    {
        if self.workshop_id == 0 {
            return Err(DomainError::Validation(ValidationError::invalid_value("workshop_id", "must not be nil")));
        }
        if self.participant_id == 0 {
            return Err(DomainError::Validation(ValidationError::invalid_value("participant_id", "must not be nil")));
        }
        check_evaluations(&self.pre_evaluation, &self.post_evaluation)
    }
}

impl UpdateWorkshopParticipant {
    /// Checks that each given evaluation has at most 1000 characters.
    pub fn validate(&self) -> (r: Result<(), DomainError>)
        ensures
            match evaluations_broken(self.pre_evaluation, self.post_evaluation) {
                None => r is Ok,
                Some(b) => r matches Err(e) && reports_broken(e, b),
            },
    {
        check_evaluations(&self.pre_evaluation, &self.post_evaluation)
    }

    /// Which evaluations the update writes (before, after); an update that writes
    /// neither leaves the link as it is.
    pub fn evaluations_written(&self) -> (r: (bool, bool))
        ensures
            r == (self.pre_evaluation is Some, self.post_evaluation is Some),
    {
        (self.pre_evaluation.is_some(), self.post_evaluation.is_some())
    }
}

/// Which evaluation a query is about.
#[derive(Clone, Copy, Debug, PartialEq, Eq, Structural)]
pub enum EvaluationKind {
    Pre,
    Post,
}

impl EvaluationKind {
    /// Reads `pre` or `post`; any other text is an invalid value of `eval_type`.
    pub fn parse(eval_type: &str) -> (r: Result<EvaluationKind, DomainError>)
        ensures
            eval_type@ == "pre"@ ==> r == Ok::<EvaluationKind, DomainError>(EvaluationKind::Pre),
            eval_type@ != "pre"@ && eval_type@ == "post"@ ==> r == Ok::<EvaluationKind, DomainError>(EvaluationKind::Post),
            eval_type@ != "pre"@ && eval_type@ != "post"@ ==> (r matches Err(DomainError::Validation(
                ValidationError::InvalidValue { field: f, reason: m })) && f@ == "eval_type"@
                && m@ == "must be 'pre' or 'post'"@),
    {
        if same_text(eval_type, "pre") {
            Ok(EvaluationKind::Pre)
        } else if same_text(eval_type, "post") {
            Ok(EvaluationKind::Post)
        } else {
            Err(DomainError::Validation(ValidationError::invalid_value("eval_type", "must be 'pre' or 'post'")))
        }
    }

    /// True when a link still lacks this evaluation.
    pub fn is_missing(&self, link: &WorkshopParticipant) -> (r: bool)
        ensures
            r == (match self {
                EvaluationKind::Pre => link.pre_evaluation is None,
                EvaluationKind::Post => link.post_evaluation is None,
            }),
    {
        match self {
            EvaluationKind::Pre => link.pre_evaluation.is_none(),
            EvaluationKind::Post => link.post_evaluation.is_none(),
        }
    }
}

/// A stored workshop-participant link, as the database gives it.
#[derive(Clone, Debug)]
pub struct WorkshopParticipantRow {
    pub id: String,
    pub workshop_id: String,
    pub participant_id: String,
    pub pre_evaluation: Option<String>,
    pub pre_evaluation_updated_at: Option<String>,
    pub pre_evaluation_updated_by: Option<String>,
    pub post_evaluation: Option<String>,
    pub post_evaluation_updated_at: Option<String>,
    pub post_evaluation_updated_by: Option<String>,
    pub created_at: String,
    pub updated_at: String,
    pub created_by_user_id: Option<String>,
    pub updated_by_user_id: Option<String>,
    pub deleted_at: Option<String>,
    pub deleted_by_user_id: Option<String>,
}

/// The first field of a stored link that cannot be read, if any.
pub open spec fn link_row_fault(row: WorkshopParticipantRow) -> Option<FieldFault> {
    or_next(named_uuid_fault(row.id@, "Invalid UUID for WorkshopParticipant.id"@),
    or_next(named_uuid_fault(row.workshop_id@, "Invalid UUID for WorkshopParticipant.workshop_id"@),
    or_next(named_uuid_fault(row.participant_id@, "Invalid UUID for WorkshopParticipant.participant_id"@),
    or_next(db_stamp_fault(row.pre_evaluation_updated_at),
    or_next(db_uuid_fault(row.pre_evaluation_updated_by),
    or_next(db_stamp_fault(row.post_evaluation_updated_at),
    or_next(db_uuid_fault(row.post_evaluation_updated_by),
    or_next(named_stamp_fault(row.created_at@, "Invalid RFC3339 for WorkshopParticipant.created_at"@),
    or_next(named_stamp_fault(row.updated_at@, "Invalid RFC3339 for WorkshopParticipant.updated_at"@),
    or_next(db_uuid_fault(row.created_by_user_id),
    or_next(db_uuid_fault(row.updated_by_user_id),
    or_next(db_stamp_fault(row.deleted_at),
        db_uuid_fault(row.deleted_by_user_id)))))))))))))
}

impl WorkshopParticipantRow {
    /// Reads a stored link; the first field that cannot be read gives an internal error
    /// naming the text and the parser's complaint.
    pub fn into_entity(self) -> (r: Result<WorkshopParticipant, DomainError>)
        ensures
            match link_row_fault(self) {
                None => r matches Ok(l)
                    && l.id == uuid_parsed(self.id@).unwrap()
                    && l.workshop_id == uuid_parsed(self.workshop_id@).unwrap()
                    && l.participant_id == uuid_parsed(self.participant_id@).unwrap()
                    && l.pre_evaluation == self.pre_evaluation
                    && l.pre_evaluation_updated_at == db_stamp(self.pre_evaluation_updated_at)
                    && l.pre_evaluation_updated_by == db_uuid(self.pre_evaluation_updated_by)
                    && l.post_evaluation == self.post_evaluation
                    && l.post_evaluation_updated_at == db_stamp(self.post_evaluation_updated_at)
                    && l.post_evaluation_updated_by == db_uuid(self.post_evaluation_updated_by)
                    && l.created_at == rfc3339_stamp(self.created_at@).unwrap()
                    && l.updated_at == rfc3339_stamp(self.updated_at@).unwrap()
                    && l.created_by_user_id == db_uuid(self.created_by_user_id)
                    && l.updated_by_user_id == db_uuid(self.updated_by_user_id)
                    && l.deleted_at == db_stamp(self.deleted_at)
                    && l.deleted_by_user_id == db_uuid(self.deleted_by_user_id),
                Some(f) => r matches Err(e) && reports(e, f),
            },
    {
        let row = self;
        let id = match crate::workshop::read_named_uuid(row.id.as_str(), "Invalid UUID for WorkshopParticipant.id") {
            Ok(v) => v,
            Err(e) => return Err(e),
        };
        let workshop_id = match crate::workshop::read_named_uuid(row.workshop_id.as_str(), "Invalid UUID for WorkshopParticipant.workshop_id") {
            Ok(v) => v,
            Err(e) => return Err(e),
        };
        let participant_id = match crate::workshop::read_named_uuid(row.participant_id.as_str(), "Invalid UUID for WorkshopParticipant.participant_id") {
            Ok(v) => v,
            Err(e) => return Err(e),
        };
        let pre_evaluation_updated_at = match crate::workshop::read_db_stamp(&row.pre_evaluation_updated_at) {
            Ok(v) => v,
            Err(e) => return Err(e),
        };
        let pre_evaluation_updated_by = match crate::workshop::read_db_uuid(&row.pre_evaluation_updated_by) {
            Ok(v) => v,
            Err(e) => return Err(e),
        };
        let post_evaluation_updated_at = match crate::workshop::read_db_stamp(&row.post_evaluation_updated_at) {
            Ok(v) => v,
            Err(e) => return Err(e),
        };
        let post_evaluation_updated_by = match crate::workshop::read_db_uuid(&row.post_evaluation_updated_by) {
            Ok(v) => v,
            Err(e) => return Err(e),
        };
        let created_at = match crate::workshop::read_named_stamp(row.created_at.as_str(), "Invalid RFC3339 for WorkshopParticipant.created_at") {
            Ok(v) => v,
            Err(e) => return Err(e),
        };
        let updated_at = match crate::workshop::read_named_stamp(row.updated_at.as_str(), "Invalid RFC3339 for WorkshopParticipant.updated_at") {
            Ok(v) => v,
            Err(e) => return Err(e),
        };
        let created_by_user_id = match crate::workshop::read_db_uuid(&row.created_by_user_id) {
            Ok(v) => v,
            Err(e) => return Err(e),
        };
        let updated_by_user_id = match crate::workshop::read_db_uuid(&row.updated_by_user_id) {
            Ok(v) => v,
            Err(e) => return Err(e),
        };
        let deleted_at = match crate::workshop::read_db_stamp(&row.deleted_at) {
            Ok(v) => v,
            Err(e) => return Err(e),
        };
        let deleted_by_user_id = match crate::workshop::read_db_uuid(&row.deleted_by_user_id) {
            Ok(v) => v,
            Err(e) => return Err(e),
        };
        Ok(WorkshopParticipant {
            id,
            workshop_id,
            participant_id,
            pre_evaluation: row.pre_evaluation,
            pre_evaluation_updated_at,
            pre_evaluation_updated_by,
            post_evaluation: row.post_evaluation,
            post_evaluation_updated_at,
            post_evaluation_updated_by,
            created_at,
            updated_at,
            created_by_user_id,
            updated_by_user_id,
            deleted_at,
            deleted_by_user_id,
        })
    }
}

/// How a link between a workshop and a participant is named in messages.
pub open spec fn link_label(workshop_id: u128, participant_id: u128) -> Seq<char> {
    "WorkshopParticipant link between "@ + uuid_text(workshop_id) + " and "@ + uuid_text(participant_id)
}

fn link_label_text(workshop_id: u128, participant_id: u128) -> (r: String)
    ensures
        r@ == link_label(workshop_id, participant_id),
{
    let w = uuid_to_text(workshop_id);
    let p = uuid_to_text(participant_id);
    join3("WorkshopParticipant link between ", w.as_str(), " and ").concat(p.as_str())
}

/// Settles the removal of a participant from a workshop. When no live link was removed,
/// the lookup of the link decides: a link that exists (already removed) is fine, a
/// missing one is reported, and a failed lookup passes its error on.
pub fn settle_link_removal(removed: bool, lookup: Result<bool, DomainError>, workshop_id: u128, participant_id: u128) -> (r: Result<(), DomainError>)
    ensures
        removed ==> r is Ok,
        !removed ==> match lookup {
            Ok(true) => r is Ok,
            Ok(false) => r matches Err(DomainError::EntityNotFound(t, i))
                && t@ == link_label(workshop_id, participant_id) && i == workshop_id,
            Err(e) => r == Err::<(), DomainError>(e),
        },
{
    if removed {
        return Ok(());
    }
    match lookup {
        Ok(true) => Ok(()),
        Ok(false) => Err(DomainError::EntityNotFound(link_label_text(workshop_id, participant_id), workshop_id)),
        Err(e) => Err(e),
    }
}

/// The error for adding a participant whose link could not be inserted, from the lookup
/// of the existing link: an existing link means the participant is already linked.
pub fn refuse_existing_link(lookup: Result<bool, DomainError>, workshop_id: u128, participant_id: u128) -> (r: DomainError)
    ensures
        match lookup {
            Ok(true) => r matches DomainError::Validation(ValidationError::Custom(m))
                && m@ == "Participant "@ + uuid_text(participant_id) + " already linked to workshop "@ + uuid_text(workshop_id),
            Ok(false) => r matches DomainError::Internal(m)
                && m@ == "Failed to retrieve existing workshop participant link after INSERT IGNORE"@,
            Err(e) => r == e,
        },
{
    match lookup {
        Ok(true) => {
            let p = uuid_to_text(participant_id);
            let w = uuid_to_text(workshop_id);
            DomainError::Validation(ValidationError::Custom(
                join3("Participant ", p.as_str(), " already linked to workshop ").concat(w.as_str())))
        },
        Ok(false) => DomainError::Internal(String::from_str(
            "Failed to retrieve existing workshop participant link after INSERT IGNORE")),
        Err(e) => e,
    }
}

/// A participant of a workshop as a query gives it: the identifier as text and the
/// disability flag as a number.
#[derive(Clone, Debug)]
pub struct ParticipantSummaryRow {
    pub id: String,
    pub name: String,
    pub gender: Option<String>,
    pub age_group: Option<String>,
    pub disability: i64,
    pub pre_evaluation: Option<String>,
    pub post_evaluation: Option<String>,
}

/// True when a summary holds exactly what a readable row says; any non-zero number
/// marks a disability.
pub open spec fn participant_of_row(s: ParticipantSummary, row: ParticipantSummaryRow) -> bool {
    &&& s.id == uuid_parsed(row.id@).unwrap()
    &&& s.name == row.name
    &&& s.gender == row.gender
    &&& s.age_group == row.age_group
    &&& s.disability == (row.disability != 0)
    &&& s.pre_evaluation == row.pre_evaluation
    &&& s.post_evaluation == row.post_evaluation
}

/// True when the error reports the unreadable identifier of a participant row.
pub open spec fn reports_participant_id(e: DomainError, row: ParticipantSummaryRow) -> bool {
    e matches DomainError::InvalidUuid(t) && t == row.id
}

impl ParticipantSummaryRow {
    /// Reads the participant; an identifier that is no UUID is reported as such.
    pub fn into_summary(self) -> (r: Result<ParticipantSummary, DomainError>)
        ensures
            match uuid_parsed(self.id@) {
                Some(_) => r matches Ok(s) && participant_of_row(s, self),
                None => r matches Err(e) && reports_participant_id(e, self),
            },
    {
        match parse_uuid_text(self.id.as_str()) {
            Some(id) => Ok(ParticipantSummary {
                id,
                name: self.name,
                gender: self.gender,
                age_group: self.age_group,
                disability: self.disability != 0,
                pre_evaluation: self.pre_evaluation,
                post_evaluation: self.post_evaluation,
            }),
            None => Err(DomainError::InvalidUuid(self.id)),
        }
    }
}

/// Reads the participants of a query in order; the first row whose identifier cannot
/// be read gives the error.
pub fn read_participant_summaries(rows: Vec<ParticipantSummaryRow>) -> (r: Result<Vec<ParticipantSummary>, DomainError>)
    ensures
        (forall|i: int| 0 <= i < rows@.len() ==> uuid_parsed(#[trigger] rows@[i].id@) is Some) ==> (r matches Ok(v)
            && v@.len() == rows@.len()
            && forall|i: int| 0 <= i < rows@.len() ==> participant_of_row(#[trigger] v@[i], rows@[i])),
        r is Err ==> exists|k: int| 0 <= k < rows@.len()
            && (forall|i: int| 0 <= i < k ==> uuid_parsed(#[trigger] rows@[i].id@) is Some)
            && uuid_parsed(rows@[k].id@) is None
            && (r matches Err(e) && reports_participant_id(e, #[trigger] rows@[k])),
        (exists|k: int| 0 <= k < rows@.len() && uuid_parsed(#[trigger] rows@[k].id@) is None) ==> r is Err,
{
    let mut rest = rows;
    let mut out: Vec<ParticipantSummary> = Vec::new();
    let mut i: usize = 0;
    let n = rest.len();
    while i < n
        invariant
            n == rows@.len(),
            i <= n,
            rest@ == rows@.subrange(i as int, n as int),
            out@.len() == i,
            forall|j: int| 0 <= j < i ==> uuid_parsed(#[trigger] rows@[j].id@) is Some,
            forall|j: int| 0 <= j < i ==> participant_of_row(#[trigger] out@[j], rows@[j]),
        decreases n - i,
    {
        let row = rest.remove(0);
        proof {
            assert(row == rows@[i as int]);
            assert(rest@ =~= rows@.subrange(i as int + 1, n as int));
        }
        match row.into_summary() {
            Ok(s) => out.push(s),
            Err(e) => return Err(e),
        }
        i = i + 1;
    }
    Ok(out)
}

/// True when the database reported that a uniqueness rule was broken.
pub open spec fn unique_violation(database_message: Option<String>) -> bool {
    database_message matches Some(m) && occurs_in("UNIQUE constraint failed"@, m@)
}

/// The error of one insertion in a batch of new links: `database_message` is the
/// database's own message, when the failure came from the database, and `description`
/// the driver's description of the failure. A broken uniqueness rule means that the
/// link exists already; any other failure is passed on as the driver describes it.
pub fn link_insert_error(database_message: &Option<String>, description: &str) -> (r: DomainError)
    ensures
        unique_violation(*database_message) ==> (r matches DomainError::Database(DbError::Conflict(m))
            && m@ == "Workshop participant link already exists"@),
        !unique_violation(*database_message) ==> (r matches DomainError::Database(DbError::Sqlx(m))
            && m@ == description@),
{
    let unique = match database_message {
        Some(m) => text_contains(m.as_str(), "UNIQUE constraint failed"),
        None => false,
    };
    if unique {
        DomainError::Database(DbError::Conflict(String::from_str("Workshop participant link already exists")))
    } else {
        DomainError::Database(DbError::Sqlx(String::from_str(description)))
    }
}

/// The results of a batch of new links, one per participant in order: each
/// participant's own result once the batch is committed; when the commit fails
/// (`commit` holds its description), that failure for every participant.
pub fn settle_batch_add(
    participant_ids: &Vec<u128>,
    outcomes: Vec<Result<(), DomainError>>,
    commit: Result<(), String>,
) -> (r: Vec<(u128, Result<(), DomainError>)>)
    requires
        outcomes@.len() == participant_ids@.len(),
    ensures
        r@.len() == participant_ids@.len(),
        forall|i: int| 0 <= i < r@.len() ==> (#[trigger] r@[i]).0 == participant_ids@[i],
        commit is Ok ==> forall|i: int| 0 <= i < r@.len() ==> (#[trigger] r@[i]).1 == outcomes@[i],
        commit matches Err(c) ==> forall|i: int| 0 <= i < r@.len() ==> ((#[trigger] r@[i]).1 matches
            Err(DomainError::Database(DbError::Transaction(m))) && m@ == "Commit failed after batch add: "@ + c@),
{
    let mut rest = outcomes;
    let mut r: Vec<(u128, Result<(), DomainError>)> = Vec::new();
    let mut i: usize = 0;
    while i < participant_ids.len()
        invariant
            i <= participant_ids@.len(),
            outcomes@.len() == participant_ids@.len(),
            rest@ == outcomes@.subrange(i as int, outcomes@.len() as int),
            r@.len() == i,
            forall|k: int| 0 <= k < i ==> (#[trigger] r@[k]).0 == participant_ids@[k],
            commit is Ok ==> forall|k: int| 0 <= k < i ==> (#[trigger] r@[k]).1 == outcomes@[k],
            commit matches Err(c) ==> forall|k: int| 0 <= k < i ==> ((#[trigger] r@[k]).1 matches
                Err(DomainError::Database(DbError::Transaction(m))) && m@ == "Commit failed after batch add: "@ + c@),
        decreases participant_ids@.len() - i,
    {
        let own = rest.remove(0);
        proof {
            assert(own == outcomes@[i as int]);
            assert(rest@ =~= outcomes@.subrange(i as int + 1, outcomes@.len() as int));
        }
        let result = match &commit {
            Ok(()) => own,
            Err(c) => Err(DomainError::Database(DbError::Transaction(join2("Commit failed after batch add: ", c.as_str())))),
        };
        r.push((participant_ids[i], result));
        i = i + 1;
    }
    r
}

/// What the local store is to do with a remote change to a link.
#[derive(Clone, Debug)]
pub enum LinkMergeAction {
    /// Write the remote state, replacing any local row.
    Upsert(WorkshopParticipant),
    /// Delete the local link the change names.
    Remove,
    Nothing,
}

/// Decides how a remote change to a workshop-participant link is merged, given the state
/// it carries (read from its new value, or the reader's error) and the lookup of the
/// local link between the same workshop and participant (made once the state was
/// read). A creation or update without a value is refused; the remote state is written
/// when there is no local link or it is strictly newer; a failed lookup passes its
/// error on. Soft deletions are ignored; a hard deletion removes the local link the
/// change names, when the lookup found it, and is reported as done.
pub fn plan_participant_merge(
    change: &ChangeLogEntry,
    remote: Option<Result<WorkshopParticipant, String>>,
    local: Option<Result<WorkshopParticipant, DomainError>>,
) -> (r: Result<(LinkMergeAction, MergeOutcome), DomainError>)
    requires
        remote is Some <==> carries_workshop(*change),
        (remote matches Some(Ok(_))) ==> local is Some,
        local is Some ==> (remote matches Some(Ok(_))) || change.operation_type == ChangeOperationType::HardDelete,
    ensures
        (change.operation_type == ChangeOperationType::Create || change.operation_type == ChangeOperationType::Update)
            ==> match remote {
                None => r matches Err(DomainError::Validation(ValidationError::Custom(m)))
                    && m@ == "Missing new_value for workshop_participant change"@,
                Some(Err(detail)) => r matches Err(DomainError::Validation(ValidationError::Format { field: f, reason: m }))
                    && f@ == "new_value_workshop_participant"@ && m@ == "Invalid JSON: "@ + detail@,
                Some(Ok(w)) => match local {
                    Some(Ok(l)) => if w.updated_at.later_than(l.updated_at) {
                        r matches Ok((LinkMergeAction::Upsert(x), MergeOutcome::Updated(id))) && x == w && id == w.id
                    } else {
                        r matches Ok((LinkMergeAction::Nothing, MergeOutcome::NoOp(m))) && m@ == "Local copy newer or equal"@
                    },
                    Some(Err(DomainError::EntityNotFound(_, _))) =>
                        r matches Ok((LinkMergeAction::Upsert(x), MergeOutcome::Created(id))) && x == w && id == w.id,
                    Some(Err(e)) => r == Err::<(LinkMergeAction, MergeOutcome), DomainError>(e),
                    None => false,
                },
            },
        change.operation_type == ChangeOperationType::Delete ==> (r matches Ok((LinkMergeAction::Nothing, MergeOutcome::NoOp(m)))
            && m@ == "Remote soft delete ignored"@),
        change.operation_type == ChangeOperationType::HardDelete ==> match local {
            Some(Ok(_)) => r matches Ok((LinkMergeAction::Remove, MergeOutcome::HardDeleted(id))) && id == change.entity_id,
            Some(Err(DomainError::EntityNotFound(_, _))) =>
                r matches Ok((LinkMergeAction::Nothing, MergeOutcome::HardDeleted(id))) && id == change.entity_id,
            Some(Err(e)) => r == Err::<(LinkMergeAction, MergeOutcome), DomainError>(e),
            None => r matches Ok((LinkMergeAction::Nothing, MergeOutcome::HardDeleted(id))) && id == change.entity_id,
        },
{
    match change.operation_type {
        ChangeOperationType::Create | ChangeOperationType::Update => {
            let w = match remote {
                Some(Ok(w)) => w,
                Some(Err(detail)) => return Err(DomainError::Validation(ValidationError::Format {
                    field: String::from_str("new_value_workshop_participant"),
                    reason: join2("Invalid JSON: ", detail.as_str()),
                })),
                None => return Err(DomainError::Validation(ValidationError::custom("Missing new_value for workshop_participant change"))),
            };
            match local {
                Some(Ok(l)) => if w.updated_at.is_later_than(&l.updated_at) {
                    let id = w.id;
                    Ok((LinkMergeAction::Upsert(w), MergeOutcome::Updated(id)))
                } else {
                    Ok((LinkMergeAction::Nothing, MergeOutcome::NoOp(String::from_str("Local copy newer or equal"))))
                },
                Some(Err(DomainError::EntityNotFound(_, _))) => {
                    let id = w.id;
                    Ok((LinkMergeAction::Upsert(w), MergeOutcome::Created(id)))
                },
                Some(Err(e)) => Err(e),
                None => {
                    let id = w.id;
                    Ok((LinkMergeAction::Upsert(w), MergeOutcome::Created(id)))
                },
            }
        },
        ChangeOperationType::Delete => Ok((LinkMergeAction::Nothing, MergeOutcome::NoOp(String::from_str("Remote soft delete ignored")))),
        ChangeOperationType::HardDelete => match local {
            Some(Ok(_)) => Ok((LinkMergeAction::Remove, MergeOutcome::HardDeleted(change.entity_id))),
            Some(Err(DomainError::EntityNotFound(_, _))) => Ok((LinkMergeAction::Nothing, MergeOutcome::HardDeleted(change.entity_id))),
            Some(Err(e)) => Err(e),
            None => Ok((LinkMergeAction::Nothing, MergeOutcome::HardDeleted(change.entity_id))),
        },
    }
}

} // verus!
