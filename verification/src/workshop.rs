//! Workshops: the record with per-field change stamps, its data-entry types and rules,
//! the stored row, the public view with its budget figures, the participant links, and
//! the decisions of the workshop repository.

use vstd::prelude::*;
use crate::doc_fields::{EntityFieldMetadata, FieldType};
use crate::amount::{decimal_div, decimal_mul, decimal_parsed, decimal_sub, decimal_text, same_value, Amount};
use crate::clock::{date_before, iso_date, is_date_before, local_today, parse_iso_date, rfc3339_error_text, rfc3339_stamp, Timestamp};
use crate::errors::{DomainError, ValidationError};
use crate::ident::{parse_uuid_text, read_uuid_text, uuid_error_text, uuid_parsed, uuid_text, uuid_to_text};
use crate::json::{encode_json_int, encode_json_opt_text, encode_json_text, json_int_text, json_opt_text, json_text_encoding};
use crate::records::{or_next, reports, FieldFault};
use crate::sync_records::{logs_field_update, ChangeLogEntry, MergeOutcome};
use crate::sync_types::{ChangeOperationType, SyncPriority};
use crate::text::{join2, join3};
use crate::validation::{max_length_rule, reports_broken, Broken};

verus! {

/// The sync priority a stored level stands for: 8 and above is high, 5 and above
/// normal, 3 and above low, anything lower never.
pub open spec fn priority_of_level(level: i64) -> SyncPriority {
    if level >= 8 {
        SyncPriority::High
    } else if level >= 5 {
        SyncPriority::Normal
    } else if level >= 3 {
        SyncPriority::Low
    } else {
        SyncPriority::Never
    }
}

/// The sync priority a stored level stands for.
pub fn priority_from_level(level: i64) -> (r: SyncPriority)
    ensures
        r == priority_of_level(level),
{
    if level >= 8 {
        SyncPriority::High
    } else if level >= 5 {
        SyncPriority::Normal
    } else if level >= 3 {
        SyncPriority::Low
    } else {
        SyncPriority::Never
    }
}

/// A workshop. Each editable field carries when and by whom it was last changed.
#[derive(Clone, Debug)]
pub struct Workshop {
    pub id: u128,
    pub project_id: Option<u128>,
    pub purpose: Option<String>,
    pub purpose_updated_at: Option<Timestamp>,
    pub purpose_updated_by: Option<u128>,
    pub event_date: Option<String>,
    pub event_date_updated_at: Option<Timestamp>,
    pub event_date_updated_by: Option<u128>,
    pub location: Option<String>,
    pub location_updated_at: Option<Timestamp>,
    pub location_updated_by: Option<u128>,
    pub budget: Option<Amount>,
    pub budget_updated_at: Option<Timestamp>,
    pub budget_updated_by: Option<u128>,
    pub actuals: Option<Amount>,
    pub actuals_updated_at: Option<Timestamp>,
    pub actuals_updated_by: Option<u128>,
    pub participant_count: i64,
    pub participant_count_updated_at: Option<Timestamp>,
    pub participant_count_updated_by: Option<u128>,
    pub local_partner: Option<String>,
    pub local_partner_updated_at: Option<Timestamp>,
    pub local_partner_updated_by: Option<u128>,
    pub partner_responsibility: Option<String>,
    pub partner_responsibility_updated_at: Option<Timestamp>,
    pub partner_responsibility_updated_by: Option<u128>,
    pub partnership_success: Option<String>,
    pub partnership_success_updated_at: Option<Timestamp>,
    pub partnership_success_updated_by: Option<u128>,
    pub capacity_challenges: Option<String>,
    pub capacity_challenges_updated_at: Option<Timestamp>,
    pub capacity_challenges_updated_by: Option<u128>,
    pub strengths: Option<String>,
    pub strengths_updated_at: Option<Timestamp>,
    pub strengths_updated_by: Option<u128>,
    pub outcomes: Option<String>,
    pub outcomes_updated_at: Option<Timestamp>,
    pub outcomes_updated_by: Option<u128>,
    pub recommendations: Option<String>,
    pub recommendations_updated_at: Option<Timestamp>,
    pub recommendations_updated_by: Option<u128>,
    pub challenge_resolution: Option<String>,
    pub challenge_resolution_updated_at: Option<Timestamp>,
    pub challenge_resolution_updated_by: Option<u128>,
    pub created_at: Timestamp,
    pub updated_at: Timestamp,
    pub created_by_user_id: Option<u128>,
    pub updated_by_user_id: Option<u128>,
    pub deleted_at: Option<Timestamp>,
    pub deleted_by_user_id: Option<u128>,
    pub sync_priority: SyncPriority,
}

/// The difference actuals minus budget, where both are known: `None` when one is
/// missing, `Some(None)` when the difference overflows.
pub open spec fn variance_of(w: Workshop) -> Option<Option<(i128, u32)>> {
    match (w.budget, w.actuals) {
        (Some(b), Some(a)) => Some(decimal_sub(a.parts(), b.parts())),
        _ => None,
    }
}

/// The variance as a percentage of a non-zero budget, `((actuals - budget) / budget) *
/// 100.0`: `None` when a figure is missing or the budget is zero, `Some(None)` when a
/// step overflows.
pub open spec fn variance_percentage_of(w: Workshop) -> Option<Option<(i128, u32)>> {
    match (w.budget, w.actuals) {
        (Some(b), Some(a)) => if b.parts().0 == 0 {
            None
        } else {
            Some(match decimal_sub(a.parts(), b.parts()) {
                Some(d) => match decimal_div(d, b.parts()) {
                    Some(q) => decimal_mul(q, (1000, 1)),
                    None => None,
                },
                None => None,
            })
        },
        _ => None,
    }
}

/// True when the budget figures of a workshop can be computed without overflow.
pub open spec fn figures_computable(w: Workshop) -> bool {
    &&& !(variance_of(w) matches Some(None))
    &&& !(variance_percentage_of(w) matches Some(None))
}

/// The amount an optional figure holds.
pub open spec fn amount_parts(a: Option<Amount>) -> Option<(i128, u32)> {
    match a {
        Some(x) => Some(x.parts()),
        None => None,
    }
}

impl Workshop {
    /// True when the workshop has been soft-deleted.
    pub fn is_deleted(&self) -> (r: bool)
        ensures
            r == (self.deleted_at is Some),
    {
        self.deleted_at.is_some()
    }

    /// The event date as a calendar date, when it is one in the form `YYYY-MM-DD`.
    pub fn parsed_event_date(&self) -> (r: Option<(i32, u32, u32)>)
        ensures
            r == match self.event_date {
                Some(d) => iso_date(d@),
                None => None,
            },
    {
        match &self.event_date {
            Some(d) => parse_iso_date(d.as_str()),
            None => None,
        }
    }

    /// Actuals minus budget, when both are known, or `None` inside the `Some` when the
    /// difference overflows.
    pub fn checked_budget_variance(&self) -> (r: Option<Option<Amount>>)
        ensures
            match variance_of(*self) {
                None => r is None,
                Some(None) => r matches Some(None),
                Some(Some(p)) => r matches Some(Some(v)) && v.parts() == p,
            },
    {
        match (&self.budget, &self.actuals) {
            (Some(b), Some(a)) => Some(a.checked_sub(b)),
            _ => None,
        }
    }

    /// Actuals minus budget, when both are known.
    pub fn budget_variance(&self) -> (r: Option<Amount>)
        requires
            !(variance_of(*self) matches Some(None)),
        ensures
            match variance_of(*self) {
                Some(Some(p)) => r matches Some(v) && v.parts() == p,
                _ => r is None,
            },
    {
        match self.checked_budget_variance() {
            Some(Some(v)) => Some(v),
            _ => None,
        }
    }

    /// The variance as a percentage of a non-zero budget, or `None` inside the `Some`
    /// when a step overflows.
    pub fn checked_budget_variance_percentage(&self) -> (r: Option<Option<Amount>>)
        ensures
            match variance_percentage_of(*self) {
                None => r is None,
                Some(None) => r matches Some(None),
                Some(Some(p)) => r matches Some(Some(v)) && v.parts() == p,
            },
    {
        match (&self.budget, &self.actuals) {
            (Some(b), Some(a)) => {
                if b.is_zero() {
                    return None;
                }
                let hundred = match Amount::from_parts(1000, 1) {
                    Some(h) => h,
                    None => return None,
                };
                let d = match a.checked_sub(b) {
                    Some(d) => d,
                    None => return Some(None),
                };
                let q = match d.checked_div(b) {
                    Some(q) => q,
                    None => return Some(None),
                };
                Some(q.checked_mul(&hundred))
            },
            _ => None,
        }
    }

    /// The variance as a percentage of a non-zero budget.
    pub fn budget_variance_percentage(&self) -> (r: Option<Amount>)
        requires
            !(variance_percentage_of(*self) matches Some(None)),
        ensures
            match variance_percentage_of(*self) {
                Some(Some(p)) => r matches Some(v) && v.parts() == p,
                _ => r is None,
            },
    {
        match self.checked_budget_variance_percentage() {
            Some(Some(v)) => Some(v),
            _ => None,
        }
    }

    /// True when the event date is a date before `today`.
    pub fn is_past_on(&self, today: (i32, u32, u32)) -> (r: bool)
        ensures
            r == match self.event_date {
                Some(d) => iso_date(d@) matches Some(x) && date_before(x, today),
                None => false,
            },
    {
        match self.parsed_event_date() {
            Some(d) => is_date_before(d, today),
            None => false,
        }
    }

    /// True when the event date is a date after `today`.
    pub fn is_future_on(&self, today: (i32, u32, u32)) -> (r: bool)
        ensures
            r == match self.event_date {
                Some(d) => iso_date(d@) matches Some(x) && date_before(today, x),
                None => false,
            },
    {
        match self.parsed_event_date() {
            Some(d) => is_date_before(today, d),
            None => false,
        }
    }

    /// True when the event date is a date before `today`.
    pub open spec fn past_on(self, today: (i32, u32, u32)) -> bool {
        match self.event_date {
            Some(d) => iso_date(d@) matches Some(x) && date_before(x, today),
            None => false,
        }
    }

    /// True when the event date is a date after `today`.
    pub open spec fn future_on(self, today: (i32, u32, u32)) -> bool {
        match self.event_date {
            Some(d) => iso_date(d@) matches Some(x) && date_before(today, x),
            None => false,
        }
    }

    /// True when the event date is before the local date of today. Which date that is
    /// depends on the clock and the time zone: the result is `past_on` of the date the
    /// clock gave.
    pub fn is_past(&self) -> (r: bool)
        ensures
            exists|today: (i32, u32, u32)| r == #[trigger] self.past_on(today),
            self.event_date is None ==> !r,
    {
        let today = local_today();
        let r = self.is_past_on(today);
        assert(r == self.past_on(today));
        r
    }

    /// True when the event date is after the local date of today. Which date that is
    /// depends on the clock and the time zone: the result is `future_on` of the date
    /// the clock gave.
    pub fn is_future(&self) -> (r: bool)
        ensures
            exists|today: (i32, u32, u32)| r == #[trigger] self.future_on(today),
            self.event_date is None ==> !r,
    {
        let today = local_today();
        let r = self.is_future_on(today);
        assert(r == self.future_on(today));
        r
    }
}

/// The data of a workshop to create.
#[derive(Clone, Debug)]
pub struct NewWorkshop {
    pub project_id: Option<u128>,
    pub purpose: Option<String>,
    pub event_date: Option<String>,
    pub location: Option<String>,
    pub budget: Option<Amount>,
    pub actuals: Option<Amount>,
    pub participant_count: Option<i64>,
    pub local_partner: Option<String>,
    pub partner_responsibility: Option<String>,
    pub created_by_user_id: Option<u128>,
}

/// Changes to a workshop: only the fields that are set change; `project_id` set to
/// `Some(None)` detaches the workshop from its project.
#[derive(Clone, Debug)]
pub struct UpdateWorkshop {
    pub project_id: Option<Option<u128>>,
    pub purpose: Option<String>,
    pub event_date: Option<String>,
    pub location: Option<String>,
    pub budget: Option<Amount>,
    pub actuals: Option<Amount>,
    pub participant_count: Option<i64>,
    pub local_partner: Option<String>,
    pub partner_responsibility: Option<String>,
    pub partnership_success: Option<String>,
    pub capacity_challenges: Option<String>,
    pub strengths: Option<String>,
    pub outcomes: Option<String>,
    pub recommendations: Option<String>,
    pub challenge_resolution: Option<String>,
    pub updated_by_user_id: u128,
}

/// A given identifier must not be the nil UUID.
pub open spec fn not_nil_rule(field: Seq<char>, id: Option<u128>) -> Option<Broken> {
    if id == Some(0u128) { Some(Broken::InvalidValue { field, reason: "must not be nil"@ }) } else { None }
}

/// A given date must be a calendar date written `YYYY-MM-DD`.
pub open spec fn date_rule(field: Seq<char>, d: Option<String>) -> Option<Broken> {
    match d {
        Some(t) => if iso_date(t@) is Some {
            None
        } else {
            Some(Broken::Format { field, reason: "Invalid date format, expected YYYY-MM-DD"@ })
        },
        None => None,
    }
}

/// A given amount must not be negative.
pub open spec fn non_negative_rule(field: Seq<char>, a: Option<Amount>) -> Option<Broken> {
    match a {
        Some(x) => if x.parts().0 < 0 {
            Some(Broken::InvalidValue { field, reason: "must be non-negative"@ })
        } else {
            None
        },
        None => None,
    }
}

/// The first rule a workshop's data breaks: a project must not be nil, the event date
/// must be a date, and budget and actuals must not be negative.
pub open spec fn workshop_data_broken(project_id: Option<u128>, event_date: Option<String>, budget: Option<Amount>, actuals: Option<Amount>) -> Option<Broken> {
    crate::validation::first_broken(not_nil_rule("project_id"@, project_id),
    crate::validation::first_broken(date_rule("event_date"@, event_date),
    crate::validation::first_broken(non_negative_rule("budget"@, budget),
        non_negative_rule("actuals"@, actuals))))
}

fn check_workshop_data(project_id: Option<u128>, event_date: &Option<String>, budget: &Option<Amount>, actuals: &Option<Amount>) -> (r: Result<(), DomainError>)
    ensures
        match workshop_data_broken(project_id, *event_date, *budget, *actuals) {
            None => r is Ok,
            Some(b) => r matches Err(e) && reports_broken(e, b),
        },
{
    if project_id == Some(0u128) {
        return Err(DomainError::Validation(ValidationError::invalid_value("project_id", "must not be nil")));
    }
    if let Some(d) = event_date {
        if parse_iso_date(d.as_str()).is_none() {
            return Err(DomainError::Validation(ValidationError::format("event_date", "Invalid date format, expected YYYY-MM-DD")));
        }
    }
    if let Some(b) = budget {
        if b.is_negative() {
            return Err(DomainError::Validation(ValidationError::invalid_value("budget", "must be non-negative")));
        }
    }
    if let Some(a) = actuals {
        if a.is_negative() {
            return Err(DomainError::Validation(ValidationError::invalid_value("actuals", "must be non-negative")));
        }
    }
    Ok(())
}

impl NewWorkshop {
    /// Checks the rules of a new workshop's data, reporting the first one broken.
    pub fn validate(&self) -> (r: Result<(), DomainError>)
        ensures
            match workshop_data_broken(self.project_id, self.event_date, self.budget, self.actuals) {
                None => r is Ok,
                Some(b) => r matches Err(e) && reports_broken(e, b),
            },
    {
        check_workshop_data(self.project_id, &self.event_date, &self.budget, &self.actuals)
    }
}

impl UpdateWorkshop {
    /// Checks the rules of the given fields, reporting the first one broken.
    pub fn validate(&self) -> (r: Result<(), DomainError>)
        ensures
            match workshop_data_broken(match self.project_id { Some(Some(p)) => Some(p), _ => None },
                self.event_date, self.budget, self.actuals) {
                None => r is Ok,
                Some(b) => r matches Err(e) && reports_broken(e, b),
            },
    {
        let project = match self.project_id {
            Some(Some(p)) => Some(p),
            _ => None,
        };
        check_workshop_data(project, &self.event_date, &self.budget, &self.actuals)
    }
}

/// A stored workshop, as the database gives it.
#[derive(Clone, Debug)]
pub struct WorkshopRow {
    pub id: String,
    pub project_id: Option<String>,
    pub purpose: Option<String>,
    pub purpose_updated_at: Option<String>,
    pub purpose_updated_by: Option<String>,
    pub event_date: Option<String>,
    pub event_date_updated_at: Option<String>,
    pub event_date_updated_by: Option<String>,
    pub location: Option<String>,
    pub location_updated_at: Option<String>,
    pub location_updated_by: Option<String>,
    pub budget: Option<String>,
    pub budget_updated_at: Option<String>,
    pub budget_updated_by: Option<String>,
    pub actuals: Option<String>,
    pub actuals_updated_at: Option<String>,
    pub actuals_updated_by: Option<String>,
    pub participant_count: i64,
    pub participant_count_updated_at: Option<String>,
    pub participant_count_updated_by: Option<String>,
    pub local_partner: Option<String>,
    pub local_partner_updated_at: Option<String>,
    pub local_partner_updated_by: Option<String>,
    pub partner_responsibility: Option<String>,
    pub partner_responsibility_updated_at: Option<String>,
    pub partner_responsibility_updated_by: Option<String>,
    pub partnership_success: Option<String>,
    pub partnership_success_updated_at: Option<String>,
    pub partnership_success_updated_by: Option<String>,
    pub capacity_challenges: Option<String>,
    pub capacity_challenges_updated_at: Option<String>,
    pub capacity_challenges_updated_by: Option<String>,
    pub strengths: Option<String>,
    pub strengths_updated_at: Option<String>,
    pub strengths_updated_by: Option<String>,
    pub outcomes: Option<String>,
    pub outcomes_updated_at: Option<String>,
    pub outcomes_updated_by: Option<String>,
    pub recommendations: Option<String>,
    pub recommendations_updated_at: Option<String>,
    pub recommendations_updated_by: Option<String>,
    pub challenge_resolution: Option<String>,
    pub challenge_resolution_updated_at: Option<String>,
    pub challenge_resolution_updated_by: Option<String>,
    pub created_at: String,
    pub updated_at: String,
    pub created_by_user_id: Option<String>,
    pub updated_by_user_id: Option<String>,
    pub deleted_at: Option<String>,
    pub deleted_by_user_id: Option<String>,
    pub sync_priority: i64,
}

/// The fault of a stored identifier: an internal error naming the text and the
/// parser's complaint.
pub open spec fn db_uuid_fault(text: Option<String>) -> Option<FieldFault> {
    match text {
        Some(t) => if uuid_parsed(t@) is Some {
            None
        } else {
            Some(FieldFault::Internal { message: "Invalid UUID format '"@ + t@ + "' in DB: "@ + uuid_error_text(t@) })
        },
        None => None,
    }
}

/// The fault of a stored instant.
pub open spec fn db_stamp_fault(text: Option<String>) -> Option<FieldFault> {
    match text {
        Some(t) => if rfc3339_stamp(t@) is Some {
            None
        } else {
            Some(FieldFault::Internal { message: "Invalid RFC3339 format '"@ + t@ + "' in DB: "@ + rfc3339_error_text(t@) })
        },
        None => None,
    }
}

/// The fault of a stored amount.
pub open spec fn db_amount_fault(text: Option<String>) -> Option<FieldFault> {
    match text {
        Some(t) => match decimal_parsed(t@) {
            Ok(_) => None,
            Err(m) => Some(FieldFault::Internal { message: "Invalid Decimal format '"@ + t@ + "' in DB: "@ + m }),
        },
        None => None,
    }
}

/// The fault of a required identifier of an entity, named `Entity.field`.
pub open spec fn named_uuid_fault(text: Seq<char>, label: Seq<char>) -> Option<FieldFault> {
    if uuid_parsed(text) is Some {
        None
    } else {
        Some(FieldFault::Internal { message: label + " '"@ + text + "': "@ + uuid_error_text(text) })
    }
}

/// The fault of a required instant of an entity, named `Entity.field`.
pub open spec fn named_stamp_fault(text: Seq<char>, label: Seq<char>) -> Option<FieldFault> {
    if rfc3339_stamp(text) is Some {
        None
    } else {
        Some(FieldFault::Internal { message: label + " '"@ + text + "': "@ + rfc3339_error_text(text) })
    }
}

/// The identifier an optional stored text denotes.
pub open spec fn db_uuid(text: Option<String>) -> Option<u128> {
    match text {
        Some(t) => Some(uuid_parsed(t@).unwrap()),
        None => None,
    }
}

/// The instant an optional stored text denotes.
pub open spec fn db_stamp(text: Option<String>) -> Option<Timestamp> {
    match text {
        Some(t) => Some(rfc3339_stamp(t@).unwrap()),
        None => None,
    }
}

/// The amount an optional stored text denotes.
pub open spec fn db_amount(text: Option<String>) -> Option<(i128, u32)> {
    match text {
        Some(t) => match decimal_parsed(t@) {
            Ok(p) => Some(p),
            Err(_) => None,
        },
        None => None,
    }
}

pub(crate) fn read_db_uuid(text: &Option<String>) -> (r: Result<Option<u128>, DomainError>)
    ensures
        match db_uuid_fault(*text) {
            None => r == Ok::<Option<u128>, DomainError>(db_uuid(*text)),
            Some(f) => r matches Err(e) && reports(e, f),
        },
{
    match text {
        Some(t) => match read_uuid_text(t.as_str()) {
            Ok(u) => Ok(Some(u)),
            Err(m) => Err(DomainError::Internal(join3("Invalid UUID format '", t.as_str(), "' in DB: ").concat(m.as_str()))),
        },
        None => Ok(None),
    }
}

pub(crate) fn read_db_stamp(text: &Option<String>) -> (r: Result<Option<Timestamp>, DomainError>)
    ensures
        match db_stamp_fault(*text) {
            None => r == Ok::<Option<Timestamp>, DomainError>(db_stamp(*text)),
            Some(f) => r matches Err(e) && reports(e, f),
        },
{
    match text {
        Some(t) => match Timestamp::parse_rfc3339_detailed(t.as_str()) {
            Ok(s) => Ok(Some(s)),
            Err(m) => Err(DomainError::Internal(join3("Invalid RFC3339 format '", t.as_str(), "' in DB: ").concat(m.as_str()))),
        },
        None => Ok(None),
    }
}

fn read_db_amount(text: &Option<String>) -> (r: Result<Option<Amount>, DomainError>)
    ensures
        match db_amount_fault(*text) {
            None => r matches Ok(a) && amount_parts(a) == db_amount(*text),
            Some(f) => r matches Err(e) && reports(e, f),
        },
{
    match text {
        Some(t) => match Amount::parse(t.as_str()) {
            Ok(a) => Ok(Some(a)),
            Err(m) => Err(DomainError::Internal(join3("Invalid Decimal format '", t.as_str(), "' in DB: ").concat(m.as_str()))),
        },
        None => Ok(None),
    }
}

pub(crate) fn read_named_uuid(text: &str, label: &str) -> (r: Result<u128, DomainError>)
    ensures
        match named_uuid_fault(text@, label@) {
            None => r == Ok::<u128, DomainError>(uuid_parsed(text@).unwrap()),
            Some(f) => r matches Err(e) && reports(e, f),
        },
{
    match read_uuid_text(text) {
        Ok(u) => Ok(u),
        Err(m) => Err(DomainError::Internal(join3(label, " '", text).concat("': ").concat(m.as_str()))),
    }
}

pub(crate) fn read_named_stamp(text: &str, label: &str) -> (r: Result<Timestamp, DomainError>)
    ensures
        match named_stamp_fault(text@, label@) {
            None => r == Ok::<Timestamp, DomainError>(rfc3339_stamp(text@).unwrap()),
            Some(f) => r matches Err(e) && reports(e, f),
        },
{
    match Timestamp::parse_rfc3339_detailed(text) {
        Ok(s) => Ok(s),
        Err(m) => Err(DomainError::Internal(join3(label, " '", text).concat("': ").concat(m.as_str()))),
    }
}

/// The first field of a stored workshop that cannot be read, if any.
pub open spec fn workshop_row_fault(row: WorkshopRow) -> Option<FieldFault> {
    or_next(named_uuid_fault(row.id@, "Invalid UUID format for Workshop.id"@),
    or_next(db_uuid_fault(row.project_id),
    or_next(db_stamp_fault(row.purpose_updated_at),
    or_next(db_uuid_fault(row.purpose_updated_by),
    or_next(db_stamp_fault(row.event_date_updated_at),
    or_next(db_uuid_fault(row.event_date_updated_by),
    or_next(db_stamp_fault(row.location_updated_at),
    or_next(db_uuid_fault(row.location_updated_by),
    or_next(db_amount_fault(row.budget),
    or_next(db_stamp_fault(row.budget_updated_at),
    or_next(db_uuid_fault(row.budget_updated_by),
    or_next(db_amount_fault(row.actuals),
    or_next(db_stamp_fault(row.actuals_updated_at),
    or_next(db_uuid_fault(row.actuals_updated_by),
    or_next(db_stamp_fault(row.participant_count_updated_at),
    or_next(db_uuid_fault(row.participant_count_updated_by),
    or_next(db_stamp_fault(row.local_partner_updated_at),
    or_next(db_uuid_fault(row.local_partner_updated_by),
    or_next(db_stamp_fault(row.partner_responsibility_updated_at),
    or_next(db_uuid_fault(row.partner_responsibility_updated_by),
    or_next(db_stamp_fault(row.partnership_success_updated_at),
    or_next(db_uuid_fault(row.partnership_success_updated_by),
    or_next(db_stamp_fault(row.capacity_challenges_updated_at),
    or_next(db_uuid_fault(row.capacity_challenges_updated_by),
    or_next(db_stamp_fault(row.strengths_updated_at),
    or_next(db_uuid_fault(row.strengths_updated_by),
    or_next(db_stamp_fault(row.outcomes_updated_at),
    or_next(db_uuid_fault(row.outcomes_updated_by),
    or_next(db_stamp_fault(row.recommendations_updated_at),
    or_next(db_uuid_fault(row.recommendations_updated_by),
    or_next(db_stamp_fault(row.challenge_resolution_updated_at),
    or_next(db_uuid_fault(row.challenge_resolution_updated_by),
    or_next(named_stamp_fault(row.created_at@, "Invalid RFC3339 format for Workshop.created_at"@),
    or_next(named_stamp_fault(row.updated_at@, "Invalid RFC3339 format for Workshop.updated_at"@),
    or_next(db_uuid_fault(row.created_by_user_id),
    or_next(db_uuid_fault(row.updated_by_user_id),
    or_next(db_stamp_fault(row.deleted_at),
    db_uuid_fault(row.deleted_by_user_id))))))))))))))))))))))))))))))))))))))
}

impl WorkshopRow {
    /// Reads a stored workshop; the first field that cannot be read gives an internal
    /// error naming the text and the parser's complaint.
    pub fn into_entity(self) -> (r: Result<Workshop, DomainError>)
        ensures
            match workshop_row_fault(self) {
                None => r matches Ok(w)
                    && w.id == uuid_parsed(self.id@).unwrap()
                    && w.project_id == db_uuid(self.project_id)
                    && w.purpose_updated_at == db_stamp(self.purpose_updated_at)
                    && w.purpose_updated_by == db_uuid(self.purpose_updated_by)
                    && w.event_date_updated_at == db_stamp(self.event_date_updated_at)
                    && w.event_date_updated_by == db_uuid(self.event_date_updated_by)
                    && w.location_updated_at == db_stamp(self.location_updated_at)
                    && w.location_updated_by == db_uuid(self.location_updated_by)
                    && amount_parts(w.budget) == db_amount(self.budget)
                    && w.budget_updated_at == db_stamp(self.budget_updated_at)
                    && w.budget_updated_by == db_uuid(self.budget_updated_by)
                    && amount_parts(w.actuals) == db_amount(self.actuals)
                    && w.actuals_updated_at == db_stamp(self.actuals_updated_at)
                    && w.actuals_updated_by == db_uuid(self.actuals_updated_by)
                    && w.participant_count_updated_at == db_stamp(self.participant_count_updated_at)
                    && w.participant_count_updated_by == db_uuid(self.participant_count_updated_by)
                    && w.local_partner_updated_at == db_stamp(self.local_partner_updated_at)
                    && w.local_partner_updated_by == db_uuid(self.local_partner_updated_by)
                    && w.partner_responsibility_updated_at == db_stamp(self.partner_responsibility_updated_at)
                    && w.partner_responsibility_updated_by == db_uuid(self.partner_responsibility_updated_by)
                    && w.partnership_success_updated_at == db_stamp(self.partnership_success_updated_at)
                    && w.partnership_success_updated_by == db_uuid(self.partnership_success_updated_by)
                    && w.capacity_challenges_updated_at == db_stamp(self.capacity_challenges_updated_at)
                    && w.capacity_challenges_updated_by == db_uuid(self.capacity_challenges_updated_by)
                    && w.strengths_updated_at == db_stamp(self.strengths_updated_at)
                    && w.strengths_updated_by == db_uuid(self.strengths_updated_by)
                    && w.outcomes_updated_at == db_stamp(self.outcomes_updated_at)
                    && w.outcomes_updated_by == db_uuid(self.outcomes_updated_by)
                    && w.recommendations_updated_at == db_stamp(self.recommendations_updated_at)
                    && w.recommendations_updated_by == db_uuid(self.recommendations_updated_by)
                    && w.challenge_resolution_updated_at == db_stamp(self.challenge_resolution_updated_at)
                    && w.challenge_resolution_updated_by == db_uuid(self.challenge_resolution_updated_by)
                    && w.created_at == rfc3339_stamp(self.created_at@).unwrap()
                    && w.updated_at == rfc3339_stamp(self.updated_at@).unwrap()
                    && w.created_by_user_id == db_uuid(self.created_by_user_id)
                    && w.updated_by_user_id == db_uuid(self.updated_by_user_id)
                    && w.deleted_at == db_stamp(self.deleted_at)
                    && w.deleted_by_user_id == db_uuid(self.deleted_by_user_id)
                    && w.purpose == self.purpose
                    && w.event_date == self.event_date
                    && w.location == self.location
                    && w.local_partner == self.local_partner
                    && w.partner_responsibility == self.partner_responsibility
                    && w.partnership_success == self.partnership_success
                    && w.capacity_challenges == self.capacity_challenges
                    && w.strengths == self.strengths
                    && w.outcomes == self.outcomes
                    && w.recommendations == self.recommendations
                    && w.challenge_resolution == self.challenge_resolution
                    && w.participant_count == self.participant_count
                    && w.sync_priority == priority_of_level(self.sync_priority),
                Some(f) => r matches Err(e) && reports(e, f),
            },
    {
        let row = self;
        let id = match read_named_uuid(row.id.as_str(), "Invalid UUID format for Workshop.id") {
            Ok(v) => v,
            Err(e) => return Err(e),
        };
        let project_id = match read_db_uuid(&row.project_id) {
            Ok(v) => v,
            Err(e) => return Err(e),
        };
        let purpose_updated_at = match read_db_stamp(&row.purpose_updated_at) {
            Ok(v) => v,
            Err(e) => return Err(e),
        };
        let purpose_updated_by = match read_db_uuid(&row.purpose_updated_by) {
            Ok(v) => v,
            Err(e) => return Err(e),
        };
        let event_date_updated_at = match read_db_stamp(&row.event_date_updated_at) {
            Ok(v) => v,
            Err(e) => return Err(e),
        };
        let event_date_updated_by = match read_db_uuid(&row.event_date_updated_by) {
            Ok(v) => v,
            Err(e) => return Err(e),
        };
        let location_updated_at = match read_db_stamp(&row.location_updated_at) {
            Ok(v) => v,
            Err(e) => return Err(e),
        };
        let location_updated_by = match read_db_uuid(&row.location_updated_by) {
            Ok(v) => v,
            Err(e) => return Err(e),
        };
        let budget = match read_db_amount(&row.budget) {
            Ok(v) => v,
            Err(e) => return Err(e),
        };
        let budget_updated_at = match read_db_stamp(&row.budget_updated_at) {
            Ok(v) => v,
            Err(e) => return Err(e),
        };
        let budget_updated_by = match read_db_uuid(&row.budget_updated_by) {
            Ok(v) => v,
            Err(e) => return Err(e),
        };
        let actuals = match read_db_amount(&row.actuals) {
            Ok(v) => v,
            Err(e) => return Err(e),
        };
        let actuals_updated_at = match read_db_stamp(&row.actuals_updated_at) {
            Ok(v) => v,
            Err(e) => return Err(e),
        };
        let actuals_updated_by = match read_db_uuid(&row.actuals_updated_by) {
            Ok(v) => v,
            Err(e) => return Err(e),
        };
        let participant_count_updated_at = match read_db_stamp(&row.participant_count_updated_at) {
            Ok(v) => v,
            Err(e) => return Err(e),
        };
        let participant_count_updated_by = match read_db_uuid(&row.participant_count_updated_by) {
            Ok(v) => v,
            Err(e) => return Err(e),
        };
        let local_partner_updated_at = match read_db_stamp(&row.local_partner_updated_at) {
            Ok(v) => v,
            Err(e) => return Err(e),
        };
        let local_partner_updated_by = match read_db_uuid(&row.local_partner_updated_by) {
            Ok(v) => v,
            Err(e) => return Err(e),
        };
        let partner_responsibility_updated_at = match read_db_stamp(&row.partner_responsibility_updated_at) {
            Ok(v) => v,
            Err(e) => return Err(e),
        };
        let partner_responsibility_updated_by = match read_db_uuid(&row.partner_responsibility_updated_by) {
            Ok(v) => v,
            Err(e) => return Err(e),
        };
        let partnership_success_updated_at = match read_db_stamp(&row.partnership_success_updated_at) {
            Ok(v) => v,
            Err(e) => return Err(e),
        };
        let partnership_success_updated_by = match read_db_uuid(&row.partnership_success_updated_by) {
            Ok(v) => v,
            Err(e) => return Err(e),
        };
        let capacity_challenges_updated_at = match read_db_stamp(&row.capacity_challenges_updated_at) {
            Ok(v) => v,
            Err(e) => return Err(e),
        };
        let capacity_challenges_updated_by = match read_db_uuid(&row.capacity_challenges_updated_by) {
            Ok(v) => v,
            Err(e) => return Err(e),
        };
        let strengths_updated_at = match read_db_stamp(&row.strengths_updated_at) {
            Ok(v) => v,
            Err(e) => return Err(e),
        };
        let strengths_updated_by = match read_db_uuid(&row.strengths_updated_by) {
            Ok(v) => v,
            Err(e) => return Err(e),
        };
        let outcomes_updated_at = match read_db_stamp(&row.outcomes_updated_at) {
            Ok(v) => v,
            Err(e) => return Err(e),
        };
        let outcomes_updated_by = match read_db_uuid(&row.outcomes_updated_by) {
            Ok(v) => v,
            Err(e) => return Err(e),
        };
        let recommendations_updated_at = match read_db_stamp(&row.recommendations_updated_at) {
            Ok(v) => v,
            Err(e) => return Err(e),
        };
        let recommendations_updated_by = match read_db_uuid(&row.recommendations_updated_by) {
            Ok(v) => v,
            Err(e) => return Err(e),
        };
        let challenge_resolution_updated_at = match read_db_stamp(&row.challenge_resolution_updated_at) {
            Ok(v) => v,
            Err(e) => return Err(e),
        };
        let challenge_resolution_updated_by = match read_db_uuid(&row.challenge_resolution_updated_by) {
            Ok(v) => v,
            Err(e) => return Err(e),
        };
        let created_at = match read_named_stamp(row.created_at.as_str(), "Invalid RFC3339 format for Workshop.created_at") {
            Ok(v) => v,
            Err(e) => return Err(e),
        };
        let updated_at = match read_named_stamp(row.updated_at.as_str(), "Invalid RFC3339 format for Workshop.updated_at") {
            Ok(v) => v,
            Err(e) => return Err(e),
        };
        let created_by_user_id = match read_db_uuid(&row.created_by_user_id) {
            Ok(v) => v,
            Err(e) => return Err(e),
        };
        let updated_by_user_id = match read_db_uuid(&row.updated_by_user_id) {
            Ok(v) => v,
            Err(e) => return Err(e),
        };
        let deleted_at = match read_db_stamp(&row.deleted_at) {
            Ok(v) => v,
            Err(e) => return Err(e),
        };
        let deleted_by_user_id = match read_db_uuid(&row.deleted_by_user_id) {
            Ok(v) => v,
            Err(e) => return Err(e),
        };
        Ok(Workshop {
            id,
            project_id,
            purpose: row.purpose,
            purpose_updated_at,
            purpose_updated_by,
            event_date: row.event_date,
            event_date_updated_at,
            event_date_updated_by,
            location: row.location,
            location_updated_at,
            location_updated_by,
            budget,
            budget_updated_at,
            budget_updated_by,
            actuals,
            actuals_updated_at,
            actuals_updated_by,
            participant_count: row.participant_count,
            participant_count_updated_at,
            participant_count_updated_by,
            local_partner: row.local_partner,
            local_partner_updated_at,
            local_partner_updated_by,
            partner_responsibility: row.partner_responsibility,
            partner_responsibility_updated_at,
            partner_responsibility_updated_by,
            partnership_success: row.partnership_success,
            partnership_success_updated_at,
            partnership_success_updated_by,
            capacity_challenges: row.capacity_challenges,
            capacity_challenges_updated_at,
            capacity_challenges_updated_by,
            strengths: row.strengths,
            strengths_updated_at,
            strengths_updated_by,
            outcomes: row.outcomes,
            outcomes_updated_at,
            outcomes_updated_by,
            recommendations: row.recommendations,
            recommendations_updated_at,
            recommendations_updated_by,
            challenge_resolution: row.challenge_resolution,
            challenge_resolution_updated_at,
            challenge_resolution_updated_by,
            created_at,
            updated_at,
            created_by_user_id,
            updated_by_user_id,
            deleted_at,
            deleted_by_user_id,
            sync_priority: priority_from_level(row.sync_priority),
        })
    }
}
/// A workshop in brief.
#[derive(Clone, Debug)]
pub struct WorkshopSummary {
    pub id: u128,
    pub purpose: Option<String>,
    pub event_date: Option<String>,
    pub location: Option<String>,
    pub participant_count: i64,
}

impl WorkshopSummary {
    pub fn from(workshop: Workshop) -> (r: WorkshopSummary)
        ensures
            r.id == workshop.id,
            r.purpose == workshop.purpose,
            r.event_date == workshop.event_date,
            r.location == workshop.location,
            r.participant_count == workshop.participant_count,
    {
        WorkshopSummary {
            id: workshop.id,
            purpose: workshop.purpose,
            event_date: workshop.event_date,
            location: workshop.location,
            participant_count: workshop.participant_count,
        }
    }
}

/// A workshop in brief as a query gives it, with its identifier as text.
#[derive(Clone, Debug)]
pub struct WorkshopSummaryRow {
    pub id: String,
    pub purpose: Option<String>,
    pub event_date: Option<String>,
    pub location: Option<String>,
    pub participant_count: i64,
}

/// True when a summary holds exactly what a readable row says.
pub open spec fn summary_of_row(s: WorkshopSummary, row: WorkshopSummaryRow) -> bool {
    &&& s.id == uuid_parsed(row.id@).unwrap()
    &&& s.purpose == row.purpose
    &&& s.event_date == row.event_date
    &&& s.location == row.location
    &&& s.participant_count == row.participant_count
}

/// True when the error reports the unreadable identifier of a summary row.
pub open spec fn reports_summary_id(e: DomainError, row: WorkshopSummaryRow) -> bool {
    e matches DomainError::Internal(m) && m@ == "Invalid UUID format: "@ + row.id@
}

impl WorkshopSummaryRow {
    /// Reads the summary; an identifier that is no UUID is an internal error.
    pub fn into_summary(self) -> (r: Result<WorkshopSummary, DomainError>)
        ensures
            match uuid_parsed(self.id@) {
                Some(_) => r matches Ok(s) && summary_of_row(s, self),
                None => r matches Err(e) && reports_summary_id(e, self),
            },
    {
        match parse_uuid_text(self.id.as_str()) {
            Some(id) => Ok(WorkshopSummary {
                id,
                purpose: self.purpose,
                event_date: self.event_date,
                location: self.location,
                participant_count: self.participant_count,
            }),
            None => Err(DomainError::Internal(join2("Invalid UUID format: ", self.id.as_str()))),
        }
    }
}

/// Reads the summaries of a query in order; the first row whose identifier cannot be
/// read gives the error.
pub fn read_workshop_summaries(rows: Vec<WorkshopSummaryRow>) -> (r: Result<Vec<WorkshopSummary>, DomainError>)
    ensures
        (forall|i: int| 0 <= i < rows@.len() ==> uuid_parsed(#[trigger] rows@[i].id@) is Some) ==> (r matches Ok(v)
            && v@.len() == rows@.len()
            && forall|i: int| 0 <= i < rows@.len() ==> summary_of_row(#[trigger] v@[i], rows@[i])),
        r is Err ==> exists|k: int| 0 <= k < rows@.len()
            && (forall|i: int| 0 <= i < k ==> uuid_parsed(#[trigger] rows@[i].id@) is Some)
            && uuid_parsed(rows@[k].id@) is None
            && (r matches Err(e) && reports_summary_id(e, #[trigger] rows@[k])),
        (exists|k: int| 0 <= k < rows@.len() && uuid_parsed(#[trigger] rows@[k].id@) is None) ==> r is Err,
{
    let mut rest = rows;
    let mut out: Vec<WorkshopSummary> = Vec::new();
    let mut i: usize = 0;
    let n = rest.len();
    while i < n
        invariant
            n == rows@.len(),
            i <= n,
            rest@ == rows@.subrange(i as int, n as int),
            out@.len() == i,
            forall|j: int| 0 <= j < i ==> uuid_parsed(#[trigger] rows@[j].id@) is Some,
            forall|j: int| 0 <= j < i ==> summary_of_row(#[trigger] out@[j], rows@[j]),
        decreases n - i,
    {
        let row = rest.remove(0);
        proof {
            assert(row == rows@[i as int]);
            assert(rest@ =~= rows@.subrange(i as int + 1, n as int));
        }
        match row.into_summary() {
            Ok(s) => out.push(s),
            Err(e) => return Err(e),
        }
        i = i + 1;
    }
    Ok(out)
}

/// A project in brief, as a workshop's view shows it.
#[derive(Clone, Debug)]
pub struct ProjectSummary {
    pub id: u128,
    pub name: String,
}

/// A participant of a workshop, as the workshop's view shows it.
#[derive(Clone, Debug)]
pub struct ParticipantSummary {
    pub id: u128,
    pub name: String,
    pub gender: Option<String>,
    pub age_group: Option<String>,
    pub disability: bool,
    pub pre_evaluation: Option<String>,
    pub post_evaluation: Option<String>,
}

/// The public view of a workshop, with its budget figures.
#[derive(Clone, Debug)]
pub struct WorkshopResponse {
    pub id: u128,
    pub project_id: Option<u128>,
    pub project: Option<ProjectSummary>,
    pub purpose: Option<String>,
    pub event_date: Option<String>,
    pub location: Option<String>,
    pub budget: Option<Amount>,
    pub actuals: Option<Amount>,
    pub variance: Option<Amount>,
    pub variance_percentage: Option<Amount>,
    pub participant_count: i64,
    pub local_partner: Option<String>,
    pub partner_responsibility: Option<String>,
    pub partnership_success: Option<String>,
    pub capacity_challenges: Option<String>,
    pub strengths: Option<String>,
    pub outcomes: Option<String>,
    pub recommendations: Option<String>,
    pub challenge_resolution: Option<String>,
    pub created_at: String,
    pub updated_at: String,
    pub is_past: bool,
    pub participants: Option<Vec<ParticipantSummary>>,
}

/// True when a view shows the workshop, with its figures computed and no related data.
pub open spec fn shows(r: WorkshopResponse, w: Workshop) -> bool {
    &&& r.id == w.id
    &&& r.project_id == w.project_id
    &&& r.project is None
    &&& r.purpose == w.purpose
    &&& r.event_date == w.event_date
    &&& r.location == w.location
    &&& r.budget == w.budget
    &&& r.actuals == w.actuals
    &&& amount_parts(r.variance) == match variance_of(w) { Some(Some(p)) => Some(p), _ => None }
    &&& amount_parts(r.variance_percentage) == match variance_percentage_of(w) { Some(Some(p)) => Some(p), _ => None }
    &&& r.participant_count == w.participant_count
    &&& r.local_partner == w.local_partner
    &&& r.partner_responsibility == w.partner_responsibility
    &&& r.partnership_success == w.partnership_success
    &&& r.capacity_challenges == w.capacity_challenges
    &&& r.strengths == w.strengths
    &&& r.outcomes == w.outcomes
    &&& r.recommendations == w.recommendations
    &&& r.challenge_resolution == w.challenge_resolution
    &&& r.created_at@ == w.created_at.text()
    &&& r.updated_at@ == w.updated_at.text()
    &&& (w.event_date is None ==> !r.is_past)
    &&& exists|today: (i32, u32, u32)| r.is_past == #[trigger] w.past_on(today)
    &&& r.participants is None
}

impl WorkshopResponse {
    /// The view of a workshop whose budget figures can be computed; whether it is past
    /// is judged against the local date of today.
    pub fn from_workshop(workshop: Workshop) -> (r: WorkshopResponse)
        requires
            figures_computable(workshop),
        ensures
            shows(r, workshop),
    {
        let variance = workshop.budget_variance();
        let variance_percentage = workshop.budget_variance_percentage();
        let is_past = workshop.is_past();
        let created_at = workshop.created_at.to_rfc3339();
        let updated_at = workshop.updated_at.to_rfc3339();
        WorkshopResponse {
            id: workshop.id,
            project_id: workshop.project_id,
            project: None,
            purpose: workshop.purpose,
            event_date: workshop.event_date,
            location: workshop.location,
            budget: workshop.budget,
            actuals: workshop.actuals,
            variance,
            variance_percentage,
            participant_count: workshop.participant_count,
            local_partner: workshop.local_partner,
            partner_responsibility: workshop.partner_responsibility,
            partnership_success: workshop.partnership_success,
            capacity_challenges: workshop.capacity_challenges,
            strengths: workshop.strengths,
            outcomes: workshop.outcomes,
            recommendations: workshop.recommendations,
            challenge_resolution: workshop.challenge_resolution,
            created_at,
            updated_at,
            is_past,
            participants: None,
        }
    }

    /// The view of a workshop, or `None` when its budget figures overflow.
    pub fn try_from_workshop(workshop: Workshop) -> (r: Option<WorkshopResponse>)
        ensures
            r is Some <==> figures_computable(workshop),
            r matches Some(v) ==> shows(v, workshop),
    {
        let v = workshop.checked_budget_variance();
        let p = workshop.checked_budget_variance_percentage();
        if matches!(v, Some(None)) || matches!(p, Some(None)) {
            return None;
        }
        Some(WorkshopResponse::from_workshop(workshop))
    }

    /// The view with the workshop's project.
    pub fn with_project(self, project: ProjectSummary) -> (r: WorkshopResponse)
        ensures
            r == (WorkshopResponse { project: Some(project), ..self }),
    {
        let mut r = self;
        r.project = Some(project);
        r
    }

    /// The view with the workshop's participants.
    pub fn with_participants(self, participants: Vec<ParticipantSummary>) -> (r: WorkshopResponse)
        ensures
            r == (WorkshopResponse { participants: Some(participants), ..self }),
    {
        let mut r = self;
        r.participants = Some(participants);
        r
    }
}

/// Related data to fetch with workshops.
#[derive(Clone, Copy, Debug, PartialEq, Eq, Structural)]
pub enum WorkshopInclude {
    Project,
    Participants,
    Documents,
    All,
}

/// The fields of a workshop that an update can set.
#[derive(Clone, Copy, Debug, PartialEq, Eq, Structural)]
pub enum WorkshopColumn {
    ProjectId,
    Purpose,
    EventDate,
    Location,
    Budget,
    Actuals,
    ParticipantCount,
    LocalPartner,
    PartnerResponsibility,
    PartnershipSuccess,
    CapacityChallenges,
    Strengths,
    Outcomes,
    Recommendations,
    ChallengeResolution,
}

impl WorkshopColumn {
    /// The column and change-log name of the field.
    pub open spec fn name(self) -> Seq<char> {
        match self {
            WorkshopColumn::ProjectId => "project_id"@,
            WorkshopColumn::Purpose => "purpose"@,
            WorkshopColumn::EventDate => "event_date"@,
            WorkshopColumn::Location => "location"@,
            WorkshopColumn::Budget => "budget"@,
            WorkshopColumn::Actuals => "actuals"@,
            WorkshopColumn::ParticipantCount => "participant_count"@,
            WorkshopColumn::LocalPartner => "local_partner"@,
            WorkshopColumn::PartnerResponsibility => "partner_responsibility"@,
            WorkshopColumn::PartnershipSuccess => "partnership_success"@,
            WorkshopColumn::CapacityChallenges => "capacity_challenges"@,
            WorkshopColumn::Strengths => "strengths"@,
            WorkshopColumn::Outcomes => "outcomes"@,
            WorkshopColumn::Recommendations => "recommendations"@,
            WorkshopColumn::ChallengeResolution => "challenge_resolution"@,
        }
    }

    pub fn as_str(&self) -> (r: &'static str)
        ensures
            r@ == self.name(),
    {
        match self {
            WorkshopColumn::ProjectId => "project_id",
            WorkshopColumn::Purpose => "purpose",
            WorkshopColumn::EventDate => "event_date",
            WorkshopColumn::Location => "location",
            WorkshopColumn::Budget => "budget",
            WorkshopColumn::Actuals => "actuals",
            WorkshopColumn::ParticipantCount => "participant_count",
            WorkshopColumn::LocalPartner => "local_partner",
            WorkshopColumn::PartnerResponsibility => "partner_responsibility",
            WorkshopColumn::PartnershipSuccess => "partnership_success",
            WorkshopColumn::CapacityChallenges => "capacity_challenges",
            WorkshopColumn::Strengths => "strengths",
            WorkshopColumn::Outcomes => "outcomes",
            WorkshopColumn::Recommendations => "recommendations",
            WorkshopColumn::ChallengeResolution => "challenge_resolution",
        }
    }
}

/// True when two optional texts read the same.
pub open spec fn same_opt_text(a: Option<String>, b: Option<String>) -> bool {
    match (a, b) {
        (Some(x), Some(y)) => x@ == y@,
        (None, None) => true,
        _ => false,
    }
}

pub(crate) fn opt_text_eq(a: &Option<String>, b: &Option<String>) -> (r: bool)
    ensures
        r == same_opt_text(*a, *b),
{
    match (a, b) {
        (Some(x), Some(y)) => crate::text::same_text(x.as_str(), y.as_str()),
        (None, None) => true,
        _ => false,
    }
}

/// True when two optional amounts are both missing, or the same number.
pub open spec fn same_opt_amount(a: Option<Amount>, b: Option<Amount>) -> bool {
    match (a, b) {
        (Some(x), Some(y)) => same_value(x.parts(), y.parts()),
        (None, None) => true,
        _ => false,
    }
}

fn opt_amount_eq(a: &Option<Amount>, b: &Option<Amount>) -> (r: bool)
    ensures
        r == same_opt_amount(*a, *b),
{
    match (a, b) {
        (Some(x), Some(y)) => x.same_value_as(y),
        (None, None) => true,
        _ => false,
    }
}

/// Every field an update can set, in the order they are written and logged.
pub open spec fn all_columns() -> Seq<WorkshopColumn> {
    seq![WorkshopColumn::ProjectId, WorkshopColumn::Purpose, WorkshopColumn::EventDate, WorkshopColumn::Location, WorkshopColumn::Budget, WorkshopColumn::Actuals, WorkshopColumn::ParticipantCount, WorkshopColumn::LocalPartner, WorkshopColumn::PartnerResponsibility, WorkshopColumn::PartnershipSuccess, WorkshopColumn::CapacityChallenges, WorkshopColumn::Strengths, WorkshopColumn::Outcomes, WorkshopColumn::Recommendations, WorkshopColumn::ChallengeResolution]
}

fn all_columns_vec() -> (r: Vec<WorkshopColumn>)
    ensures
        r@ == all_columns(),
{
    let mut r: Vec<WorkshopColumn> = Vec::new();
    r.push(WorkshopColumn::ProjectId);
    r.push(WorkshopColumn::Purpose);
    r.push(WorkshopColumn::EventDate);
    r.push(WorkshopColumn::Location);
    r.push(WorkshopColumn::Budget);
    r.push(WorkshopColumn::Actuals);
    r.push(WorkshopColumn::ParticipantCount);
    r.push(WorkshopColumn::LocalPartner);
    r.push(WorkshopColumn::PartnerResponsibility);
    r.push(WorkshopColumn::PartnershipSuccess);
    r.push(WorkshopColumn::CapacityChallenges);
    r.push(WorkshopColumn::Strengths);
    r.push(WorkshopColumn::Outcomes);
    r.push(WorkshopColumn::Recommendations);
    r.push(WorkshopColumn::ChallengeResolution);
    assert(r@ =~= all_columns());
    r
}

/// True when an update sets the field.
pub open spec fn column_set(u: UpdateWorkshop, c: WorkshopColumn) -> bool {
    match c {
        WorkshopColumn::ProjectId => u.project_id is Some,
        WorkshopColumn::Purpose => u.purpose is Some,
        WorkshopColumn::EventDate => u.event_date is Some,
        WorkshopColumn::Location => u.location is Some,
        WorkshopColumn::Budget => u.budget is Some,
        WorkshopColumn::Actuals => u.actuals is Some,
        WorkshopColumn::ParticipantCount => u.participant_count is Some,
        WorkshopColumn::LocalPartner => u.local_partner is Some,
        WorkshopColumn::PartnerResponsibility => u.partner_responsibility is Some,
        WorkshopColumn::PartnershipSuccess => u.partnership_success is Some,
        WorkshopColumn::CapacityChallenges => u.capacity_challenges is Some,
        WorkshopColumn::Strengths => u.strengths is Some,
        WorkshopColumn::Outcomes => u.outcomes is Some,
        WorkshopColumn::Recommendations => u.recommendations is Some,
        WorkshopColumn::ChallengeResolution => u.challenge_resolution is Some,
    }
}

/// The fields an update sets, in the order they are written.
pub open spec fn set_columns(u: UpdateWorkshop) -> Seq<WorkshopColumn> {
    all_columns().filter(|c: WorkshopColumn| column_set(u, c))
}

/// True when the field's value differs between two states of a workshop (amounts
/// differ when they are different numbers).
pub open spec fn column_changed(old: Workshop, new: Workshop, c: WorkshopColumn) -> bool {
    match c {
        WorkshopColumn::ProjectId => old.project_id != new.project_id,
        WorkshopColumn::Purpose => !same_opt_text(old.purpose, new.purpose),
        WorkshopColumn::EventDate => !same_opt_text(old.event_date, new.event_date),
        WorkshopColumn::Location => !same_opt_text(old.location, new.location),
        WorkshopColumn::Budget => !same_opt_amount(old.budget, new.budget),
        WorkshopColumn::Actuals => !same_opt_amount(old.actuals, new.actuals),
        WorkshopColumn::ParticipantCount => old.participant_count != new.participant_count,
        WorkshopColumn::LocalPartner => !same_opt_text(old.local_partner, new.local_partner),
        WorkshopColumn::PartnerResponsibility => !same_opt_text(old.partner_responsibility, new.partner_responsibility),
        WorkshopColumn::PartnershipSuccess => !same_opt_text(old.partnership_success, new.partnership_success),
        WorkshopColumn::CapacityChallenges => !same_opt_text(old.capacity_challenges, new.capacity_challenges),
        WorkshopColumn::Strengths => !same_opt_text(old.strengths, new.strengths),
        WorkshopColumn::Outcomes => !same_opt_text(old.outcomes, new.outcomes),
        WorkshopColumn::Recommendations => !same_opt_text(old.recommendations, new.recommendations),
        WorkshopColumn::ChallengeResolution => !same_opt_text(old.challenge_resolution, new.challenge_resolution),
    }
}

/// The fields whose values differ between two states of a workshop, in the order they
/// are logged.
pub open spec fn changed_columns(old: Workshop, new: Workshop) -> Seq<WorkshopColumn> {
    all_columns().filter(|c: WorkshopColumn| column_changed(old, new, c))
}

impl UpdateWorkshop {
    /// True when this update sets the field.
    pub fn sets(&self, c: WorkshopColumn) -> (r: bool)
        ensures
            r == column_set(*self, c),
    {
        match c {
            WorkshopColumn::ProjectId => self.project_id.is_some(),
            WorkshopColumn::Purpose => self.purpose.is_some(),
            WorkshopColumn::EventDate => self.event_date.is_some(),
            WorkshopColumn::Location => self.location.is_some(),
            WorkshopColumn::Budget => self.budget.is_some(),
            WorkshopColumn::Actuals => self.actuals.is_some(),
            WorkshopColumn::ParticipantCount => self.participant_count.is_some(),
            WorkshopColumn::LocalPartner => self.local_partner.is_some(),
            WorkshopColumn::PartnerResponsibility => self.partner_responsibility.is_some(),
            WorkshopColumn::PartnershipSuccess => self.partnership_success.is_some(),
            WorkshopColumn::CapacityChallenges => self.capacity_challenges.is_some(),
            WorkshopColumn::Strengths => self.strengths.is_some(),
            WorkshopColumn::Outcomes => self.outcomes.is_some(),
            WorkshopColumn::Recommendations => self.recommendations.is_some(),
            WorkshopColumn::ChallengeResolution => self.challenge_resolution.is_some(),
        }
    }

    /// The fields this update sets, in the order they are written; an update that sets
    /// none leaves the workshop as it is.
    pub fn set_columns(&self) -> (r: Vec<WorkshopColumn>)
        ensures
            r@ == set_columns(*self),
    {
        let all = all_columns_vec();
        let ghost pred = |c: WorkshopColumn| column_set(*self, c);
        let mut r: Vec<WorkshopColumn> = Vec::new();
        let mut i: usize = 0;
        while i < all.len()
            invariant
                all@ == all_columns(),
                pred == (|c: WorkshopColumn| column_set(*self, c)),
                i <= all@.len(),
                r@ == all@.take(i as int).filter(pred),
            decreases all@.len() - i,
        {
            let c = all[i];
        proof {
            let next = all@.take(i as int + 1);
            assert(next.drop_last() =~= all@.take(i as int));
            assert(next.last() == c);
            assert(next.filter(pred) == (if pred(c) { all@.take(i as int).filter(pred).push(c) } else {
                all@.take(i as int).filter(pred) })) by {
                reveal(Seq::filter);
            }
        }
        if self.sets(c) {
                r.push(c);
            }
            i = i + 1;
        }
        proof {
            assert(all@.take(all@.len() as int) =~= all@);
        }
        r
    }
}

/// True when the field's value differs between two states of a workshop.
pub fn column_differs(old: &Workshop, new: &Workshop, c: WorkshopColumn) -> (r: bool)
    ensures
        r == column_changed(*old, *new, c),
{
    match c {
        WorkshopColumn::ProjectId => old.project_id != new.project_id,
        WorkshopColumn::Purpose => !opt_text_eq(&old.purpose, &new.purpose),
        WorkshopColumn::EventDate => !opt_text_eq(&old.event_date, &new.event_date),
        WorkshopColumn::Location => !opt_text_eq(&old.location, &new.location),
        WorkshopColumn::Budget => !opt_amount_eq(&old.budget, &new.budget),
        WorkshopColumn::Actuals => !opt_amount_eq(&old.actuals, &new.actuals),
        WorkshopColumn::ParticipantCount => old.participant_count != new.participant_count,
        WorkshopColumn::LocalPartner => !opt_text_eq(&old.local_partner, &new.local_partner),
        WorkshopColumn::PartnerResponsibility => !opt_text_eq(&old.partner_responsibility, &new.partner_responsibility),
        WorkshopColumn::PartnershipSuccess => !opt_text_eq(&old.partnership_success, &new.partnership_success),
        WorkshopColumn::CapacityChallenges => !opt_text_eq(&old.capacity_challenges, &new.capacity_challenges),
        WorkshopColumn::Strengths => !opt_text_eq(&old.strengths, &new.strengths),
        WorkshopColumn::Outcomes => !opt_text_eq(&old.outcomes, &new.outcomes),
        WorkshopColumn::Recommendations => !opt_text_eq(&old.recommendations, &new.recommendations),
        WorkshopColumn::ChallengeResolution => !opt_text_eq(&old.challenge_resolution, &new.challenge_resolution),
    }
}

/// The fields whose values differ between the state before and after an update, each
/// of which gets a change-log entry.
pub fn changed_workshop_columns(old: &Workshop, new: &Workshop) -> (r: Vec<WorkshopColumn>)
    ensures
        r@ == changed_columns(*old, *new),
{
    let all = all_columns_vec();
    let ghost pred = |c: WorkshopColumn| column_changed(*old, *new, c);
    let mut r: Vec<WorkshopColumn> = Vec::new();
    let mut i: usize = 0;
    while i < all.len()
        invariant
            all@ == all_columns(),
            pred == (|c: WorkshopColumn| column_changed(*old, *new, c)),
            i <= all@.len(),
            r@ == all@.take(i as int).filter(pred),
        decreases all@.len() - i,
    {
        let c = all[i];
        proof {
            let next = all@.take(i as int + 1);
            assert(next.drop_last() =~= all@.take(i as int));
            assert(next.last() == c);
            assert(next.filter(pred) == (if pred(c) { all@.take(i as int).filter(pred).push(c) } else {
                all@.take(i as int).filter(pred) })) by {
                reveal(Seq::filter);
            }
        }
        if column_differs(old, new, c) {
            r.push(c);
        }
        i = i + 1;
    }
    proof {
        assert(all@.take(all@.len() as int) =~= all@);
    }
    r
}

/// The participant count after one more participant joins, with the pair (old, new)
/// that the change log records.
pub fn incremented_count(old: i64) -> (r: i64)
    requires
        old < i64::MAX,
    ensures
        r == old + 1,
{
    old + 1
}

/// The participant count after one participant leaves, which never goes below zero,
/// and whether the change is logged: only when there was a participant to leave.
pub fn decremented_count(old: i64) -> (r: (i64, bool))
    ensures
        r.0 == (if old > 0 { old - 1 } else { 0 }),
        r.1 == (old > 0),
{
    if old > 0 {
        (old - 1, true)
    } else {
        (0, false)
    }
}

/// What the local store is to do with a remote change to a workshop.
#[derive(Clone, Debug)]
pub enum WorkshopMergeAction {
    /// Write the remote state, replacing any local row.
    Upsert(Workshop),
    /// Delete the local row of the workshop the change names.
    Remove,
    Nothing,
}

/// True when the remote change carries a workshop state to read.
pub open spec fn carries_workshop(c: ChangeLogEntry) -> bool {
    (c.operation_type == ChangeOperationType::Create || c.operation_type == ChangeOperationType::Update)
        && c.new_value is Some
}

/// True when the remote change carries a workshop state to read.
pub fn change_carries_state(c: &ChangeLogEntry) -> (r: bool)
    ensures
        r == carries_workshop(*c),
{
    let kind_carries = match c.operation_type {
        ChangeOperationType::Create | ChangeOperationType::Update => true,
        _ => false,
    };
    kind_carries && c.new_value.is_some()
}

/// True when a remote workshop state is written over the local copy: when there is
/// none, or the remote state was updated strictly later.
pub open spec fn remote_workshop_wins(remote: Workshop, local: Option<Workshop>) -> bool {
    match local {
        Some(l) => remote.updated_at.later_than(l.updated_at),
        None => true,
    }
}

/// Decides how a remote change to a workshop is merged, given the state it carries (read
/// from its new value, or the reader's error) and the local workshop with that state's
/// identifier (for a hard deletion, the one the change names). A creation or update
/// without a value is refused; the remote state is written when there is no local copy
/// or it is strictly newer. Soft deletions are ignored; a hard deletion removes the
/// local workshop, if there is one, and is reported as done.
pub fn plan_workshop_merge(
    change: &ChangeLogEntry,
    remote: Option<Result<Workshop, String>>,
    local: Option<Workshop>,
) -> (r: Result<(WorkshopMergeAction, MergeOutcome), DomainError>)
    requires
        remote is Some <==> carries_workshop(*change),
    ensures
        (change.operation_type == ChangeOperationType::Create || change.operation_type == ChangeOperationType::Update)
            ==> match remote {
                None => r matches Err(DomainError::Validation(ValidationError::Custom(m)))
                    && m@ == "Missing new_value for workshop change"@,
                Some(Err(detail)) => r matches Err(DomainError::Validation(ValidationError::Format { field: f, reason: m }))
                    && f@ == "new_value_workshop"@ && m@ == "Invalid JSON: "@ + detail@,
                Some(Ok(w)) => if !remote_workshop_wins(w, local) {
                    r matches Ok((WorkshopMergeAction::Nothing, MergeOutcome::NoOp(m))) && m@ == "Local copy newer or equal"@
                } else if local is Some {
                    r matches Ok((WorkshopMergeAction::Upsert(x), MergeOutcome::Updated(id))) && x == w && id == w.id
                } else {
                    r matches Ok((WorkshopMergeAction::Upsert(x), MergeOutcome::Created(id))) && x == w && id == w.id
                },
            },
        change.operation_type == ChangeOperationType::Delete ==> (r matches Ok((WorkshopMergeAction::Nothing, MergeOutcome::NoOp(m)))
            && m@ == "Remote soft delete ignored"@),
        change.operation_type == ChangeOperationType::HardDelete ==> (r matches Ok((a, MergeOutcome::HardDeleted(id)))
            && id == change.entity_id
            && (if local is Some { a is Remove } else { a is Nothing })),
{
    match change.operation_type {
        ChangeOperationType::Create | ChangeOperationType::Update => {
            let w = match remote {
                Some(Ok(w)) => w,
                Some(Err(detail)) => return Err(DomainError::Validation(ValidationError::Format {
                    field: String::from_str("new_value_workshop"),
                    reason: join2("Invalid JSON: ", detail.as_str()),
                })),
                None => return Err(DomainError::Validation(ValidationError::custom("Missing new_value for workshop change"))),
            };
            match local {
                Some(l) => if w.updated_at.is_later_than(&l.updated_at) {
                    let id = w.id;
                    Ok((WorkshopMergeAction::Upsert(w), MergeOutcome::Updated(id)))
                } else {
                    Ok((WorkshopMergeAction::Nothing, MergeOutcome::NoOp(String::from_str("Local copy newer or equal"))))
                },
                None => {
                    let id = w.id;
                    Ok((WorkshopMergeAction::Upsert(w), MergeOutcome::Created(id)))
                },
            }
        },
        ChangeOperationType::Delete => Ok((WorkshopMergeAction::Nothing, MergeOutcome::NoOp(String::from_str("Remote soft delete ignored")))),
        ChangeOperationType::HardDelete => {
            let action = if local.is_some() { WorkshopMergeAction::Remove } else { WorkshopMergeAction::Nothing };
            Ok((action, MergeOutcome::HardDeleted(change.entity_id)))
        },
    }
}

/// Merging the same remote workshop state twice writes it once: after the state has been
/// written, it is no longer strictly newer than the local copy.
pub proof fn workshop_merge_is_idempotent(w: Workshop)
    ensures
        remote_workshop_wins(w, None),
        !remote_workshop_wins(w, Some(w)),
{
}

/// A remote workshop state never replaces a local copy that was updated at the same
/// instant or later.
pub proof fn stale_workshop_state_keeps_local(w: Workshop, l: Workshop)
    requires
        !w.updated_at.later_than(l.updated_at),
    ensures
        !remote_workshop_wins(w, Some(l)),
{
}

/// A workshop whose state is the same before and after an update gets no change-log
/// entry.
pub proof fn unchanged_workshop_logs_nothing(w: Workshop)
    ensures
        changed_columns(w, w) == Seq::<WorkshopColumn>::empty(),
{
    let pred = |c: WorkshopColumn| column_changed(w, w, c);
    let f = all_columns().filter(pred);
    if f.len() > 0 {
        all_columns().lemma_filter_pred(pred, 0);
        assert(!pred(f[0]));
    }
    assert(f =~= Seq::<WorkshopColumn>::empty());
}

/// The fields of a workshop as documents see them, in order.
pub open spec fn workshop_field_table() -> Seq<EntityFieldMetadata> {
    seq![
        EntityFieldMetadata { field_name: "purpose", display_name: "Purpose", supports_documents: true, field_type: FieldType::Text, is_document_reference_only: false },
        EntityFieldMetadata { field_name: "event_date", display_name: "Event Date", supports_documents: false, field_type: FieldType::Date, is_document_reference_only: false },
        EntityFieldMetadata { field_name: "location", display_name: "Location", supports_documents: false, field_type: FieldType::Text, is_document_reference_only: false },
        EntityFieldMetadata { field_name: "budget", display_name: "Budget", supports_documents: true, field_type: FieldType::Decimal, is_document_reference_only: false },
        EntityFieldMetadata { field_name: "actuals", display_name: "Actuals", supports_documents: true, field_type: FieldType::Decimal, is_document_reference_only: false },
        EntityFieldMetadata { field_name: "local_partner", display_name: "Local Partner", supports_documents: false, field_type: FieldType::Text, is_document_reference_only: false },
        EntityFieldMetadata { field_name: "partner_responsibility", display_name: "Partner Responsibility", supports_documents: true, field_type: FieldType::Text, is_document_reference_only: false },
        EntityFieldMetadata { field_name: "partnership_success", display_name: "Partnership Success", supports_documents: true, field_type: FieldType::Text, is_document_reference_only: false },
        EntityFieldMetadata { field_name: "capacity_challenges", display_name: "Capacity Challenges", supports_documents: true, field_type: FieldType::Text, is_document_reference_only: false },
        EntityFieldMetadata { field_name: "strengths", display_name: "Strengths", supports_documents: true, field_type: FieldType::Text, is_document_reference_only: false },
        EntityFieldMetadata { field_name: "outcomes", display_name: "Outcomes", supports_documents: true, field_type: FieldType::Text, is_document_reference_only: false },
        EntityFieldMetadata { field_name: "recommendations", display_name: "Recommendations", supports_documents: true, field_type: FieldType::Text, is_document_reference_only: false },
        EntityFieldMetadata { field_name: "challenge_resolution", display_name: "Challenge Resolution", supports_documents: true, field_type: FieldType::Text, is_document_reference_only: false },
        EntityFieldMetadata { field_name: "project_id", display_name: "Project", supports_documents: false, field_type: FieldType::Uuid, is_document_reference_only: false },
        EntityFieldMetadata { field_name: "agenda", display_name: "Agenda", supports_documents: true, field_type: FieldType::DocumentRef, is_document_reference_only: true },
        EntityFieldMetadata { field_name: "materials", display_name: "Materials", supports_documents: true, field_type: FieldType::DocumentRef, is_document_reference_only: true },
        EntityFieldMetadata { field_name: "attendance_sheet", display_name: "Attendance Sheet", supports_documents: true, field_type: FieldType::DocumentRef, is_document_reference_only: true },
        EntityFieldMetadata { field_name: "evaluation_summary", display_name: "Evaluation Summary", supports_documents: true, field_type: FieldType::DocumentRef, is_document_reference_only: true },
        EntityFieldMetadata { field_name: "photos", display_name: "Photos", supports_documents: true, field_type: FieldType::DocumentRef, is_document_reference_only: true },
    ]
}

impl Workshop {
    /// The fields of a workshop as documents see them: which take documents, and which only
    /// refer to attached documents.
    pub fn field_metadata() -> (r: Vec<EntityFieldMetadata>)
        ensures
            r@ == workshop_field_table(),
    {
        let mut r: Vec<EntityFieldMetadata> = Vec::new();
        r.push(EntityFieldMetadata { field_name: "purpose", display_name: "Purpose", supports_documents: true, field_type: FieldType::Text, is_document_reference_only: false });
        r.push(EntityFieldMetadata { field_name: "event_date", display_name: "Event Date", supports_documents: false, field_type: FieldType::Date, is_document_reference_only: false });
        r.push(EntityFieldMetadata { field_name: "location", display_name: "Location", supports_documents: false, field_type: FieldType::Text, is_document_reference_only: false });
        r.push(EntityFieldMetadata { field_name: "budget", display_name: "Budget", supports_documents: true, field_type: FieldType::Decimal, is_document_reference_only: false });
        r.push(EntityFieldMetadata { field_name: "actuals", display_name: "Actuals", supports_documents: true, field_type: FieldType::Decimal, is_document_reference_only: false });
        r.push(EntityFieldMetadata { field_name: "local_partner", display_name: "Local Partner", supports_documents: false, field_type: FieldType::Text, is_document_reference_only: false });
        r.push(EntityFieldMetadata { field_name: "partner_responsibility", display_name: "Partner Responsibility", supports_documents: true, field_type: FieldType::Text, is_document_reference_only: false });
        r.push(EntityFieldMetadata { field_name: "partnership_success", display_name: "Partnership Success", supports_documents: true, field_type: FieldType::Text, is_document_reference_only: false });
        r.push(EntityFieldMetadata { field_name: "capacity_challenges", display_name: "Capacity Challenges", supports_documents: true, field_type: FieldType::Text, is_document_reference_only: false });
        r.push(EntityFieldMetadata { field_name: "strengths", display_name: "Strengths", supports_documents: true, field_type: FieldType::Text, is_document_reference_only: false });
        r.push(EntityFieldMetadata { field_name: "outcomes", display_name: "Outcomes", supports_documents: true, field_type: FieldType::Text, is_document_reference_only: false });
        r.push(EntityFieldMetadata { field_name: "recommendations", display_name: "Recommendations", supports_documents: true, field_type: FieldType::Text, is_document_reference_only: false });
        r.push(EntityFieldMetadata { field_name: "challenge_resolution", display_name: "Challenge Resolution", supports_documents: true, field_type: FieldType::Text, is_document_reference_only: false });
        r.push(EntityFieldMetadata { field_name: "project_id", display_name: "Project", supports_documents: false, field_type: FieldType::Uuid, is_document_reference_only: false });
        r.push(EntityFieldMetadata { field_name: "agenda", display_name: "Agenda", supports_documents: true, field_type: FieldType::DocumentRef, is_document_reference_only: true });
        r.push(EntityFieldMetadata { field_name: "materials", display_name: "Materials", supports_documents: true, field_type: FieldType::DocumentRef, is_document_reference_only: true });
        r.push(EntityFieldMetadata { field_name: "attendance_sheet", display_name: "Attendance Sheet", supports_documents: true, field_type: FieldType::DocumentRef, is_document_reference_only: true });
        r.push(EntityFieldMetadata { field_name: "evaluation_summary", display_name: "Evaluation Summary", supports_documents: true, field_type: FieldType::DocumentRef, is_document_reference_only: true });
        r.push(EntityFieldMetadata { field_name: "photos", display_name: "Photos", supports_documents: true, field_type: FieldType::DocumentRef, is_document_reference_only: true });
        assert(r@ =~= workshop_field_table());
        r
    }
}

/// The JSON text of an optional amount, as `serde_json` writes a `Decimal`: its text as
/// a JSON string, or `null`.
pub open spec fn json_opt_amount(a: Option<Amount>) -> Seq<char> {
    match a {
        Some(x) => json_text_encoding(decimal_text(x.parts())),
        None => "null"@,
    }
}

fn encode_json_opt_amount(a: &Option<Amount>) -> (r: String)
    ensures
        r@ == json_opt_amount(*a),
{
    match a {
        Some(x) => {
            let t = x.to_text();
            encode_json_text(t.as_str())
        },
        None => String::from_str("null"),
    }
}

/// The JSON text of an optional identifier, as `serde_json` writes a `Uuid`: its
/// hyphenated text as a JSON string, or `null`.
pub open spec fn json_opt_uuid(u: Option<u128>) -> Seq<char> {
    match u {
        Some(v) => json_text_encoding(uuid_text(v)),
        None => "null"@,
    }
}

fn encode_json_opt_uuid(u: Option<u128>) -> (r: String)
    ensures
        r@ == json_opt_uuid(u),
{
    match u {
        Some(v) => {
            let t = uuid_to_text(v);
            encode_json_text(t.as_str())
        },
        None => String::from_str("null"),
    }
}

/// The JSON text of a field's value, as the change log records it.
pub open spec fn workshop_column_json(w: Workshop, c: WorkshopColumn) -> Seq<char> {
    match c {
        WorkshopColumn::ProjectId => json_opt_uuid(w.project_id),
        WorkshopColumn::Budget => json_opt_amount(w.budget),
        WorkshopColumn::Actuals => json_opt_amount(w.actuals),
        WorkshopColumn::ParticipantCount => json_int_text(w.participant_count as int),
        WorkshopColumn::Purpose => json_opt_text(w.purpose),
        WorkshopColumn::EventDate => json_opt_text(w.event_date),
        WorkshopColumn::Location => json_opt_text(w.location),
        WorkshopColumn::LocalPartner => json_opt_text(w.local_partner),
        WorkshopColumn::PartnerResponsibility => json_opt_text(w.partner_responsibility),
        WorkshopColumn::PartnershipSuccess => json_opt_text(w.partnership_success),
        WorkshopColumn::CapacityChallenges => json_opt_text(w.capacity_challenges),
        WorkshopColumn::Strengths => json_opt_text(w.strengths),
        WorkshopColumn::Outcomes => json_opt_text(w.outcomes),
        WorkshopColumn::Recommendations => json_opt_text(w.recommendations),
        WorkshopColumn::ChallengeResolution => json_opt_text(w.challenge_resolution),
    }
}

/// The JSON text of a field's value, as the change log records it.
pub fn column_json(w: &Workshop, c: WorkshopColumn) -> (r: String)
    ensures
        r@ == workshop_column_json(*w, c),
{
    match c {
        WorkshopColumn::ProjectId => encode_json_opt_uuid(w.project_id),
        WorkshopColumn::Budget => encode_json_opt_amount(&w.budget),
        WorkshopColumn::Actuals => encode_json_opt_amount(&w.actuals),
        WorkshopColumn::ParticipantCount => encode_json_int(w.participant_count),
        WorkshopColumn::Purpose => encode_json_opt_text(&w.purpose),
        WorkshopColumn::EventDate => encode_json_opt_text(&w.event_date),
        WorkshopColumn::Location => encode_json_opt_text(&w.location),
        WorkshopColumn::LocalPartner => encode_json_opt_text(&w.local_partner),
        WorkshopColumn::PartnerResponsibility => encode_json_opt_text(&w.partner_responsibility),
        WorkshopColumn::PartnershipSuccess => encode_json_opt_text(&w.partnership_success),
        WorkshopColumn::CapacityChallenges => encode_json_opt_text(&w.capacity_challenges),
        WorkshopColumn::Strengths => encode_json_opt_text(&w.strengths),
        WorkshopColumn::Outcomes => encode_json_opt_text(&w.outcomes),
        WorkshopColumn::Recommendations => encode_json_opt_text(&w.recommendations),
        WorkshopColumn::ChallengeResolution => encode_json_opt_text(&w.challenge_resolution),
    }
}

/// The change-log entry of a changed field of a workshop: an update by the user from
/// the device at `now`, with the field's values before and after as JSON.
pub fn workshop_change_log(
    id: u128,
    old: &Workshop,
    new: &Workshop,
    c: WorkshopColumn,
    now: Timestamp,
    user_id: u128,
    device_id: Option<u128>,
) -> (r: ChangeLogEntry)
    ensures
        logs_field_update(r, "workshops"@, id, c.name(), workshop_column_json(*old, c), workshop_column_json(*new, c),
            now, user_id, device_id),
{
    ChangeLogEntry::field_update("workshops", id, c.as_str(), column_json(old, c), column_json(new, c), now, user_id, device_id)
}

/// The change-log entry of a new participant count of a workshop: an update of
/// `participant_count` by the user from the device at `now`, with both counts as JSON.
pub fn participant_count_log(
    id: u128,
    old: i64,
    new: i64,
    now: Timestamp,
    user_id: u128,
    device_id: Option<u128>,
) -> (r: ChangeLogEntry)
    ensures
        logs_field_update(r, "workshops"@, id, "participant_count"@, json_int_text(old as int), json_int_text(new as int),
            now, user_id, device_id),
{
    ChangeLogEntry::field_update("workshops", id, "participant_count", encode_json_int(old), encode_json_int(new), now, user_id, device_id)
}

/// Judged against the same date, a workshop is never both past and upcoming, and a
/// workshop whose event date reads as a date is past, upcoming, or held on that very
/// date; an undated workshop is neither past nor upcoming.
pub proof fn past_and_upcoming_exclude(w: Workshop, today: (i32, u32, u32))
    ensures
        !(w.past_on(today) && w.future_on(today)),
        (w.event_date is Some && iso_date(w.event_date->Some_0@) is Some)
            ==> (w.past_on(today) || w.future_on(today) || iso_date(w.event_date->Some_0@)->Some_0 == today),
        w.event_date is None ==> !w.past_on(today) && !w.future_on(today),
{
}

} // verus!
