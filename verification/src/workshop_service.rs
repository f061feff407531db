//! The decisions of the workshop service around its lookups: date ranges of queries,
//! which related data a view is enriched with, how missing projects, workshops and
//! participants are reported, and how a refused deletion is reported.

use vstd::prelude::*;
use crate::clock::{rfc3339_error_text, rfc3339_stamp, Timestamp};
use crate::errors::{DomainError, ServiceError, ValidationError};
use crate::ident::{uuid_text, uuid_to_text};
use crate::text::join2;
use crate::user_service::DeleteResult;
use crate::workshop::{ProjectSummary, WorkshopInclude};

verus! {

/// Reads the bounds of a date-range query, both RFC 3339 date-times; the start may not
/// lie after the end.
pub fn check_date_range(start: &str, end: &str) -> (r: Result<(Timestamp, Timestamp), ServiceError>)
    ensures
        match rfc3339_stamp(start@) {
            None => r matches Err(ServiceError::Domain(DomainError::Validation(ValidationError::Custom(m))))
                && m@ == "Invalid start date format: "@ + rfc3339_error_text(start@),
            Some(s) => match rfc3339_stamp(end@) {
                None => r matches Err(ServiceError::Domain(DomainError::Validation(ValidationError::Custom(m))))
                    && m@ == "Invalid end date format: "@ + rfc3339_error_text(end@),
                Some(e) => if s.later_than(e) {
                    r matches Err(ServiceError::Domain(DomainError::Validation(ValidationError::Custom(m))))
                        && m@ == "Start date cannot be after end date"@
                } else {
                    r == Ok::<(Timestamp, Timestamp), ServiceError>((s, e))
                },
            },
        },
{
    let s = match Timestamp::parse_rfc3339_detailed(start) {
        Ok(t) => t,
        Err(m) => return Err(ServiceError::Domain(DomainError::Validation(ValidationError::Custom(
            join2("Invalid start date format: ", m.as_str()))))),
    };
    let e = match Timestamp::parse_rfc3339_detailed(end) {
        Ok(t) => t,
        Err(m) => return Err(ServiceError::Domain(DomainError::Validation(ValidationError::Custom(
            join2("Invalid end date format: ", m.as_str()))))),
    };
    if s.is_later_than(&e) {
        return Err(ServiceError::Domain(DomainError::Validation(ValidationError::custom(
            "Start date cannot be after end date"))));
    }
    Ok((s, e))
}

/// True when this section of related data, or all of them, is requested.
pub open spec fn includes_section(requested: Option<Vec<WorkshopInclude>>, section: WorkshopInclude) -> bool {
    match requested {
        Some(v) => v@.contains(WorkshopInclude::All) || v@.contains(section),
        None => false,
    }
}

/// True when this section of related data, or all of them, is requested.
pub fn wants_section(requested: &Option<Vec<WorkshopInclude>>, section: WorkshopInclude) -> (r: bool)
    ensures
        r == includes_section(*requested, section),
{
    match requested {
        Some(v) => {
            let mut i: usize = 0;
            while i < v.len()
                invariant
                    *requested == Some(*v),
                    i <= v@.len(),
                    forall|k: int| 0 <= k < i ==> v@[k] != WorkshopInclude::All && v@[k] != section,
                decreases v@.len() - i,
            {
                let x = v[i];
                if x == WorkshopInclude::All {
                    proof {
                        assert(v@[i as int] == WorkshopInclude::All);
                        assert(v@.contains(WorkshopInclude::All));
                    }
                    return true;
                }
                if x == section {
                    proof {
                        assert(v@[i as int] == section);
                        assert(v@.contains(section));
                    }
                    return true;
                }
                i = i + 1;
            }
            false
        },
        None => false,
    }
}

/// The project shown with a workshop, from its lookup: a project that is gone is shown
/// as none; any other failure is passed on.
pub fn settle_project_lookup(lookup: Result<ProjectSummary, DomainError>) -> (r: Result<Option<ProjectSummary>, ServiceError>)
    ensures
        match lookup {
            Ok(p) => r == Ok::<Option<ProjectSummary>, ServiceError>(Some(p)),
            Err(DomainError::EntityNotFound(_, _)) => r == Ok::<Option<ProjectSummary>, ServiceError>(None),
            Err(e) => r == Err::<Option<ProjectSummary>, ServiceError>(ServiceError::Domain(e)),
        },
{
    match lookup {
        Ok(p) => Ok(Some(p)),
        Err(DomainError::EntityNotFound(_, _)) => Ok(None),
        Err(e) => Err(ServiceError::Domain(e)),
    }
}

/// Checks the project an update attaches a workshop to, from its lookup: a missing
/// project breaks the relationship rule; any other failure is passed on.
pub fn check_project_reference(lookup: Result<(), DomainError>, project_id: u128) -> (r: Result<(), ServiceError>)
    ensures
        match lookup {
            Ok(_) => r is Ok,
            Err(DomainError::EntityNotFound(_, _)) => r matches Err(ServiceError::Domain(DomainError::Validation(
                ValidationError::Relationship(m)))) && m@ == "Project with ID "@ + uuid_text(project_id) + " not found"@,
            Err(e) => r == Err::<(), ServiceError>(ServiceError::Domain(e)),
        },
{
    match lookup {
        Ok(()) => Ok(()),
        Err(DomainError::EntityNotFound(_, _)) => {
            let id = uuid_to_text(project_id);
            let m = join2("Project with ID ", id.as_str()).concat(" not found");
            Err(ServiceError::Domain(DomainError::Validation(ValidationError::Relationship(m))))
        },
        Err(e) => Err(ServiceError::Domain(e)),
    }
}

/// Checks the two ends of a new workshop-participant link: the workshop, from its
/// lookup (a missing one is reported as a missing `Workshop`), then the participant,
/// from the count of live participants with its identifier.
pub fn check_link_targets(workshop_lookup: Result<(), DomainError>, participant_count: i64, workshop_id: u128, participant_id: u128) -> (r: Result<(), ServiceError>)
    ensures
        match workshop_lookup {
            Err(DomainError::EntityNotFound(_, _)) => r matches Err(ServiceError::Domain(DomainError::EntityNotFound(t, i)))
                && t@ == "Workshop"@ && i == workshop_id,
            Err(e) => r == Err::<(), ServiceError>(ServiceError::Domain(e)),
            Ok(_) => if participant_count == 0 {
                r matches Err(ServiceError::Domain(DomainError::EntityNotFound(t, i))) && t@ == "Participant"@
                    && i == participant_id
            } else {
                r is Ok
            },
        },
{
    match workshop_lookup {
        Err(DomainError::EntityNotFound(_, _)) => {
            return Err(ServiceError::Domain(DomainError::EntityNotFound(String::from_str("Workshop"), workshop_id)));
        },
        Err(e) => return Err(ServiceError::Domain(e)),
        Ok(()) => {},
    }
    if participant_count == 0 {
        return Err(ServiceError::Domain(DomainError::EntityNotFound(String::from_str("Participant"), participant_id)));
    }
    Ok(())
}

/// Whether a participant must still be removed from a workshop, from the workshop's
/// lookup: when the workshop is gone there is nothing to remove.
pub fn removal_needed(workshop_lookup: Result<(), DomainError>) -> (r: Result<bool, ServiceError>)
    ensures
        match workshop_lookup {
            Ok(_) => r == Ok::<bool, ServiceError>(true),
            Err(DomainError::EntityNotFound(_, _)) => r == Ok::<bool, ServiceError>(false),
            Err(e) => r == Err::<bool, ServiceError>(ServiceError::Domain(e)),
        },
{
    match workshop_lookup {
        Ok(()) => Ok(true),
        Err(DomainError::EntityNotFound(_, _)) => Ok(false),
        Err(e) => Err(ServiceError::Domain(e)),
    }
}

/// The refusal of a deletion the user may not make; `entity_plural` names the kind of
/// record.
pub fn deletion_denied(hard_delete: bool, entity_plural: &str) -> (r: ServiceError)
    ensures
        r matches ServiceError::PermissionDenied(m) && m@ == "User does not have permission to "@
            + (if hard_delete { "hard delete"@ } else { "delete"@ }) + " "@ + entity_plural@,
{
    let what = if hard_delete { "hard delete" } else { "delete" };
    ServiceError::PermissionDenied(join2("User does not have permission to ", what).concat(" ").concat(entity_plural))
}

/// The outcome of deleting a workshop: dependent records that prevented it are reported
/// by their tables; any other outcome stands.
pub fn settle_workshop_deletion(result: DeleteResult) -> (r: Result<DeleteResult, ServiceError>)
    ensures
        match result {
            DeleteResult::DependenciesPrevented { dependencies } =>
                r == Err::<DeleteResult, ServiceError>(ServiceError::DependenciesPreventDeletion(dependencies)),
            _ => r == Ok::<DeleteResult, ServiceError>(result),
        },
{
    match result {
        DeleteResult::DependenciesPrevented { dependencies } => Err(ServiceError::DependenciesPreventDeletion(dependencies)),
        other => Ok(other),
    }
}

} // verus!
