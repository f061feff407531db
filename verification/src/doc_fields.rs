//! The fields of an entity that documents can be attached to, and the check of the
//! field a document upload names.

use vstd::prelude::*;
use crate::errors::{join_with, joined, views_of, DomainError, ServiceError, ValidationError};
use crate::text::{join3, same_text};

verus! {

/// The kind of value a field holds.
#[derive(Clone, Copy, Debug, PartialEq, Eq, Structural)]
pub enum FieldType {
    Text,
    Number,
    Decimal,
    Date,
    Uuid,
    /// A field that only refers to attached documents.
    DocumentRef,
}

/// A field of an entity as documents see it.
#[derive(Clone, Copy, Debug)]
pub struct EntityFieldMetadata {
    pub field_name: &'static str,
    pub display_name: &'static str,
    pub supports_documents: bool,
    pub field_type: FieldType,
    pub is_document_reference_only: bool,
}

/// The names of the fields that documents can be attached to, in order.
pub open spec fn linkable_names(meta: Seq<EntityFieldMetadata>) -> Seq<Seq<char>>
    decreases meta.len(),
{
    if meta.len() == 0 {
        Seq::empty()
    } else {
        let prev = linkable_names(meta.drop_last());
        if meta.last().supports_documents { prev.push(meta.last().field_name@) } else { prev }
    }
}

/// The names of the fields that documents can be attached to, in order.
pub fn document_linkable_fields(meta: &Vec<EntityFieldMetadata>) -> (r: Vec<String>)
    ensures
        views_of(r@) == linkable_names(meta@),
{
    let mut r: Vec<String> = Vec::new();
    let mut i: usize = 0;
    while i < meta.len()
        invariant
            i <= meta@.len(),
            views_of(r@) == linkable_names(meta@.take(i as int)),
        decreases meta@.len() - i,
    {
        proof {
            assert(meta@.take(i as int + 1).drop_last() =~= meta@.take(i as int));
            assert(meta@.take(i as int + 1).last() == meta@[i as int]);
        }
        let ghost before = r@;
        if meta[i].supports_documents {
            r.push(String::from_str(meta[i].field_name));
            proof {
                assert(views_of(r@) =~= views_of(before).push(meta@[i as int].field_name@));
            }
        }
        i = i + 1;
    }
    proof {
        assert(meta@.take(meta@.len() as int) =~= meta@);
    }
    r
}

/// True when documents can be attached to the named field.
pub fn is_document_linkable_field(meta: &Vec<EntityFieldMetadata>, field: &str) -> (r: bool)
    ensures
        r == linkable_names(meta@).contains(field@),
{
    let names = document_linkable_fields(meta);
    let mut i: usize = 0;
    while i < names.len()
        invariant
            i <= names@.len(),
            views_of(names@) == linkable_names(meta@),
            forall|k: int| 0 <= k < i ==> names@[k]@ != field@,
        decreases names@.len() - i,
    {
        if same_text(names[i].as_str(), field) {
            proof {
                assert(views_of(names@)[i as int] == field@);
            }
            return true;
        }
        i = i + 1;
    }
    proof {
        if linkable_names(meta@).contains(field@) {
            let k = choose|k: int| 0 <= k < linkable_names(meta@).len() && linkable_names(meta@)[k] == field@;
            assert(views_of(names@)[k] == names@[k]@);
        }
    }
    false
}

/// The refusal of an upload that names a field documents cannot be attached to; it
/// lists the fields that take documents.
pub open spec fn unlinkable_field_message(meta: Seq<EntityFieldMetadata>, entity_label: Seq<char>, field: Seq<char>) -> Seq<char> {
    "Field '"@ + field + "' does not support document attachments for "@ + entity_label + ". Valid fields: "@
        + joined(linkable_names(meta), ", "@)
}

/// Checks the field a document upload names, if it names one: documents must be
/// attachable to it.
pub fn check_linked_field(meta: &Vec<EntityFieldMetadata>, entity_label: &str, field: &Option<String>) -> (r: Result<(), ServiceError>)
    ensures
        match *field {
            Some(f) if !linkable_names(meta@).contains(f@) =>
                r matches Err(ServiceError::Domain(DomainError::Validation(ValidationError::Custom(m))))
                    && m@ == unlinkable_field_message(meta@, entity_label@, f@),
            _ => r is Ok,
        },
{
    match field {
        Some(f) => {
            if is_document_linkable_field(meta, f.as_str()) {
                return Ok(());
            }
            let names = document_linkable_fields(meta);
            let valid = join_with(&names, ", ");
            let m = join3("Field '", f.as_str(), "' does not support document attachments for ")
                .concat(entity_label).concat(". Valid fields: ").concat(valid.as_str());
            Err(ServiceError::Domain(DomainError::Validation(ValidationError::Custom(m))))
        },
        None => Ok(()),
    }
}

} // verus!
