//! Presence checks on inbound documents, run before anything is forwarded to
//! the backend. The order of the checks is part of the client-facing
//! contract: the first missing field is the one reported, and nothing else is
//! examined once a check fails.

use vstd::prelude::*;

use crate::documents::EntityDeleteDocument;
use crate::documents::EntityDeleteDocumentModel;
use crate::documents::EntityNewDocument;
use crate::documents::EntityNewDocumentModel;
use crate::documents::EntityUpdateDocument;
use crate::documents::EntityUpdateDocumentModel;
use crate::documents::RunProcessDocument;
use crate::documents::RunProcessDocumentModel;

verus! {

/// The result of validating one inbound document: accepted, or the first
/// mandatory field found missing.
#[derive(Debug, Clone, Copy, PartialEq, Eq, Structural)]
pub enum ValidationOutcome {
    Accepted,
    MissingEntity,
    MissingTable,
    MissingAttributes,
    MissingId,
    MissingProcess,
    MissingProcessCode,
}

impl ValidationOutcome {
    /// The client-facing text identifying the missing field; the accepted
    /// outcome has no message and yields the empty string.
    pub open spec fn spec_message(self) -> Seq<char> {
        match self {
            ValidationOutcome::Accepted => ""@,
            ValidationOutcome::MissingEntity => "Entity Is Mandatory"@,
            ValidationOutcome::MissingTable => "Table Is Mandatory"@,
            ValidationOutcome::MissingAttributes => "Attributes are Mandatory"@,
            ValidationOutcome::MissingId => "ID is Mandatory"@,
            ValidationOutcome::MissingProcess => "Process Is Mandatory"@,
            ValidationOutcome::MissingProcessCode => "Process Code is Mandatory"@,
        }
    }

    /// Renders the client-facing message for this outcome.
    pub fn message(&self) -> (result: String)
        ensures
            result@ == self.spec_message(),
    {
        match self {
            ValidationOutcome::Accepted => "".to_owned(),
            ValidationOutcome::MissingEntity => "Entity Is Mandatory".to_owned(),
            ValidationOutcome::MissingTable => "Table Is Mandatory".to_owned(),
            ValidationOutcome::MissingAttributes => "Attributes are Mandatory".to_owned(),
            ValidationOutcome::MissingId => "ID is Mandatory".to_owned(),
            ValidationOutcome::MissingProcess => "Process Is Mandatory".to_owned(),
            ValidationOutcome::MissingProcessCode => "Process Code is Mandatory".to_owned(),
        }
    }
}

/// Validation of a create request: entity present, then table name, then
/// attributes.
pub open spec fn spec_validate_entity_new(document: EntityNewDocumentModel) -> ValidationOutcome {
    match document.entity {
        None => ValidationOutcome::MissingEntity,
        Some(entity) => if entity.table_name is None {
            ValidationOutcome::MissingTable
        } else if entity.attributes is None {
            ValidationOutcome::MissingAttributes
        } else {
            ValidationOutcome::Accepted
        },
    }
}

/// Checks a create request for its mandatory fields, in order.
pub fn validate_entity_new(document: &EntityNewDocument) -> (result: ValidationOutcome)
    ensures
        result == spec_validate_entity_new(document@),
{
    match &document.entity {
        None => ValidationOutcome::MissingEntity,
        Some(entity) => {
            if entity.table_name.is_none() {
                ValidationOutcome::MissingTable
            } else if entity.attributes.is_none() {
                ValidationOutcome::MissingAttributes
            } else {
                ValidationOutcome::Accepted
            }
        },
    }
}

/// Validation of an update request: entity present, then table name, then
/// attributes, then id.
pub open spec fn spec_validate_entity_update(
    document: EntityUpdateDocumentModel,
) -> ValidationOutcome {
    match document.entity {
        None => ValidationOutcome::MissingEntity,
        Some(entity) => if entity.table_name is None {
            ValidationOutcome::MissingTable
        } else if entity.attributes is None {
            ValidationOutcome::MissingAttributes
        } else if entity.id is None {
            ValidationOutcome::MissingId
        } else {
            ValidationOutcome::Accepted
        },
    }
}

/// Checks an update request for its mandatory fields, in order.
pub fn validate_entity_update(document: &EntityUpdateDocument) -> (result: ValidationOutcome)
    ensures
        result == spec_validate_entity_update(document@),
{
    match &document.entity {
        None => ValidationOutcome::MissingEntity,
        Some(entity) => {
            if entity.table_name.is_none() {
                ValidationOutcome::MissingTable
            } else if entity.attributes.is_none() {
                ValidationOutcome::MissingAttributes
            } else if entity.id.is_none() {
                ValidationOutcome::MissingId
            } else {
                ValidationOutcome::Accepted
            }
        },
    }
}

/// Validation of a delete request: entity present, then table name, then id.
pub open spec fn spec_validate_entity_delete(
    document: EntityDeleteDocumentModel,
) -> ValidationOutcome {
    match document.entity {
        None => ValidationOutcome::MissingEntity,
        Some(entity) => if entity.table_name is None {
            ValidationOutcome::MissingTable
        } else if entity.id is None {
            ValidationOutcome::MissingId
        } else {
            ValidationOutcome::Accepted
        },
    }
}

/// Checks a delete request for its mandatory fields, in order.
pub fn validate_entity_delete(document: &EntityDeleteDocument) -> (result: ValidationOutcome)
    ensures
        result == spec_validate_entity_delete(document@),
{
    match &document.entity {
        None => ValidationOutcome::MissingEntity,
        Some(entity) => {
            if entity.table_name.is_none() {
                ValidationOutcome::MissingTable
            } else if entity.id.is_none() {
                ValidationOutcome::MissingId
            } else {
                ValidationOutcome::Accepted
            }
        },
    }
}

/// Validation of a run-process request: process present, then process code.
pub open spec fn spec_validate_run_process(document: RunProcessDocumentModel) -> ValidationOutcome {
    match document.process {
        None => ValidationOutcome::MissingProcess,
        Some(process) => if process.process_code is None {
            ValidationOutcome::MissingProcessCode
        } else {
            ValidationOutcome::Accepted
        },
    }
}

/// Checks a run-process request for its mandatory fields, in order.
pub fn validate_run_process(document: &RunProcessDocument) -> (result: ValidationOutcome)
    ensures
        result == spec_validate_run_process(document@),
{
    match &document.process {
        None => ValidationOutcome::MissingProcess,
        Some(process) => {
            if process.process_code.is_none() {
                ValidationOutcome::MissingProcessCode
            } else {
                ValidationOutcome::Accepted
            }
        },
    }
}

/// Validation order: an update document that is missing both its table name
/// and its id reports the missing table name, never the missing id — the
/// table check stands before the id check.
pub proof fn lemma_update_reports_table_before_id(document: EntityUpdateDocumentModel)
    requires
        document.entity is Some,
        document.entity->0.table_name is None,
        document.entity->0.id is None,
    ensures
        spec_validate_entity_update(document) == ValidationOutcome::MissingTable,
{
}

} // verus!
