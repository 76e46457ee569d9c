//! One handler per endpoint, each a short linear pipeline with early exits:
//! validate the document, require the caller's bearer token, convert the
//! attributes, and build the typed RPC payload; then translate the backend's
//! outcome into the client-facing reply. The two halves are pure decisions:
//! the transport between them — the actual RPC call — is plumbing outside
//! this library, which performs whatever step it is handed.

use vstd::prelude::*;

use crate::documents::EntityDeleteDocument;
use crate::documents::EntityDeleteDocumentModel;
use crate::documents::EntityNewDocument;
use crate::documents::EntityNewDocumentModel;
use crate::documents::EntityResponse;
use crate::documents::EntityResponseModel;
use crate::documents::EntityUpdateDocument;
use crate::documents::EntityUpdateDocumentModel;
use crate::documents::ProcessResponse;
use crate::documents::ProcessResponseModel;
use crate::documents::RunProcessDocument;
use crate::documents::RunProcessDocumentModel;
use crate::documents::entity_response_of;
use crate::documents::process_response_of;
use crate::middleware::BackendError;
use crate::middleware::CreateEntityRequest;
use crate::middleware::CreateEntityRequestModel;
use crate::middleware::DeleteEntityRequest;
use crate::middleware::DeleteEntityRequestModel;
use crate::middleware::Entity;
use crate::middleware::EntityModel;
use crate::middleware::RunBusinessProcessRequest;
use crate::middleware::RunBusinessProcessRequestModel;
use crate::middleware::RunBusinessProcessResponse;
use crate::middleware::RunBusinessProcessResponseModel;
use crate::middleware::UpdateEntityRequest;
use crate::middleware::UpdateEntityRequestModel;
use crate::validate::ValidationOutcome;
use crate::validate::spec_validate_entity_delete;
use crate::validate::spec_validate_entity_new;
use crate::validate::spec_validate_entity_update;
use crate::validate::spec_validate_run_process;
use crate::validate::validate_entity_delete;
use crate::validate::validate_entity_new;
use crate::validate::validate_entity_update;
use crate::validate::validate_run_process;
use crate::values::convert_attributes;
use crate::values::wire_pairs_of;

verus! {

/// The client-facing reply a handler produces once it stops: a validation
/// failure with its message, a forbidden rejection when no credential came, a
/// success carrying the converted response document (the delete success
/// carries only its fixed acknowledgement text), or the backend's error
/// message surfaced unchanged.
#[derive(Debug, PartialEq)]
pub enum HandlerReply {
    ValidationFailure { message: String },
    Forbidden,
    EntitySuccess { entity: EntityResponse },
    DeleteSuccess,
    ProcessSuccess { process: ProcessResponse },
    BackendFailure { message: String },
}

/// Mathematical model of `HandlerReply`.
pub enum HandlerReplyModel {
    ValidationFailure { message: Seq<char> },
    Forbidden,
    EntitySuccess { entity: EntityResponseModel },
    DeleteSuccess,
    ProcessSuccess { process: ProcessResponseModel },
    BackendFailure { message: Seq<char> },
}

impl View for HandlerReply {
    type V = HandlerReplyModel;

    open spec fn view(&self) -> HandlerReplyModel {
        match self {
            HandlerReply::ValidationFailure { message } => HandlerReplyModel::ValidationFailure {
                message: message@,
            },
            HandlerReply::Forbidden => HandlerReplyModel::Forbidden,
            HandlerReply::EntitySuccess { entity } => HandlerReplyModel::EntitySuccess {
                entity: entity@,
            },
            HandlerReply::DeleteSuccess => HandlerReplyModel::DeleteSuccess,
            HandlerReply::ProcessSuccess { process } => HandlerReplyModel::ProcessSuccess {
                process: process@,
            },
            HandlerReply::BackendFailure { message } => HandlerReplyModel::BackendFailure {
                message: message@,
            },
        }
    }
}

impl HandlerReplyModel {
    /// The HTTP status a reply is sent with: a missing credential is
    /// forbidden, a failed backend call is an internal error, a validation
    /// failure is a client error, and everything else succeeds.
    pub open spec fn spec_status(self) -> u16 {
        match self {
            HandlerReplyModel::ValidationFailure { .. } => 400,
            HandlerReplyModel::Forbidden => 403,
            HandlerReplyModel::EntitySuccess { .. } => 200,
            HandlerReplyModel::DeleteSuccess => 200,
            HandlerReplyModel::ProcessSuccess { .. } => 200,
            HandlerReplyModel::BackendFailure { .. } => 500,
        }
    }
}

impl HandlerReply {
    /// The HTTP status this reply is sent with.
    pub fn status_code(&self) -> (result: u16)
        ensures
            result == self@.spec_status(),
    {
        match self {
            HandlerReply::ValidationFailure { .. } => 400,
            HandlerReply::Forbidden => 403,
            HandlerReply::EntitySuccess { .. } => 200,
            HandlerReply::DeleteSuccess => 200,
            HandlerReply::ProcessSuccess { .. } => 200,
            HandlerReply::BackendFailure { .. } => 500,
        }
    }
}

/// What a handler decides before any network is touched: either it halts
/// with a reply of its own (the request never reaches the backend), or it
/// hands the caller the typed payload to send together with the bearer token
/// to attach.
#[derive(Debug, PartialEq)]
pub enum Step<Request> {
    Halt { reply: HandlerReply },
    CallBackend { token: String, request: Request },
}

/// Mathematical model of `Step`.
pub enum StepModel<RequestModel> {
    Halt { reply: HandlerReplyModel },
    CallBackend { token: Seq<char>, request: RequestModel },
}

impl<Request: View> View for Step<Request> {
    type V = StepModel<Request::V>;

    open spec fn view(&self) -> StepModel<Request::V> {
        match self {
            Step::Halt { reply } => StepModel::Halt { reply: reply@ },
            Step::CallBackend { token, request } => StepModel::CallBackend {
                token: token@,
                request: request@,
            },
        }
    }
}

/// The decision of the create-entity handler before the backend is called:
/// the first missing mandatory field halts with its message, a missing
/// credential halts as forbidden, and otherwise the typed create payload is
/// built with every attribute converted in order.
pub open spec fn spec_create_entity_prepare(
    document: EntityNewDocumentModel,
    token: Option<Seq<char>>,
) -> StepModel<CreateEntityRequestModel> {
    let outcome = spec_validate_entity_new(document);
    if outcome != ValidationOutcome::Accepted {
        StepModel::Halt {
            reply: HandlerReplyModel::ValidationFailure { message: outcome.spec_message() },
        }
    } else if token is None {
        StepModel::Halt { reply: HandlerReplyModel::Forbidden }
    } else {
        StepModel::CallBackend {
            token: token->0,
            request: CreateEntityRequestModel {
                table_name: document.entity->0.table_name->0,
                attributes: wire_pairs_of(document.entity->0.attributes->0),
            },
        }
    }
}

/// Decides the create-entity request: validation, then the credential gate,
/// then conversion into the typed payload.
pub fn create_entity_prepare(document: EntityNewDocument, token: Option<String>) -> (step: Step<
    CreateEntityRequest,
>)
    ensures
        step@ == spec_create_entity_prepare(document@, token.deep_view()),
{
    let outcome = validate_entity_new(&document);
    match outcome {
        ValidationOutcome::Accepted => match token {
            None => Step::Halt { reply: HandlerReply::Forbidden },
            Some(token) => {
                let entity = document.entity.unwrap();
                let table_name = entity.table_name.unwrap();
                let attributes = convert_attributes(entity.attributes.unwrap());
                Step::CallBackend {
                    token,
                    request: CreateEntityRequest { table_name, attributes },
                }
            },
        },
        _ => Step::Halt {
            reply: HandlerReply::ValidationFailure { message: outcome.message() },
        },
    }
}

/// The decision of the update-entity handler before the backend is called.
pub open spec fn spec_update_entity_prepare(
    document: EntityUpdateDocumentModel,
    token: Option<Seq<char>>,
) -> StepModel<UpdateEntityRequestModel> {
    let outcome = spec_validate_entity_update(document);
    if outcome != ValidationOutcome::Accepted {
        StepModel::Halt {
            reply: HandlerReplyModel::ValidationFailure { message: outcome.spec_message() },
        }
    } else if token is None {
        StepModel::Halt { reply: HandlerReplyModel::Forbidden }
    } else {
        StepModel::CallBackend {
            token: token->0,
            request: UpdateEntityRequestModel {
                table_name: document.entity->0.table_name->0,
                id: document.entity->0.id->0,
                attributes: wire_pairs_of(document.entity->0.attributes->0),
            },
        }
    }
}

/// Decides the update-entity request: validation, then the credential gate,
/// then conversion into the typed payload.
pub fn update_entity_prepare(document: EntityUpdateDocument, token: Option<String>) -> (step: Step<
    UpdateEntityRequest,
>)
    ensures
        step@ == spec_update_entity_prepare(document@, token.deep_view()),
{
    let outcome = validate_entity_update(&document);
    match outcome {
        ValidationOutcome::Accepted => match token {
            None => Step::Halt { reply: HandlerReply::Forbidden },
            Some(token) => {
                let entity = document.entity.unwrap();
                let table_name = entity.table_name.unwrap();
                let id: i32 = entity.id.unwrap();
                let attributes = convert_attributes(entity.attributes.unwrap());
                Step::CallBackend {
                    token,
                    request: UpdateEntityRequest { table_name, id, attributes },
                }
            },
        },
        _ => Step::Halt {
            reply: HandlerReply::ValidationFailure { message: outcome.message() },
        },
    }
}

/// The decision of the delete-entity handler before the backend is called.
pub open spec fn spec_delete_entity_prepare(
    document: EntityDeleteDocumentModel,
    token: Option<Seq<char>>,
) -> StepModel<DeleteEntityRequestModel> {
    let outcome = spec_validate_entity_delete(document);
    if outcome != ValidationOutcome::Accepted {
        StepModel::Halt {
            reply: HandlerReplyModel::ValidationFailure { message: outcome.spec_message() },
        }
    } else if token is None {
        StepModel::Halt { reply: HandlerReplyModel::Forbidden }
    } else {
        StepModel::CallBackend {
            token: token->0,
            request: DeleteEntityRequestModel {
                table_name: document.entity->0.table_name->0,
                id: document.entity->0.id->0,
            },
        }
    }
}

/// Decides the delete-entity request: validation, then the credential gate,
/// then the typed payload naming the record to delete.
pub fn delete_entity_prepare(document: EntityDeleteDocument, token: Option<String>) -> (step: Step<
    DeleteEntityRequest,
>)
    ensures
        step@ == spec_delete_entity_prepare(document@, token.deep_view()),
{
    let outcome = validate_entity_delete(&document);
    match outcome {
        ValidationOutcome::Accepted => match token {
            None => Step::Halt { reply: HandlerReply::Forbidden },
            Some(token) => {
                let entity = document.entity.unwrap();
                let table_name = entity.table_name.unwrap();
                let id: i32 = entity.id.unwrap();
                Step::CallBackend { token, request: DeleteEntityRequest { table_name, id } }
            },
        },
        _ => Step::Halt {
            reply: HandlerReply::ValidationFailure { message: outcome.message() },
        },
    }
}

/// The empty character sequence an absent optional scope field travels as.
pub open spec fn or_empty(text: Option<Seq<char>>) -> Seq<char> {
    match text {
        Some(text) => text,
        None => Seq::empty(),
    }
}

/// The zero an absent optional numeric scope field travels as.
pub open spec fn or_zero(number: Option<i32>) -> i32 {
    match number {
        Some(number) => number,
        None => 0,
    }
}

/// The sequence an absent optional parameter set travels as.
pub open spec fn or_no_entries(
    entries: Option<Seq<crate::values::KeyAndValueModel>>,
) -> Seq<crate::values::KeyAndValueModel> {
    match entries {
        Some(entries) => entries,
        None => Seq::empty(),
    }
}

/// The decision of the run-process handler before the backend is called: the
/// process code is mandatory, the table/record scope defaults to empty or
/// zero, and absent parameters travel as an empty set.
pub open spec fn spec_run_process_prepare(
    document: RunProcessDocumentModel,
    token: Option<Seq<char>>,
) -> StepModel<RunBusinessProcessRequestModel> {
    let outcome = spec_validate_run_process(document);
    if outcome != ValidationOutcome::Accepted {
        StepModel::Halt {
            reply: HandlerReplyModel::ValidationFailure { message: outcome.spec_message() },
        }
    } else if token is None {
        StepModel::Halt { reply: HandlerReplyModel::Forbidden }
    } else {
        StepModel::CallBackend {
            token: token->0,
            request: RunBusinessProcessRequestModel {
                process_code: document.process->0.process_code->0,
                table_name: or_empty(document.process->0.table_name),
                id: or_zero(document.process->0.id),
                table_selected_id: or_zero(document.process->0.table_selected_id),
                parameters: wire_pairs_of(or_no_entries(document.process->0.parameters)),
            },
        }
    }
}

/// Decides the run-process request: validation, then the credential gate,
/// then conversion into the typed payload with absent scope fields defaulted.
pub fn run_process_prepare(document: RunProcessDocument, token: Option<String>) -> (step: Step<
    RunBusinessProcessRequest,
>)
    ensures
        step@ == spec_run_process_prepare(document@, token.deep_view()),
{
    let outcome = validate_run_process(&document);
    match outcome {
        ValidationOutcome::Accepted => match token {
            None => Step::Halt { reply: HandlerReply::Forbidden },
            Some(token) => {
                let process = document.process.unwrap();
                let process_code = process.process_code.unwrap();
                let table_name = match process.table_name {
                    Some(table_name) => table_name,
                    None => String::new(),
                };
                let id: i32 = match process.id {
                    Some(id) => id,
                    None => 0,
                };
                let table_selected_id: i32 = match process.table_selected_id {
                    Some(selected) => selected,
                    None => 0,
                };
                let entries = match process.parameters {
                    Some(parameters) => parameters,
                    None => Vec::new(),
                };
                proof {
                    assert(entries.deep_view() =~= or_no_entries(
                        document@.process->0.parameters,
                    ));
                }
                let parameters = convert_attributes(entries);
                Step::CallBackend {
                    token,
                    request: RunBusinessProcessRequest {
                        process_code,
                        table_name,
                        id,
                        table_selected_id,
                        parameters,
                    },
                }
            },
        },
        _ => Step::Halt {
            reply: HandlerReply::ValidationFailure { message: outcome.message() },
        },
    }
}

/// The reply an entity mutation ends with: the returned entity converted to
/// the loose response document, or the backend's message surfaced as an
/// internal error.
pub open spec fn spec_entity_respond(outcome: Result<EntityModel, Seq<char>>) -> HandlerReplyModel {
    match outcome {
        Ok(entity) => HandlerReplyModel::EntitySuccess { entity: entity_response_of(entity) },
        Err(message) => HandlerReplyModel::BackendFailure { message },
    }
}

/// The model of a create or update outcome as received from the transport.
pub open spec fn entity_outcome_model(outcome: Result<Entity, BackendError>) -> Result<
    EntityModel,
    Seq<char>,
> {
    match outcome {
        Ok(entity) => Ok(entity@),
        Err(error) => Err(error@),
    }
}

/// Translates the backend's create or update outcome into the client reply.
pub fn entity_respond(outcome: Result<Entity, BackendError>) -> (reply: HandlerReply)
    ensures
        reply@ == spec_entity_respond(entity_outcome_model(outcome)),
{
    match outcome {
        Ok(entity) => HandlerReply::EntitySuccess { entity: EntityResponse::from_entity(entity) },
        Err(error) => HandlerReply::BackendFailure { message: error.message },
    }
}

/// The reply a delete ends with: the fixed acknowledgement on success, or
/// the backend's message surfaced as an internal error — surfaced unchanged
/// even when the same record was already deleted, since the gateway keeps no
/// state and neither suppresses nor deduplicates backend errors.
pub open spec fn spec_delete_respond(outcome: Result<(), Seq<char>>) -> HandlerReplyModel {
    match outcome {
        Ok(_) => HandlerReplyModel::DeleteSuccess,
        Err(message) => HandlerReplyModel::BackendFailure { message },
    }
}

/// The model of a delete outcome as received from the transport.
pub open spec fn delete_outcome_model(outcome: Result<(), BackendError>) -> Result<(), Seq<char>> {
    match outcome {
        Ok(_) => Ok(()),
        Err(error) => Err(error@),
    }
}

/// Translates the backend's delete outcome into the client reply.
pub fn delete_respond(outcome: Result<(), BackendError>) -> (reply: HandlerReply)
    ensures
        reply@ == spec_delete_respond(delete_outcome_model(outcome)),
{
    match outcome {
        Ok(_) => HandlerReply::DeleteSuccess,
        Err(error) => HandlerReply::BackendFailure { message: error.message },
    }
}

/// The reply a process run ends with: the typed result converted to the
/// loose response document, or the backend's message surfaced as an internal
/// error.
pub open spec fn spec_process_respond(
    outcome: Result<RunBusinessProcessResponseModel, Seq<char>>,
) -> HandlerReplyModel {
    match outcome {
        Ok(response) => HandlerReplyModel::ProcessSuccess { process: process_response_of(response) },
        Err(message) => HandlerReplyModel::BackendFailure { message },
    }
}

/// The model of a process outcome as received from the transport.
pub open spec fn process_outcome_model(
    outcome: Result<RunBusinessProcessResponse, BackendError>,
) -> Result<RunBusinessProcessResponseModel, Seq<char>> {
    match outcome {
        Ok(response) => Ok(response@),
        Err(error) => Err(error@),
    }
}

/// Translates the backend's process outcome into the client reply.
pub fn run_process_respond(outcome: Result<RunBusinessProcessResponse, BackendError>) -> (reply:
    HandlerReply)
    ensures
        reply@ == spec_process_respond(process_outcome_model(outcome)),
{
    match outcome {
        Ok(response) => HandlerReply::ProcessSuccess {
            process: ProcessResponse::from_process_response(response),
        },
        Err(error) => HandlerReply::BackendFailure { message: error.message },
    }
}

/// The credential gate precedes the backend call: without a bearer token the
/// create-entity handler halts — with a validation message or as forbidden —
/// and never hands back a payload to send.
pub proof fn lemma_create_gate_needs_token(
    document: EntityNewDocumentModel,
    token: Option<Seq<char>>,
)
    requires
        token is None,
    ensures
        spec_create_entity_prepare(document, token) is Halt,
{
}

/// The credential gate precedes the backend call for the update handler.
pub proof fn lemma_update_gate_needs_token(
    document: EntityUpdateDocumentModel,
    token: Option<Seq<char>>,
)
    requires
        token is None,
    ensures
        spec_update_entity_prepare(document, token) is Halt,
{
}

/// The credential gate precedes the backend call for the delete handler.
pub proof fn lemma_delete_gate_needs_token(
    document: EntityDeleteDocumentModel,
    token: Option<Seq<char>>,
)
    requires
        token is None,
    ensures
        spec_delete_entity_prepare(document, token) is Halt,
{
}

/// The credential gate precedes the backend call for the run-process handler.
pub proof fn lemma_run_process_gate_needs_token(
    document: RunProcessDocumentModel,
    token: Option<Seq<char>>,
)
    requires
        token is None,
    ensures
        spec_run_process_prepare(document, token) is Halt,
{
}

/// Deleting the same record twice is decided identically each time — the
/// gateway keeps no state across requests — and the second call's backend
/// error is surfaced to the client unchanged, never suppressed or
/// deduplicated.
pub proof fn lemma_delete_error_surfaced_unchanged(message: Seq<char>)
    ensures
        spec_delete_respond(Err(message)) == (HandlerReplyModel::BackendFailure { message }),
{
}

} // verus!
