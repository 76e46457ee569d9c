//! The loose, JSON-shaped documents exchanged with HTTP clients: the inbound
//! mutation and process-invocation requests, and the outbound responses built
//! from the backend's typed replies.

use vstd::prelude::*;

use crate::middleware::Entity;
use crate::middleware::EntityModel;
use crate::middleware::ProcessLogEntryModel;
use crate::middleware::RunBusinessProcessResponse;
use crate::middleware::RunBusinessProcessResponseModel;
use crate::values::KeyAndValue;
use crate::values::KeyAndValueModel;
use crate::values::KeyValueModel;
use crate::values::loose_of;

verus! {

/// The entity document returned to the client after a create or update: the
/// table, the record's id, and the record's attributes converted back to
/// loose entries.
#[derive(Debug, PartialEq)]
pub struct EntityResponse {
    pub table_name: Option<String>,
    pub id: Option<i32>,
    pub attributes: Option<Vec<KeyAndValue>>,
}

/// Mathematical model of `EntityResponse`.
pub struct EntityResponseModel {
    pub table_name: Option<Seq<char>>,
    pub id: Option<i32>,
    pub attributes: Option<Seq<KeyAndValueModel>>,
}

impl View for EntityResponse {
    type V = EntityResponseModel;

    open spec fn view(&self) -> EntityResponseModel {
        EntityResponseModel {
            table_name: self.table_name.deep_view(),
            id: self.id,
            attributes: self.attributes.deep_view(),
        }
    }
}

impl Default for EntityResponse {
    /// A response with every field unpopulated.
    fn default() -> (result: Self)
        ensures
            result@.table_name is None,
            result@.id is None,
            result@.attributes is None,
    {
        EntityResponse { table_name: None, id: None, attributes: None }
    }
}

/// The loose entries a sequence of wire pairs converts back to.
pub open spec fn loose_entries_of(values: Seq<KeyValueModel>) -> Seq<KeyAndValueModel> {
    values.map_values(|pair: KeyValueModel| loose_of(pair.key, pair.value))
}

/// The response document a returned entity converts to: every field is
/// populated and each attribute is converted back to a loose entry.
pub open spec fn entity_response_of(source: EntityModel) -> EntityResponseModel {
    EntityResponseModel {
        table_name: Some(source.table_name),
        id: Some(source.id),
        attributes: Some(loose_entries_of(source.values)),
    }
}

impl EntityResponse {
    /// Converts the backend's typed entity into the loose response document:
    /// table and id are echoed, and every attribute is converted back with
    /// its discriminator set.
    pub fn from_entity(source: Entity) -> (result: Self)
        ensures
            result@ == entity_response_of(source@),
    {
        let Entity { table_name, id, values } = source;
        let mut attributes: Vec<KeyAndValue> = Vec::new();
        let mut index: usize = 0;
        while index < values.len()
            invariant
                index <= values.len(),
                attributes.deep_view() =~= loose_entries_of(
                    values.deep_view().take(index as int),
                ),
            decreases values.len() - index,
        {
            let pair = values[index].clone();
            proof {
                assert(pair@ == values.deep_view()[index as int]);
                assert(attributes.deep_view().len() == index as int);
                assert(attributes@.len() == index as int);
            }
            attributes.push(KeyAndValue::from_grpc_value(pair.key, pair.value));
            proof {
                let dv = values.deep_view();
                assert(attributes@.len() == index as int + 1);
                assert(attributes.deep_view().len() == index as int + 1);
                assert(attributes.deep_view()[index as int] == loose_of(
                    dv[index as int].key,
                    dv[index as int].value,
                ));
                assert(forall|k: int|
                    0 <= k < index ==> attributes.deep_view()[k] == loose_entries_of(
                        dv.take(index as int),
                    )[k]);
                assert(forall|k: int|
                    0 <= k < index + 1 ==> attributes.deep_view()[k] == loose_entries_of(
                        dv.take(index as int + 1),
                    )[k]);
            }
            index += 1;
        }
        assert(values.deep_view().take(values.len() as int) =~= values.deep_view());
        EntityResponse { table_name: Some(table_name), id: Some(id), attributes: Some(attributes) }
    }
}

/// One log line of a process run as the client sees it.
#[derive(Debug, PartialEq)]
pub struct ProcessLog {
    pub record_id: Option<i32>,
    pub log: Option<String>,
}

/// Mathematical model of `ProcessLog`.
pub struct ProcessLogModel {
    pub record_id: Option<i32>,
    pub log: Option<Seq<char>>,
}

impl View for ProcessLog {
    type V = ProcessLogModel;

    open spec fn view(&self) -> ProcessLogModel {
        ProcessLogModel { record_id: self.record_id, log: self.log.deep_view() }
    }
}

impl DeepView for ProcessLog {
    type V = ProcessLogModel;

    open spec fn deep_view(&self) -> ProcessLogModel {
        self.view()
    }
}

/// The process document returned to the client after a business-process run.
#[derive(Debug, PartialEq)]
pub struct ProcessResponse {
    pub id: Option<i32>,
    pub is_error: Option<bool>,
    pub summary: Option<String>,
    pub result_table_name: Option<String>,
    pub is_processing: Option<bool>,
    pub last_run: Option<String>,
    pub logs: Option<Vec<ProcessLog>>,
}

/// Mathematical model of `ProcessResponse`.
pub struct ProcessResponseModel {
    pub id: Option<i32>,
    pub is_error: Option<bool>,
    pub summary: Option<Seq<char>>,
    pub result_table_name: Option<Seq<char>>,
    pub is_processing: Option<bool>,
    pub last_run: Option<Seq<char>>,
    pub logs: Option<Seq<ProcessLogModel>>,
}

impl View for ProcessResponse {
    type V = ProcessResponseModel;

    open spec fn view(&self) -> ProcessResponseModel {
        ProcessResponseModel {
            id: self.id,
            is_error: self.is_error,
            summary: self.summary.deep_view(),
            result_table_name: self.result_table_name.deep_view(),
            is_processing: self.is_processing,
            last_run: self.last_run.deep_view(),
            logs: self.logs.deep_view(),
        }
    }
}

impl Default for ProcessResponse {
    /// A response with every field unpopulated.
    fn default() -> (result: Self)
        ensures
            result@.id is None,
            result@.is_error is None,
            result@.summary is None,
            result@.result_table_name is None,
            result@.is_processing is None,
            result@.last_run is None,
            result@.logs is None,
    {
        ProcessResponse {
            id: None,
            is_error: None,
            summary: None,
            result_table_name: None,
            is_processing: None,
            last_run: None,
            logs: None,
        }
    }
}

/// The loose log line a typed log entry converts to.
pub open spec fn process_log_of(entry: ProcessLogEntryModel) -> ProcessLogModel {
    ProcessLogModel { record_id: Some(entry.record_id), log: Some(entry.log) }
}

/// The loose log lines a sequence of typed log entries converts to.
pub open spec fn process_logs_of(entries: Seq<ProcessLogEntryModel>) -> Seq<ProcessLogModel> {
    entries.map_values(|entry: ProcessLogEntryModel| process_log_of(entry))
}

/// The response document a process result converts to: every field is
/// populated, with each log line converted in order.
pub open spec fn process_response_of(source: RunBusinessProcessResponseModel) -> ProcessResponseModel {
    ProcessResponseModel {
        id: Some(source.id),
        is_error: Some(source.is_error),
        summary: Some(source.summary),
        result_table_name: Some(source.result_table_name),
        is_processing: Some(source.is_processing),
        last_run: Some(source.last_run),
        logs: Some(process_logs_of(source.logs)),
    }
}

impl ProcessResponse {
    /// Converts the backend's typed process result into the loose response
    /// document, every field populated and each log line kept in order.
    pub fn from_process_response(source: RunBusinessProcessResponse) -> (result: Self)
        ensures
            result@ == process_response_of(source@),
    {
        let RunBusinessProcessResponse {
            id,
            is_error,
            summary,
            result_table_name,
            is_processing,
            last_run,
            logs,
        } = source;
        let mut converted: Vec<ProcessLog> = Vec::new();
        let mut index: usize = 0;
        while index < logs.len()
            invariant
                index <= logs.len(),
                converted.deep_view() =~= process_logs_of(logs.deep_view().take(index as int)),
            decreases logs.len() - index,
        {
            let entry = &logs[index];
            proof {
                assert(converted.deep_view().len() == index as int);
                assert(converted@.len() == index as int);
            }
            converted.push(
                ProcessLog { record_id: Some(entry.record_id), log: Some(entry.log.clone()) },
            );
            proof {
                let dv = logs.deep_view();
                assert(converted@.len() == index as int + 1);
                assert(converted.deep_view()[index as int] == process_log_of(dv[index as int]));
                assert(forall|k: int|
                    0 <= k < index ==> converted.deep_view()[k] == process_logs_of(
                        dv.take(index as int),
                    )[k]);
                assert(forall|k: int|
                    0 <= k < index + 1 ==> converted.deep_view()[k] == process_logs_of(
                        dv.take(index as int + 1),
                    )[k]);
            }
            index += 1;
        }
        assert(logs.deep_view().take(logs.len() as int) =~= logs.deep_view());
        assert(converted.deep_view() =~= process_logs_of(logs.deep_view()));
        ProcessResponse {
            id: Some(id),
            is_error: Some(is_error),
            summary: Some(summary),
            result_table_name: Some(result_table_name),
            is_processing: Some(is_processing),
            last_run: Some(last_run),
            logs: Some(converted),
        }
    }
}

/// The entity body of a create request: a create carries no id.
#[derive(Debug, PartialEq)]
pub struct EntityNew {
    pub table_name: Option<String>,
    pub attributes: Option<Vec<KeyAndValue>>,
}

/// Mathematical model of `EntityNew`.
pub struct EntityNewModel {
    pub table_name: Option<Seq<char>>,
    pub attributes: Option<Seq<KeyAndValueModel>>,
}

impl View for EntityNew {
    type V = EntityNewModel;

    open spec fn view(&self) -> EntityNewModel {
        EntityNewModel {
            table_name: self.table_name.deep_view(),
            attributes: self.attributes.deep_view(),
        }
    }
}

impl DeepView for EntityNew {
    type V = EntityNewModel;

    open spec fn deep_view(&self) -> EntityNewModel {
        self.view()
    }
}

/// The create-entity request body.
#[derive(Debug, PartialEq)]
pub struct EntityNewDocument {
    pub entity: Option<EntityNew>,
}

/// Mathematical model of `EntityNewDocument`.
pub struct EntityNewDocumentModel {
    pub entity: Option<EntityNewModel>,
}

impl View for EntityNewDocument {
    type V = EntityNewDocumentModel;

    open spec fn view(&self) -> EntityNewDocumentModel {
        EntityNewDocumentModel { entity: self.entity.deep_view() }
    }
}

/// The entity body of an update request: the id names the record to change.
#[derive(Debug, PartialEq)]
pub struct EntityUpdate {
    pub table_name: Option<String>,
    pub id: Option<i32>,
    pub attributes: Option<Vec<KeyAndValue>>,
}

/// Mathematical model of `EntityUpdate`.
pub struct EntityUpdateModel {
    pub table_name: Option<Seq<char>>,
    pub id: Option<i32>,
    pub attributes: Option<Seq<KeyAndValueModel>>,
}

impl View for EntityUpdate {
    type V = EntityUpdateModel;

    open spec fn view(&self) -> EntityUpdateModel {
        EntityUpdateModel {
            table_name: self.table_name.deep_view(),
            id: self.id,
            attributes: self.attributes.deep_view(),
        }
    }
}

impl DeepView for EntityUpdate {
    type V = EntityUpdateModel;

    open spec fn deep_view(&self) -> EntityUpdateModel {
        self.view()
    }
}

/// The update-entity request body.
#[derive(Debug, PartialEq)]
pub struct EntityUpdateDocument {
    pub entity: Option<EntityUpdate>,
}

/// Mathematical model of `EntityUpdateDocument`.
pub struct EntityUpdateDocumentModel {
    pub entity: Option<EntityUpdateModel>,
}

impl View for EntityUpdateDocument {
    type V = EntityUpdateDocumentModel;

    open spec fn view(&self) -> EntityUpdateDocumentModel {
        EntityUpdateDocumentModel { entity: self.entity.deep_view() }
    }
}

/// The entity body of a delete request: only the table and the id.
#[derive(Debug, PartialEq)]
pub struct EntityDelete {
    pub table_name: Option<String>,
    pub id: Option<i32>,
}

/// Mathematical model of `EntityDelete`.
pub struct EntityDeleteModel {
    pub table_name: Option<Seq<char>>,
    pub id: Option<i32>,
}

impl View for EntityDelete {
    type V = EntityDeleteModel;

    open spec fn view(&self) -> EntityDeleteModel {
        EntityDeleteModel { table_name: self.table_name.deep_view(), id: self.id }
    }
}

impl DeepView for EntityDelete {
    type V = EntityDeleteModel;

    open spec fn deep_view(&self) -> EntityDeleteModel {
        self.view()
    }
}

/// The delete-entity request body.
#[derive(Debug, PartialEq)]
pub struct EntityDeleteDocument {
    pub entity: Option<EntityDelete>,
}

/// Mathematical model of `EntityDeleteDocument`.
pub struct EntityDeleteDocumentModel {
    pub entity: Option<EntityDeleteModel>,
}

impl View for EntityDeleteDocument {
    type V = EntityDeleteDocumentModel;

    open spec fn view(&self) -> EntityDeleteDocumentModel {
        EntityDeleteDocumentModel { entity: self.entity.deep_view() }
    }
}

/// The process body of a run-process request: the process code is mandatory,
/// the table/record scope and the parameters are optional.
#[derive(Debug, PartialEq)]
pub struct RunProcess {
    pub table_name: Option<String>,
    pub id: Option<i32>,
    pub process_code: Option<String>,
    pub table_selected_id: Option<i32>,
    pub parameters: Option<Vec<KeyAndValue>>,
}

/// Mathematical model of `RunProcess`.
pub struct RunProcessModel {
    pub table_name: Option<Seq<char>>,
    pub id: Option<i32>,
    pub process_code: Option<Seq<char>>,
    pub table_selected_id: Option<i32>,
    pub parameters: Option<Seq<KeyAndValueModel>>,
}

impl View for RunProcess {
    type V = RunProcessModel;

    open spec fn view(&self) -> RunProcessModel {
        RunProcessModel {
            table_name: self.table_name.deep_view(),
            id: self.id,
            process_code: self.process_code.deep_view(),
            table_selected_id: self.table_selected_id,
            parameters: self.parameters.deep_view(),
        }
    }
}

impl DeepView for RunProcess {
    type V = RunProcessModel;

    open spec fn deep_view(&self) -> RunProcessModel {
        self.view()
    }
}

/// The run-process request body.
#[derive(Debug, PartialEq)]
pub struct RunProcessDocument {
    pub process: Option<RunProcess>,
}

/// Mathematical model of `RunProcessDocument`.
pub struct RunProcessDocumentModel {
    pub process: Option<RunProcessModel>,
}

impl View for RunProcessDocument {
    type V = RunProcessDocumentModel;

    open spec fn view(&self) -> RunProcessDocumentModel {
        RunProcessDocumentModel { process: self.process.deep_view() }
    }
}

} // verus!
