//! Models of the backend RPC wire contract: the typed request payloads the
//! gateway builds, the typed responses the backend returns, and the error a
//! failed call surfaces. The transport that carries them is plumbing outside
//! this library; the handlers here decide exactly what travels on it.

use vstd::prelude::*;

use crate::values::KeyValue;
use crate::values::KeyValueModel;

verus! {

/// A generic, table-named record as the backend returns it, identified by an
/// integer id, with its attribute set as tagged key/value pairs.
#[derive(Debug, PartialEq)]
pub struct Entity {
    pub table_name: String,
    pub id: i32,
    pub values: Vec<KeyValue>,
}

/// Mathematical model of `Entity`.
pub struct EntityModel {
    pub table_name: Seq<char>,
    pub id: i32,
    pub values: Seq<KeyValueModel>,
}

impl View for Entity {
    type V = EntityModel;

    open spec fn view(&self) -> EntityModel {
        EntityModel {
            table_name: self.table_name@,
            id: self.id,
            values: self.values.deep_view(),
        }
    }
}

/// Payload of the create-entity call.
#[derive(Debug, PartialEq)]
pub struct CreateEntityRequest {
    pub table_name: String,
    pub attributes: Vec<KeyValue>,
}

/// Mathematical model of `CreateEntityRequest`.
pub struct CreateEntityRequestModel {
    pub table_name: Seq<char>,
    pub attributes: Seq<KeyValueModel>,
}

impl View for CreateEntityRequest {
    type V = CreateEntityRequestModel;

    open spec fn view(&self) -> CreateEntityRequestModel {
        CreateEntityRequestModel {
            table_name: self.table_name@,
            attributes: self.attributes.deep_view(),
        }
    }
}

/// Payload of the update-entity call.
#[derive(Debug, PartialEq)]
pub struct UpdateEntityRequest {
    pub table_name: String,
    pub id: i32,
    pub attributes: Vec<KeyValue>,
}

/// Mathematical model of `UpdateEntityRequest`.
pub struct UpdateEntityRequestModel {
    pub table_name: Seq<char>,
    pub id: i32,
    pub attributes: Seq<KeyValueModel>,
}

impl View for UpdateEntityRequest {
    type V = UpdateEntityRequestModel;

    open spec fn view(&self) -> UpdateEntityRequestModel {
        UpdateEntityRequestModel {
            table_name: self.table_name@,
            id: self.id,
            attributes: self.attributes.deep_view(),
        }
    }
}

/// Payload of the delete-entity call.
#[derive(Debug, PartialEq)]
pub struct DeleteEntityRequest {
    pub table_name: String,
    pub id: i32,
}

/// Mathematical model of `DeleteEntityRequest`.
pub struct DeleteEntityRequestModel {
    pub table_name: Seq<char>,
    pub id: i32,
}

impl View for DeleteEntityRequest {
    type V = DeleteEntityRequestModel;

    open spec fn view(&self) -> DeleteEntityRequestModel {
        DeleteEntityRequestModel { table_name: self.table_name@, id: self.id }
    }
}

/// Payload of the run-business-process call. Scope fields the client left
/// out travel as their empty or zero defaults, as the wire contract expects.
#[derive(Debug, PartialEq)]
pub struct RunBusinessProcessRequest {
    pub process_code: String,
    pub table_name: String,
    pub id: i32,
    pub table_selected_id: i32,
    pub parameters: Vec<KeyValue>,
}

/// Mathematical model of `RunBusinessProcessRequest`.
pub struct RunBusinessProcessRequestModel {
    pub process_code: Seq<char>,
    pub table_name: Seq<char>,
    pub id: i32,
    pub table_selected_id: i32,
    pub parameters: Seq<KeyValueModel>,
}

impl View for RunBusinessProcessRequest {
    type V = RunBusinessProcessRequestModel;

    open spec fn view(&self) -> RunBusinessProcessRequestModel {
        RunBusinessProcessRequestModel {
            process_code: self.process_code@,
            table_name: self.table_name@,
            id: self.id,
            table_selected_id: self.table_selected_id,
            parameters: self.parameters.deep_view(),
        }
    }
}

/// One log line of a business-process run.
#[derive(Debug, PartialEq)]
pub struct ProcessLogEntry {
    pub record_id: i32,
    pub log: String,
}

/// Mathematical model of `ProcessLogEntry`.
pub struct ProcessLogEntryModel {
    pub record_id: i32,
    pub log: Seq<char>,
}

impl View for ProcessLogEntry {
    type V = ProcessLogEntryModel;

    open spec fn view(&self) -> ProcessLogEntryModel {
        ProcessLogEntryModel { record_id: self.record_id, log: self.log@ }
    }
}

impl DeepView for ProcessLogEntry {
    type V = ProcessLogEntryModel;

    open spec fn deep_view(&self) -> ProcessLogEntryModel {
        self.view()
    }
}

/// The typed response of a business-process run.
#[derive(Debug, PartialEq)]
pub struct RunBusinessProcessResponse {
    pub id: i32,
    pub is_error: bool,
    pub summary: String,
    pub result_table_name: String,
    pub is_processing: bool,
    pub last_run: String,
    pub logs: Vec<ProcessLogEntry>,
}

/// Mathematical model of `RunBusinessProcessResponse`.
pub struct RunBusinessProcessResponseModel {
    pub id: i32,
    pub is_error: bool,
    pub summary: Seq<char>,
    pub result_table_name: Seq<char>,
    pub is_processing: bool,
    pub last_run: Seq<char>,
    pub logs: Seq<ProcessLogEntryModel>,
}

impl View for RunBusinessProcessResponse {
    type V = RunBusinessProcessResponseModel;

    open spec fn view(&self) -> RunBusinessProcessResponseModel {
        RunBusinessProcessResponseModel {
            id: self.id,
            is_error: self.is_error,
            summary: self.summary@,
            result_table_name: self.result_table_name@,
            is_processing: self.is_processing,
            last_run: self.last_run@,
            logs: self.logs.deep_view(),
        }
    }
}

/// The error a failed backend call surfaces: only its message text is ever
/// shown to the client; transport detail stays at the boundary that produced
/// it.
#[derive(Debug, PartialEq)]
pub struct BackendError {
    pub message: String,
}

impl View for BackendError {
    type V = Seq<char>;

    open spec fn view(&self) -> Seq<char> {
        self.message@
    }
}

} // verus!
