use entity_gateway::documents::EntityDelete;
use entity_gateway::documents::EntityDeleteDocument;
use entity_gateway::documents::EntityNew;
use entity_gateway::documents::EntityNewDocument;
use entity_gateway::documents::EntityUpdate;
use entity_gateway::documents::EntityUpdateDocument;
use entity_gateway::documents::RunProcess;
use entity_gateway::documents::RunProcessDocument;
use entity_gateway::validate::ValidationOutcome;
use entity_gateway::validate::validate_entity_delete;
use entity_gateway::validate::validate_entity_new;
use entity_gateway::validate::validate_entity_update;
use entity_gateway::validate::validate_run_process;

#[test]
fn update_reports_table_before_id() {
    // Both table_name and id are missing: the table failure is reported,
    // never the id.
    let document = EntityUpdateDocument {
        entity: Some(EntityUpdate { table_name: None, id: None, attributes: Some(vec![]) }),
    };
    let outcome = validate_entity_update(&document);
    assert_eq!(outcome, ValidationOutcome::MissingTable);
    assert_eq!(outcome.message(), "Table Is Mandatory".to_string());
}

#[test]
fn create_missing_entity() {
    let outcome = validate_entity_new(&EntityNewDocument { entity: None });
    assert_eq!(outcome, ValidationOutcome::MissingEntity);
    assert_eq!(outcome.message(), "Entity Is Mandatory".to_string());
}

#[test]
fn create_missing_table() {
    let document = EntityNewDocument {
        entity: Some(EntityNew { table_name: None, attributes: Some(vec![]) }),
    };
    assert_eq!(validate_entity_new(&document), ValidationOutcome::MissingTable);
}

#[test]
fn create_missing_attributes() {
    let document = EntityNewDocument {
        entity: Some(EntityNew { table_name: Some("M_Product".to_string()), attributes: None }),
    };
    let outcome = validate_entity_new(&document);
    assert_eq!(outcome, ValidationOutcome::MissingAttributes);
    assert_eq!(outcome.message(), "Attributes are Mandatory".to_string());
}

#[test]
fn create_accepted() {
    let document = EntityNewDocument {
        entity: Some(EntityNew {
            table_name: Some("M_Product".to_string()),
            attributes: Some(vec![]),
        }),
    };
    let outcome = validate_entity_new(&document);
    assert_eq!(outcome, ValidationOutcome::Accepted);
    assert_eq!(outcome.message(), "".to_string());
}

#[test]
fn update_missing_id() {
    let document = EntityUpdateDocument {
        entity: Some(EntityUpdate {
            table_name: Some("M_Product".to_string()),
            id: None,
            attributes: Some(vec![]),
        }),
    };
    let outcome = validate_entity_update(&document);
    assert_eq!(outcome, ValidationOutcome::MissingId);
    assert_eq!(outcome.message(), "ID is Mandatory".to_string());
}

#[test]
fn update_missing_attributes_before_id() {
    // The attribute check stands before the id check.
    let document = EntityUpdateDocument {
        entity: Some(EntityUpdate {
            table_name: Some("M_Product".to_string()),
            id: None,
            attributes: None,
        }),
    };
    assert_eq!(validate_entity_update(&document), ValidationOutcome::MissingAttributes);
}

#[test]
fn update_accepted() {
    let document = EntityUpdateDocument {
        entity: Some(EntityUpdate {
            table_name: Some("M_Product".to_string()),
            id: Some(7),
            attributes: Some(vec![]),
        }),
    };
    assert_eq!(validate_entity_update(&document), ValidationOutcome::Accepted);
}

#[test]
fn delete_missing_entity() {
    assert_eq!(
        validate_entity_delete(&EntityDeleteDocument { entity: None }),
        ValidationOutcome::MissingEntity
    );
}

#[test]
fn delete_missing_table() {
    let document = EntityDeleteDocument {
        entity: Some(EntityDelete { table_name: None, id: Some(7) }),
    };
    assert_eq!(validate_entity_delete(&document), ValidationOutcome::MissingTable);
}

#[test]
fn delete_missing_id() {
    let document = EntityDeleteDocument {
        entity: Some(EntityDelete { table_name: Some("M_Product".to_string()), id: None }),
    };
    assert_eq!(validate_entity_delete(&document), ValidationOutcome::MissingId);
}

#[test]
fn delete_accepted() {
    let document = EntityDeleteDocument {
        entity: Some(EntityDelete { table_name: Some("M_Product".to_string()), id: Some(7) }),
    };
    assert_eq!(validate_entity_delete(&document), ValidationOutcome::Accepted);
}

#[test]
fn process_missing_process() {
    let outcome = validate_run_process(&RunProcessDocument { process: None });
    assert_eq!(outcome, ValidationOutcome::MissingProcess);
    assert_eq!(outcome.message(), "Process Is Mandatory".to_string());
}

#[test]
fn process_missing_code() {
    let document = RunProcessDocument {
        process: Some(RunProcess {
            table_name: Some("C_Order".to_string()),
            id: None,
            process_code: None,
            table_selected_id: None,
            parameters: None,
        }),
    };
    let outcome = validate_run_process(&document);
    assert_eq!(outcome, ValidationOutcome::MissingProcessCode);
    assert_eq!(outcome.message(), "Process Code is Mandatory".to_string());
}

#[test]
fn process_accepted() {
    let document = RunProcessDocument {
        process: Some(RunProcess {
            table_name: None,
            id: None,
            process_code: Some("C_Order_Process".to_string()),
            table_selected_id: None,
            parameters: None,
        }),
    };
    assert_eq!(validate_run_process(&document), ValidationOutcome::Accepted);
}
