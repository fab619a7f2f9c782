use rincon_client::collection::methods::{
    ChangeCollectionProperties, CreateCollection, DropCollection, GetCollection,
    GetCollectionChecksum, GetCollectionDocumentCount, GetCollectionProperties,
    GetCollectionRevision, ListCollections, RenameCollection,
};
use rincon_client::collection::types::{
    CollectionPropertiesUpdate, CollectionType, NewCollection, RenameTo,
};
use rincon_client::error::{Field, ProtocolViolation, Violation};
use rincon_client::method::{locate_result, Operation, ResultLocation, Verb};
use rincon_client::protocol;
use rincon_core::api::method::Parameters;
use rincon_core::api::types::Value;
use rincon_core::arango::protocol as wire;

fn entries(params: &Parameters) -> Vec<(String, Value)> {
    params.iter().cloned().collect()
}

fn entry(name: &str, value: Value) -> (String, Value) {
    (name.to_owned(), value)
}

#[test]
fn list_collections_excludes_system_collections_by_default() {
    let method = ListCollections::new();
    assert!(method.is_exclude_system());
    assert_eq!(Operation::Read, method.operation());
    assert_eq!("/_api/collection", method.path());
    assert_eq!(
        vec![entry("excludeSystem", Value::Bool(true))],
        entries(&method.parameters())
    );
    assert!(method.header().is_empty());
    assert!(method.content().is_none());
    assert_eq!(Some("result"), method.return_type().result_field);
    assert_eq!(Some("code"), method.return_type().code_field);
}

#[test]
fn list_collections_including_system_sends_no_parameter() {
    let method = ListCollections::including_system();
    assert!(!method.is_exclude_system());
    assert!(method.parameters().is_empty());
}

#[test]
fn list_collections_set_exclude_system_switches_the_parameter() {
    let mut method = ListCollections::including_system();
    method.set_exclude_system(true);
    assert_eq!(ListCollections::new(), method);
    assert_eq!(
        vec![entry("excludeSystem", Value::Bool(true))],
        entries(&method.parameters())
    );
    method.set_exclude_system(false);
    assert!(method.parameters().is_empty());
}

#[test]
fn create_collection_with_name_leaves_the_type_to_the_server() {
    let method = CreateCollection::with_name("customers");
    assert_eq!("customers", method.collection().name());
    assert_eq!(None, method.collection().kind());
    assert!(method.is_wait_for_sync_replication());
    assert_eq!(Operation::Create, method.operation());
    assert_eq!(Verb::Post, method.operation().verb());
    assert_eq!("/_api/collection", method.path());
    assert!(method.parameters().is_empty());
    assert!(method.header().is_empty());
    assert_eq!(Some(&NewCollection::with_name("customers")), method.content());
    assert_eq!(None, method.return_type().result_field);
    assert_eq!(Some("code"), method.return_type().code_field);
}

#[test]
fn create_collection_for_documents_and_edges() {
    let documents = CreateCollection::documents_with_name("customers");
    assert_eq!(Some(CollectionType::Documents), documents.collection().kind());
    assert_eq!("customers", documents.collection().name());
    let edges = CreateCollection::edges_with_name("knows");
    assert_eq!(Some(CollectionType::Edges), edges.collection().kind());
    assert_eq!("knows", edges.collection().name());
    let given = CreateCollection::new(NewCollection::edges_with_name("knows"));
    assert_eq!(edges, given);
}

#[test]
fn create_collection_without_waiting_for_replication_sends_zero() {
    let mut method = CreateCollection::with_name("customers");
    method.set_wait_for_sync_replication(false);
    assert!(!method.is_wait_for_sync_replication());
    assert_eq!(
        vec![entry("waitForSyncReplication", Value::I32(0))],
        entries(&method.parameters())
    );
    method.set_wait_for_sync_replication(true);
    assert!(method.parameters().is_empty());
}

#[test]
fn new_collection_setters_change_one_property() {
    let mut collection = NewCollection::documents_with_name("customers");
    assert_eq!(None, collection.is_system());
    assert_eq!(None, collection.is_wait_for_sync());
    collection.set_system(Some(true));
    collection.set_wait_for_sync(Some(false));
    assert_eq!("customers", collection.name());
    assert_eq!(Some(CollectionType::Documents), collection.kind());
    assert_eq!(Some(true), collection.is_system());
    assert_eq!(Some(false), collection.is_wait_for_sync());
}

#[test]
fn drop_collection_with_name_drops_a_user_collection() {
    let method = DropCollection::with_name("customers");
    assert_eq!("customers", method.name());
    assert!(!method.is_system());
    assert_eq!(Operation::Delete, method.operation());
    assert_eq!(Verb::Delete, method.operation().verb());
    assert_eq!("/_api/collection/customers", method.path());
    assert!(method.parameters().is_empty());
    assert!(method.header().is_empty());
    assert!(method.content().is_none());
    assert_eq!(Some("id"), method.return_type().result_field);
    assert_eq!(Some("code"), method.return_type().code_field);
}

#[test]
fn drop_collection_system_with_name_drops_a_system_collection() {
    let mut method = DropCollection::system_with_name("_users");
    assert_eq!("_users", method.name());
    assert!(method.is_system());
    method.set_system(false);
    assert!(!method.is_system());
    assert_eq!("_users", method.name());
    assert_eq!(DropCollection::with_name("_users"), method);
}

#[test]
fn get_collection_reads_the_collection_resource() {
    let method = GetCollection::with_name("customers");
    assert_eq!(GetCollection::new("customers".to_owned()), method);
    assert_eq!("customers", method.name());
    assert_eq!(Operation::Read, method.operation());
    assert_eq!(Verb::Get, method.operation().verb());
    assert_eq!("/_api/collection/customers", method.path());
    assert!(method.parameters().is_empty());
    assert!(method.header().is_empty());
    assert!(method.content().is_none());
    assert_eq!(None, method.return_type().result_field);
}

#[test]
fn get_collection_checksum_names_what_is_left_out() {
    let mut method = GetCollectionChecksum::with_name("customers");
    assert_eq!(GetCollectionChecksum::new("customers".to_owned()), method);
    assert_eq!("customers", method.name());
    assert!(!method.is_with_revisions());
    assert!(!method.is_with_data());
    assert_eq!(Operation::Read, method.operation());
    assert_eq!("/_api/collection/customers/checksum", method.path());
    assert_eq!(
        vec![
            entry("withRevisions", Value::I32(0)),
            entry("withData", Value::I32(0)),
        ],
        entries(&method.parameters())
    );

    method.set_with_revisions(true);
    assert!(method.is_with_revisions());
    assert!(!method.is_with_data());
    assert_eq!(
        vec![entry("withData", Value::I32(0))],
        entries(&method.parameters())
    );
    assert_eq!("customers", method.name());
    assert_eq!("/_api/collection/customers/checksum", method.path());

    method.set_with_data(true);
    assert!(method.is_with_revisions());
    assert!(method.is_with_data());
    assert!(method.parameters().is_empty());

    method.set_with_revisions(false);
    assert_eq!(
        vec![entry("withRevisions", Value::I32(0))],
        entries(&method.parameters())
    );
    assert!(method.header().is_empty());
    assert!(method.content().is_none());
}

#[test]
fn get_collection_checksum_with_both_included_sends_no_parameter() {
    let mut method = GetCollectionChecksum::new(String::from("c"));
    method.set_with_revisions(true);
    method.set_with_data(true);
    assert!(method.parameters().is_empty());
    assert!(method.header().is_empty());
    assert!(method.content().is_none());
}

#[test]
fn get_collection_document_count_reads_the_count_resource() {
    let method = GetCollectionDocumentCount::with_name("customers");
    assert_eq!(GetCollectionDocumentCount::new("customers".to_owned()), method);
    assert_eq!("customers", method.name());
    assert_eq!(Operation::Read, method.operation());
    assert_eq!("/_api/collection/customers/count", method.path());
    assert!(method.parameters().is_empty());
    assert!(method.header().is_empty());
}

#[test]
fn get_collection_revision_reads_the_revision_resource() {
    let method = GetCollectionRevision::with_name("customers");
    assert_eq!(GetCollectionRevision::new("customers".to_owned()), method);
    assert_eq!("customers", method.name());
    assert_eq!(Operation::Read, method.operation());
    assert_eq!("/_api/collection/customers/revision", method.path());
    assert!(method.parameters().is_empty());
    assert!(method.header().is_empty());
}

#[test]
fn get_collection_properties_reads_the_properties_resource() {
    let method = GetCollectionProperties::with_name("customers");
    assert_eq!(GetCollectionProperties::new("customers".to_owned()), method);
    assert_eq!("customers", method.name());
    assert_eq!(Operation::Read, method.operation());
    assert_eq!("/_api/collection/customers/properties", method.path());
    assert!(method.parameters().is_empty());
    assert!(method.header().is_empty());
}

#[test]
fn change_collection_properties_replaces_the_properties_resource() {
    let mut updates = CollectionPropertiesUpdate::new();
    assert_eq!(None, updates.wait_for_sync);
    assert_eq!(None, updates.journal_size);
    updates.wait_for_sync = Some(true);
    let method = ChangeCollectionProperties::new("customers".to_owned(), updates);
    assert_eq!("customers", method.name());
    assert_eq!(&updates, method.updates());
    assert_eq!(Operation::Replace, method.operation());
    assert_eq!(Verb::Put, method.operation().verb());
    assert_eq!("/_api/collection/customers/properties", method.path());
    assert!(method.parameters().is_empty());
    assert!(method.header().is_empty());
    assert_eq!(Some(&updates), method.content());
    assert_eq!(None, method.return_type().result_field);
}

#[test]
fn rename_collection_is_built_from_both_names() {
    let method = RenameCollection::with_name("customers").to_name("clients");
    assert_eq!(
        RenameCollection::new("customers".to_owned(), RenameTo::new("clients")),
        method
    );
    assert_eq!("customers", method.name());
    assert_eq!("clients", method.rename_to().name());
    assert_eq!(Operation::Replace, method.operation());
    assert_eq!("/_api/collection/customers/rename", method.path());
    assert!(method.parameters().is_empty());
    assert!(method.header().is_empty());
    assert_eq!(Some(&RenameTo::new("clients")), method.content());
    assert_eq!(None, method.return_type().result_field);
}

#[test]
fn protocol_names_agree_with_the_core_crate() {
    assert_eq!(wire::PATH_API_COLLECTION, protocol::PATH_API_COLLECTION);
    assert_eq!(wire::PATH_API_DOCUMENT, protocol::PATH_API_DOCUMENT);
    assert_eq!(wire::PATH_PROPERTIES, protocol::PATH_PROPERTIES);
    assert_eq!(wire::PATH_RENAME, protocol::PATH_RENAME);
    assert_eq!(wire::PATH_REVISION, protocol::PATH_REVISION);
    assert_eq!(wire::PARAM_EXCLUDE_SYSTEM, protocol::PARAM_EXCLUDE_SYSTEM);
    assert_eq!(wire::PARAM_IGNORE_REVISIONS, protocol::PARAM_IGNORE_REVISIONS);
    assert_eq!(wire::PARAM_RETURN_NEW, protocol::PARAM_RETURN_NEW);
    assert_eq!(wire::PARAM_RETURN_OLD, protocol::PARAM_RETURN_OLD);
    assert_eq!(wire::PARAM_WAIT_FOR_SYNC, protocol::PARAM_WAIT_FOR_SYNC);
    assert_eq!(
        wire::PARAM_WAIT_FOR_SYNC_REPLICATION,
        protocol::PARAM_WAIT_FOR_SYNC_REPLICATION
    );
    assert_eq!(wire::HEADER_IF_MATCH, protocol::HEADER_IF_MATCH);
    assert_eq!(wire::HEADER_IF_NON_MATCH, protocol::HEADER_IF_NON_MATCH);
    assert_eq!(wire::FIELD_CODE, protocol::FIELD_CODE);
    assert_eq!(wire::FIELD_ID, protocol::FIELD_ID);
    assert_eq!(wire::FIELD_RESULT, protocol::FIELD_RESULT);
    assert_eq!(wire::FIELD_ENTITY_ID, protocol::FIELD_ENTITY_ID);
    assert_eq!(wire::FIELD_ENTITY_KEY, protocol::FIELD_ENTITY_KEY);
    assert_eq!(wire::FIELD_ENTITY_REVISION, protocol::FIELD_ENTITY_REVISION);
    assert_eq!(wire::FIELD_ENTITY_OLD_REVISION, protocol::FIELD_ENTITY_OLD_REVISION);
    assert_eq!(wire::FIELD_ENTITY_NEW, protocol::FIELD_ENTITY_NEW);
    assert_eq!(wire::FIELD_ENTITY_OLD, protocol::FIELD_ENTITY_OLD);
    assert_eq!(wire::FIELD_ERROR, protocol::FIELD_ERROR);
    assert_eq!(wire::FIELD_ERROR_NUMBER, protocol::FIELD_ERROR_NUMBER);
    assert_eq!(wire::FIELD_ERROR_MESSAGE, protocol::FIELD_ERROR_MESSAGE);
}

#[test]
fn result_is_located_by_the_field_that_the_method_names() {
    let names = vec!["error".to_owned(), "code".to_owned(), "result".to_owned()];
    assert_eq!(
        Ok(ResultLocation::Field { index: 2 }),
        locate_result(ListCollections::new().return_type(), &names)
    );
    assert_eq!(
        Ok(ResultLocation::WholeBody),
        locate_result(GetCollection::with_name("customers").return_type(), &names)
    );
    let names = vec!["id".to_owned(), "error".to_owned(), "id".to_owned()];
    assert_eq!(
        Ok(ResultLocation::Field { index: 0 }),
        locate_result(DropCollection::with_name("customers").return_type(), &names)
    );
}

#[test]
fn result_field_that_is_missing_violates_the_protocol() {
    let names = vec!["error".to_owned(), "code".to_owned(), "Result".to_owned()];
    let missing = ProtocolViolation::Response {
        violation: Violation::MissingField { field: Field::Result },
    };
    assert_eq!(Err(missing), locate_result(ListCollections::new().return_type(), &names));
    assert_eq!(
        Err(missing),
        locate_result(DropCollection::with_name("customers").return_type(), &Vec::new())
    );
    assert_eq!(
        Ok(ResultLocation::WholeBody),
        locate_result(GetCollection::with_name("customers").return_type(), &Vec::new())
    );
}
