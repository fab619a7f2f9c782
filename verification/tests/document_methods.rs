use rincon_client::document::conditional::ConditionalPolicy;
use rincon_client::document::methods::{
    GetDocument, InsertDocument, InsertDocumentReturnNew, InsertDocuments,
    InsertDocumentsReturnNew, ReplaceDocument, UpdateDocument,
};
use rincon_client::document::types::{
    DocumentId, DocumentKey, DocumentUpdate, NewDocument, Revision,
};
use rincon_client::method::{Operation, Verb};
use rincon_core::api::method::Parameters;
use rincon_core::api::types::Value;

fn pairs(params: &Parameters) -> Vec<(String, Value)> {
    params.iter().cloned().collect()
}

fn flag(name: &str) -> (String, Value) {
    (name.to_owned(), Value::Bool(true))
}

fn text(name: &str, value: &str) -> (String, Value) {
    (name.to_owned(), Value::String(value.to_owned()))
}

#[derive(Clone, Debug, PartialEq)]
struct Customer {
    name: String,
    age: u16,
}

const JANE: &str = r#"{"name":"Jane Doe","age":42}"#;
const JOHN: &str = r#"{"name":"John Doe","age":27}"#;

#[test]
fn insert_document_posts_to_the_collection() {
    let method = InsertDocument::new("customers01", NewDocument::from_content(JANE));
    assert_eq!("customers01", method.collection_name());
    assert!(!method.is_force_wait_for_sync());
    assert_eq!(Operation::Create, method.operation());
    assert_eq!(Verb::Post, method.operation().verb());
    assert_eq!("/_api/document/customers01", method.path());
    assert!(method.parameters().is_empty());
    assert!(method.header().is_empty());
    assert_eq!(Some(&NewDocument::from_content(JANE)), method.content());
    assert_eq!(method.document(), method.content().unwrap());
    assert_eq!(None, method.return_type().result_field);
    assert_eq!(Some("code"), method.return_type().code_field);
}

#[test]
fn insert_document_with_key_keeps_the_key_in_the_content() {
    let document = NewDocument::from_content(JANE).with_key(DocumentKey::new("94711"));
    let method = InsertDocument::new("customers03", document);
    assert_eq!(
        Some(&DocumentKey::new("94711")),
        method.content().unwrap().key()
    );
    assert_eq!("/_api/document/customers03", method.path());
}

#[test]
fn insert_document_forced_to_sync_sends_wait_for_sync() {
    let method = InsertDocument::new("customers01", NewDocument::from_content(JANE))
        .with_force_wait_for_sync(true);
    assert!(method.is_force_wait_for_sync());
    assert_eq!(vec![flag("waitForSync")], pairs(&method.parameters()));
    let method = method.with_force_wait_for_sync(false);
    assert!(method.parameters().is_empty());
}

#[test]
fn insert_document_return_new_always_sends_return_new() {
    let method = InsertDocumentReturnNew::new("customers02", NewDocument::from_content(JANE));
    assert_eq!("customers02", method.collection_name());
    assert_eq!(Operation::Create, method.operation());
    assert_eq!("/_api/document/customers02", method.path());
    assert_eq!(vec![flag("returnNew")], pairs(&method.parameters()));
    assert!(method.header().is_empty());
    assert_eq!(method.document(), method.content().unwrap());
    let method = method.with_force_wait_for_sync(true);
    assert!(method.is_force_wait_for_sync());
    assert_eq!(
        vec![flag("waitForSync"), flag("returnNew")],
        pairs(&method.parameters())
    );
}

#[test]
fn insert_documents_sends_all_documents_in_one_request() {
    let documents = vec![
        NewDocument::from_content(JANE),
        NewDocument::from_content(JOHN),
    ];
    let method = InsertDocuments::new("customers06", documents.clone())
        .with_force_wait_for_sync(true);
    assert_eq!("customers06", method.collection_name());
    assert!(method.is_force_wait_for_sync());
    assert_eq!(Operation::Create, method.operation());
    assert_eq!("/_api/document/customers06", method.path());
    assert_eq!(vec![flag("waitForSync")], pairs(&method.parameters()));
    assert!(method.header().is_empty());
    assert_eq!(Some(&documents), method.content());
    assert_eq!(&documents, method.documents());
    assert_eq!(None, method.return_type().result_field);
}

#[test]
fn insert_documents_return_new_always_sends_return_new() {
    let documents = vec![
        NewDocument::from_content(JANE).with_key(DocumentKey::new("94712")),
        NewDocument::from_content(JOHN).with_key(DocumentKey::new("90815")),
    ];
    let method = InsertDocumentsReturnNew::new("customers09", documents.clone());
    assert_eq!("customers09", method.collection_name());
    assert!(!method.is_force_wait_for_sync());
    assert_eq!(Operation::Create, method.operation());
    assert_eq!("/_api/document/customers09", method.path());
    assert_eq!(vec![flag("returnNew")], pairs(&method.parameters()));
    assert_eq!(Some(&documents), method.content());
    let method = method.with_force_wait_for_sync(true);
    assert_eq!(
        vec![flag("waitForSync"), flag("returnNew")],
        pairs(&method.parameters())
    );
}

#[test]
fn get_document_reads_the_document_resource() {
    let id = DocumentId::new("customers10", "7713996");
    let method = GetDocument::new(id.clone());
    assert_eq!(&id, method.id());
    assert_eq!(None, method.if_match());
    assert_eq!(None, method.if_non_match());
    assert_eq!(Operation::Read, method.operation());
    assert_eq!(Verb::Get, method.operation().verb());
    assert_eq!("/_api/document/customers10/7713996", method.path());
    assert!(method.parameters().is_empty());
    assert!(method.header().is_empty());
    assert!(method.content().is_none());
    assert_eq!(ConditionalPolicy::unconditional(), method.policy());
}

#[test]
fn get_document_with_if_match_sends_the_revision_in_the_header() {
    let method = GetDocument::new(DocumentId::new("customers13", "1"))
        .with_if_match("_WQyS2hi--_".to_owned());
    assert_eq!(Some(&"_WQyS2hi--_".to_owned()), method.if_match());
    assert_eq!(
        vec![text("If-Match", "_WQyS2hi--_")],
        pairs(&method.header())
    );
    assert!(method.parameters().is_empty());
    assert!(method.policy().admits(&Revision::new("_WQyS2hi--_")));
    assert!(!method.policy().admits(&Revision::new("not_WQyS2hi--_")));
}

#[test]
fn get_document_with_if_non_match_sends_the_revision_in_the_header() {
    let method = GetDocument::new(DocumentId::new("customers14", "1"))
        .with_if_non_match("not_WQyS2hi--_".to_owned());
    assert_eq!(Some(&"not_WQyS2hi--_".to_owned()), method.if_non_match());
    assert_eq!(
        vec![text("If-None-Match", "not_WQyS2hi--_")],
        pairs(&method.header())
    );
    assert!(method.policy().admits(&Revision::new("_WQyS2hi--_")));
    assert!(!method.policy().admits(&Revision::new("not_WQyS2hi--_")));
}

#[test]
fn get_document_with_both_conditions_sends_if_match_first() {
    let method = GetDocument::new(DocumentId::new("customers", "1"))
        .with_if_non_match("b".to_owned())
        .with_if_match("a".to_owned());
    assert_eq!(
        vec![text("If-Match", "a"), text("If-None-Match", "b")],
        pairs(&method.header())
    );
}

#[test]
fn replace_document_puts_to_the_document_resource() {
    let id = DocumentId::new("customers30", "94711");
    let update = DocumentUpdate::new(DocumentKey::new("94711"), JOHN);
    let method = ReplaceDocument::new(id.clone(), update.clone());
    assert_eq!(&id, method.id());
    assert_eq!(&update, method.update());
    assert!(!method.is_force_wait_for_sync());
    assert!(!method.is_ignore_revisions());
    assert!(!method.is_return_old());
    assert!(!method.is_return_new());
    assert_eq!(None, method.if_match());
    assert_eq!(Operation::Replace, method.operation());
    assert_eq!(Verb::Put, method.operation().verb());
    assert_eq!("/_api/document/customers30/94711", method.path());
    assert!(method.parameters().is_empty());
    assert!(method.header().is_empty());
    assert_eq!(Some(&update), method.content());
    assert_eq!(None, method.body_revision());
    assert_eq!(None, method.return_type().result_field);
}

#[test]
fn replace_document_sends_one_parameter_for_each_flag_that_is_set() {
    let update = DocumentUpdate::new(DocumentKey::new("94711"), JOHN)
        .with_revision(Revision::new("wrong_revision"));
    let method = ReplaceDocument::new(DocumentId::new("customers36", "94711"), update)
        .with_ignore_revisions(true)
        .with_return_old(true)
        .with_return_new(true)
        .with_force_wait_for_sync(true);
    assert!(method.is_force_wait_for_sync());
    assert!(method.is_ignore_revisions());
    assert!(method.is_return_old());
    assert!(method.is_return_new());
    assert_eq!(
        vec![
            flag("waitForSync"),
            flag("ignoreRevs"),
            flag("returnOld"),
            flag("returnNew"),
        ],
        pairs(&method.parameters())
    );
    let method = method.with_return_old(false).with_force_wait_for_sync(false);
    assert_eq!(
        vec![flag("ignoreRevs"), flag("returnNew")],
        pairs(&method.parameters())
    );
}

#[test]
fn replace_document_carries_the_expected_revision_unless_revisions_are_ignored() {
    let update = DocumentUpdate::new(DocumentKey::new("94711"), JOHN)
        .with_revision(Revision::new("_rev1"));
    let method = ReplaceDocument::new(DocumentId::new("customers31", "94711"), update);
    assert_eq!(Some(&Revision::new("_rev1")), method.body_revision());
    assert!(method.policy().admits(&Revision::new("_rev1")));
    assert!(!method.policy().admits(&Revision::new("_rev2")));

    let method = method.with_ignore_revisions(true);
    assert_eq!(None, method.body_revision());
    assert!(method.policy().admits(&Revision::new("_rev1")));
    assert!(method.policy().admits(&Revision::new("_rev2")));

    let method = method.with_ignore_revisions(false);
    assert_eq!(Some(&Revision::new("_rev1")), method.body_revision());
    assert!(!method.policy().admits(&Revision::new("_rev2")));
}

#[test]
fn replace_document_with_if_match_sends_the_revision_in_the_header() {
    let update = DocumentUpdate::new(DocumentKey::new("94711"), JOHN);
    let method = ReplaceDocument::new(DocumentId::new("customers38", "94711"), update)
        .with_if_match("_rev1".to_owned())
        .with_return_old(true)
        .with_return_new(true);
    assert_eq!(Some(&"_rev1".to_owned()), method.if_match());
    assert_eq!(vec![text("If-Match", "_rev1")], pairs(&method.header()));
    assert_eq!(
        vec![flag("returnOld"), flag("returnNew")],
        pairs(&method.parameters())
    );
    assert_eq!(None, method.body_revision());
    assert!(method.policy().admits(&Revision::new("_rev1")));
    assert!(!method.policy().admits(&Revision::new("wrong_revision")));
}

#[test]
fn update_document_patches_the_document_resource() {
    let id = DocumentId::new("customers40", "94711");
    let update = DocumentUpdate::new(DocumentKey::new("94711"), r#"{"age":43}"#);
    let method = UpdateDocument::new(id.clone(), update.clone()).with_return_new(true);
    assert_eq!(&id, method.id());
    assert_eq!(&update, method.update());
    assert_eq!(Operation::Modify, method.operation());
    assert_eq!(Verb::Patch, method.operation().verb());
    assert_eq!("/_api/document/customers40/94711", method.path());
    assert_eq!(vec![flag("returnNew")], pairs(&method.parameters()));
    assert!(method.header().is_empty());
    assert_eq!(Some(&update), method.content());
    assert!(method.is_return_new());
    assert!(!method.is_return_old());
    assert!(!method.is_ignore_revisions());
    assert!(!method.is_force_wait_for_sync());
}

#[test]
fn update_document_conditions_go_to_the_header_and_the_body() {
    let update = DocumentUpdate::new(DocumentKey::new("94711"), r#"{"age":43}"#)
        .with_revision(Revision::new("_rev1"));
    let method = UpdateDocument::new(DocumentId::new("customers40", "94711"), update)
        .with_if_match("_rev1".to_owned())
        .with_force_wait_for_sync(true)
        .with_return_old(true);
    assert_eq!(vec![text("If-Match", "_rev1")], pairs(&method.header()));
    assert_eq!(Some(&"_rev1".to_owned()), method.if_match());
    assert_eq!(Some(&Revision::new("_rev1")), method.body_revision());
    assert_eq!(
        vec![flag("waitForSync"), flag("returnOld")],
        pairs(&method.parameters())
    );
    assert!(method.policy().admits(&Revision::new("_rev1")));
    assert!(!method.policy().admits(&Revision::new("_rev2")));
    let method = method.with_ignore_revisions(true);
    assert_eq!(None, method.body_revision());
    assert_eq!(
        vec![flag("waitForSync"), flag("ignoreRevs"), flag("returnOld")],
        pairs(&method.parameters())
    );
}

#[test]
fn request_of_an_insert_does_not_depend_on_the_kind_of_content() {
    let typed = InsertDocument::new(
        "customers11",
        NewDocument::from_content(Customer { name: "Jane Doe".to_owned(), age: 42 })
            .with_key(DocumentKey::new("7713996")),
    )
    .with_force_wait_for_sync(true);
    let opaque = InsertDocument::new(
        "customers11",
        NewDocument::from_content(JANE).with_key(DocumentKey::new("7713996")),
    )
    .with_force_wait_for_sync(true);
    assert_eq!(typed.operation(), opaque.operation());
    assert_eq!(typed.path(), opaque.path());
    assert_eq!(pairs(&typed.parameters()), pairs(&opaque.parameters()));
    assert_eq!(pairs(&typed.header()), pairs(&opaque.header()));
    assert_eq!(typed.content().unwrap().key(), opaque.content().unwrap().key());
}
