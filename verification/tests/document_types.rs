use rincon_client::document::types::{
    holds_name_part, Document, DocumentHeader, DocumentId, DocumentKey, DocumentUpdate,
    MalformedIdentifier, NewDocument, Revision, UpdatedDocumentHeader,
};

#[test]
fn document_id_renders_collection_name_separator_and_key() {
    let id = DocumentId::new("customers50", "94711");
    assert_eq!("customers50", id.collection_name());
    assert_eq!("94711", id.document_key());
    assert_eq!("customers50/94711", id.to_string());
}

#[test]
fn document_id_is_parsed_from_its_canonical_form() {
    let id = DocumentId::from_str("customers03/94711").unwrap();
    assert_eq!("customers03", id.collection_name());
    assert_eq!("94711", id.document_key());
    assert_eq!(DocumentId::new("customers03", "94711"), id);
}

#[test]
fn document_id_round_trips_through_its_canonical_form() {
    let pairs = [
        ("customers", "7713996"),
        ("c", "k"),
        ("_users", "a b"),
        ("édition", "clé-ü"),
        ("customers", "with:colon@and.dots"),
    ];
    for (collection, key) in pairs {
        let id = DocumentId::new(collection, key);
        let parsed = DocumentId::from_str(&id.to_string()).unwrap();
        assert_eq!(id, parsed);
        assert_eq!((collection.to_owned(), key.to_owned()), parsed.unwrap());
    }
}

#[test]
fn document_id_without_separator_is_malformed() {
    assert_eq!(
        Err(MalformedIdentifier { value: "customers".to_owned() }),
        DocumentId::from_str("customers")
    );
    assert_eq!(
        Err(MalformedIdentifier { value: String::new() }),
        DocumentId::from_str("")
    );
}

#[test]
fn document_id_with_an_empty_part_is_malformed() {
    assert!(DocumentId::from_str("/94711").is_err());
    assert!(DocumentId::from_str("customers/").is_err());
    assert!(DocumentId::from_str("/").is_err());
}

#[test]
fn document_id_with_a_second_separator_is_malformed() {
    assert_eq!(
        Err(MalformedIdentifier { value: "a/b/c".to_owned() }),
        DocumentId::from_str("a/b/c")
    );
    assert!(DocumentId::from_str("a//c").is_err());
    assert!(DocumentId::from_str("a/b/").is_err());
}

#[test]
fn document_id_of_parts_with_a_separator_is_not_found_again() {
    let id = DocumentId::new("a/b", "c");
    assert_eq!("a/b/c", id.to_string());
    assert!(DocumentId::from_str(&id.to_string()).is_err());
}

#[test]
fn name_part_is_not_empty_and_holds_no_separator() {
    assert!(holds_name_part("customers"));
    assert!(holds_name_part("9"));
    assert!(!holds_name_part(""));
    assert!(!holds_name_part("a/b"));
    assert!(!holds_name_part("/"));
    assert!(!holds_name_part("ab/"));
}

#[test]
fn document_key_from_string_refuses_what_is_no_key() {
    let key = DocumentKey::from_string("94711".to_owned()).unwrap();
    assert_eq!("94711", key.as_str());
    assert_eq!(DocumentKey::new("94711"), key);
    assert_eq!("94711", key.unwrap());
    assert_eq!(
        Err(MalformedIdentifier { value: "a/b".to_owned() }),
        DocumentKey::from_string("a/b".to_owned())
    );
    assert_eq!(
        Err(MalformedIdentifier { value: String::new() }),
        DocumentKey::from_string(String::new())
    );
}

#[test]
fn revisions_are_equal_where_their_texts_are_equal() {
    let revision = Revision::new("_WQyS2hi--_");
    assert_eq!(Revision::new("_WQyS2hi--_"), revision);
    assert_ne!(Revision::new("_WQyS2hi--A"), revision);
    assert_ne!(Revision::new("wrong_revision"), revision);
    assert!(revision.has_text(&"_WQyS2hi--_".to_owned()));
    assert!(!revision.has_text(&"_wqys2hi--_".to_owned()));
    assert_eq!("_WQyS2hi--_", revision.as_str());
    assert_eq!("_WQyS2hi--_", revision.unwrap());
}

#[test]
fn document_header_is_taken_apart_into_its_parts() {
    let header = DocumentHeader::new(
        DocumentId::new("customers", "94711"),
        DocumentKey::new("94711"),
        Revision::new("_rev1"),
    );
    assert_eq!("customers/94711", header.id().to_string());
    assert_eq!("94711", header.key().as_str());
    assert_eq!("_rev1", header.revision().as_str());
    let (id, key, revision) = header.deconstruct();
    assert_eq!(DocumentId::new("customers", "94711"), id);
    assert_eq!(DocumentKey::new("94711"), key);
    assert_eq!(Revision::new("_rev1"), revision);
}

#[test]
fn document_carries_its_header_and_its_content() {
    let header = DocumentHeader::new(
        DocumentId::new("customers", "94711"),
        DocumentKey::new("94711"),
        Revision::new("_rev1"),
    );
    let document = Document::new(header, 42u16);
    assert_eq!("customers", document.id().collection_name());
    assert_eq!("94711", document.key().as_str());
    assert_eq!("_rev1", document.revision().as_str());
    assert_eq!(&42, document.content());
    assert_eq!(42, document.unwrap_content());
}

#[test]
fn updated_document_header_carries_both_revisions() {
    let header = DocumentHeader::new(
        DocumentId::new("customers", "94711"),
        DocumentKey::new("94711"),
        Revision::new("_rev2"),
    );
    let updated: UpdatedDocumentHeader<String, String> =
        UpdatedDocumentHeader::new(header, Revision::new("_rev1"), None, Some("new".to_owned()));
    assert_eq!("customers/94711", updated.id().to_string());
    assert_eq!("94711", updated.key().as_str());
    assert_eq!(&Revision::new("_rev2"), updated.revision());
    assert_eq!(&Revision::new("_rev1"), updated.old_revision());
    assert_ne!(updated.old_revision(), updated.revision());
    assert_eq!(None, updated.old_content());
    assert_eq!(Some(&"new".to_owned()), updated.new_content());
}

#[test]
fn new_document_has_no_key_until_one_is_given() {
    let document = NewDocument::from_content("content".to_owned());
    assert_eq!(None, document.key());
    assert_eq!("content", document.content());
    let document = document.with_key(DocumentKey::new("7713996"));
    assert_eq!(Some(&DocumentKey::new("7713996")), document.key());
    assert_eq!("content", document.content());
}

#[test]
fn document_update_expects_no_revision_until_one_is_given() {
    let update = DocumentUpdate::new(DocumentKey::new("94711"), 43u16);
    assert_eq!("94711", update.key().as_str());
    assert_eq!(None, update.revision());
    assert_eq!(&43, update.content());
    let update = update.with_revision(Revision::new("wrong_revision"));
    assert_eq!(Some(&Revision::new("wrong_revision")), update.revision());
    assert_eq!("94711", update.key().as_str());
    assert_eq!(&43, update.content());
}
