//! Methods for inserting, reading, replacing and updating documents.
//!
//! Each method is a value that holds what one call needs. From it the kind of
//! the operation, the path of the resource, the query parameters, the header
//! and the content of the request are derived, and from nothing else. A flag
//! that is not set is not sent: the server then goes by its own setting.

use crate::document::batch::{
    aggregate_documents, aggregate_headers, decoded_documents, decoded_headers,
    document_outcomes_view, header_outcomes_view, is_aggregate_of,
};
use crate::document::conditional::{
    conditional_header, optional_text, spec_conditional_header, ConditionalPolicy,
    ConditionalPolicyView,
};
use crate::document::response::{
    decode_document, decode_header, decode_updated, spec_decode_document, spec_decode_header,
    spec_decode_updated, ElementFields, HeaderFields, UpdateFields, UpdatedView,
};
use crate::document::types::{
    spec_render, Document, DocumentHeader, DocumentHeaderView, DocumentId, DocumentIdView,
    DocumentUpdate, NewDocument, Revision, UpdatedDocumentHeader,
};
use crate::error::{ElementError, ProtocolViolation, Violation};
use crate::method::{plain_resource_path, spec_resource_path, Operation, RpcReturnType};
use crate::params::{
    empty_parameters, insert_flag, new_parameters, no_entries, param_entries, with_flag_if,
    ParamEntry,
};
use crate::protocol::{
    FIELD_CODE, PARAM_IGNORE_REVISIONS, PARAM_RETURN_NEW, PARAM_RETURN_OLD, PARAM_WAIT_FOR_SYNC,
    PATH_API_DOCUMENT,
};
use rincon_core::api::method::Parameters;
use vstd::prelude::*;
use vstd::string::StringExecFns;

verus! {

/// The path of the documents of the collection `collection_name`.
pub open spec fn spec_collection_documents_path(collection_name: Seq<char>) -> Seq<char> {
    spec_resource_path(PATH_API_DOCUMENT@, collection_name, Seq::empty())
}

/// Builds the path of the documents of the collection `collection_name`.
fn collection_documents_path(collection_name: &str) -> (path: String)
    ensures
        path@ == spec_collection_documents_path(collection_name@),
{
    plain_resource_path(PATH_API_DOCUMENT, collection_name)
}

/// The query parameters of an insert: `waitForSync` where the sync to disk
/// is forced, then `returnNew` where the new content is asked for, each with
/// the value `true`.
pub open spec fn spec_insert_parameters(force_wait_for_sync: bool, return_new: bool) -> Seq<
    ParamEntry,
> {
    with_flag_if(
        with_flag_if(no_entries(), force_wait_for_sync, PARAM_WAIT_FOR_SYNC@, true),
        return_new,
        PARAM_RETURN_NEW@,
        true,
    )
}

/// Builds the query parameters of an insert.
fn insert_parameters(force_wait_for_sync: bool, return_new: bool) -> (params: Parameters)
    ensures
        param_entries(params) == spec_insert_parameters(force_wait_for_sync, return_new),
{
    let mut params = new_parameters();
    if force_wait_for_sync {
        insert_flag(&mut params, PARAM_WAIT_FOR_SYNC, true);
    }
    if return_new {
        insert_flag(&mut params, PARAM_RETURN_NEW, true);
    }
    params
}

/// The return type of the methods on documents: the result is the whole
/// body, and the status code is found in the field `code`.
pub open spec fn returns_document_body(return_type: RpcReturnType) -> bool {
    &&& return_type.result_name() == None::<Seq<char>>
    &&& return_type.code_name() == Some(FIELD_CODE@)
}

/// The view of a decoded response whose result is a header.
pub open spec fn header_response_view(result: Result<DocumentHeader, ProtocolViolation>) -> Result<
    DocumentHeaderView,
    ProtocolViolation,
> {
    match result {
        Ok(header) => Ok(header@),
        Err(violation) => Err(violation),
    }
}

/// The view of a decoded response whose result is a document.
pub open spec fn document_response_view<T>(
    result: Result<Document<T>, ProtocolViolation>,
) -> Result<(DocumentHeaderView, T), ProtocolViolation> {
    match result {
        Ok(document) => Ok((document.header(), document.spec_content())),
        Err(violation) => Err(violation),
    }
}

/// What is wrong with an object of a response, as a failure of the call.
pub open spec fn spec_response_violation<V>(result: Result<V, Violation>) -> Result<
    V,
    ProtocolViolation,
> {
    match result {
        Ok(value) => Ok(value),
        Err(violation) => Err(ProtocolViolation::Response { violation }),
    }
}

/// Inserts one document into a collection. The result is the header of the
/// new document.
#[derive(Debug, Clone, PartialEq)]
pub struct InsertDocument<T> {
    collection_name: String,
    document: NewDocument<T>,
    force_wait_for_sync: bool,
}

impl<T> InsertDocument<T> {
    /// The name of the collection that the document goes into.
    pub closed spec fn spec_collection_name(&self) -> Seq<char> {
        self.collection_name@
    }

    /// The document that is inserted.
    pub closed spec fn spec_document(&self) -> NewDocument<T> {
        self.document
    }

    /// Whether the server is told to sync to disk before it answers.
    pub closed spec fn forces_wait_for_sync(&self) -> bool {
        self.force_wait_for_sync
    }

    /// Constructs a new instance of the `InsertDocument` method that inserts
    /// `document` into the collection `collection_name`. The sync to disk is
    /// left to the setting of the collection.
    pub fn new(collection_name: &str, document: NewDocument<T>) -> (method: Self)
        ensures
            method.spec_collection_name() == collection_name@,
            method.spec_document() == document,
            !method.forces_wait_for_sync(),
    {
        InsertDocument {
            collection_name: String::from_str(collection_name),
            document,
            force_wait_for_sync: false,
        }
    }

    /// Sets whether the server is told to sync to disk before it answers.
    pub fn with_force_wait_for_sync(self, force_wait_for_sync: bool) -> (method: Self)
        ensures
            method.spec_collection_name() == self.spec_collection_name(),
            method.spec_document() == self.spec_document(),
            method.forces_wait_for_sync() == force_wait_for_sync,
    {
        InsertDocument {
            collection_name: self.collection_name,
            document: self.document,
            force_wait_for_sync,
        }
    }

    /// Returns the name of the collection that the document goes into.
    pub fn collection_name(&self) -> (name: &str)
        ensures
            name@ == self.spec_collection_name(),
    {
        self.collection_name.as_str()
    }

    /// Returns the document that is inserted.
    pub fn document(&self) -> (document: &NewDocument<T>)
        ensures
            *document == self.spec_document(),
    {
        &self.document
    }

    /// Returns whether the server is told to sync to disk before it answers.
    pub fn is_force_wait_for_sync(&self) -> (force: bool)
        ensures
            force == self.forces_wait_for_sync(),
    {
        self.force_wait_for_sync
    }

    /// Returns the kind of the operation: a creation.
    pub fn operation(&self) -> (operation: Operation)
        ensures
            operation == Operation::Create,
    {
        Operation::Create
    }

    /// Returns the path of the resource: that of the documents of the
    /// collection.
    pub fn path(&self) -> (path: String)
        ensures
            path@ == spec_collection_documents_path(self.spec_collection_name()),
    {
        collection_documents_path(self.collection_name.as_str())
    }

    /// Returns the query parameters: `waitForSync` where the sync is forced.
    pub fn parameters(&self) -> (params: Parameters)
        ensures
            param_entries(params) == spec_insert_parameters(self.forces_wait_for_sync(), false),
    {
        insert_parameters(self.force_wait_for_sync, false)
    }

    /// Returns the header parameters: there are none.
    pub fn header(&self) -> (header: Parameters)
        ensures
            param_entries(header) == no_entries(),
    {
        empty_parameters()
    }

    /// Returns the content of the request: the new document.
    pub fn content(&self) -> (content: Option<&NewDocument<T>>)
        ensures
            content == Some(&self.spec_document()),
    {
        Some(&self.document)
    }

    /// Returns where the result is found in the response: it is the whole
    /// body.
    pub fn return_type(&self) -> (return_type: RpcReturnType)
        ensures
            returns_document_body(return_type),
    {
        RpcReturnType { result_field: None, code_field: Some(FIELD_CODE) }
    }

    /// Decodes the result of the call from the fields of the response: the
    /// header of the new document.
    pub fn decode(&self, fields: HeaderFields) -> (result: Result<
        DocumentHeader,
        ProtocolViolation,
    >)
        ensures
            header_response_view(result) == spec_response_violation(spec_decode_header(fields)),
    {
        match decode_header(fields) {
            Ok(header) => Ok(header),
            Err(violation) => Err(ProtocolViolation::Response { violation }),
        }
    }
}

/// Inserts one document into a collection and asks for its content as the
/// server holds it. The result is the new document.
#[derive(Debug, Clone, PartialEq)]
pub struct InsertDocumentReturnNew<T> {
    collection_name: String,
    document: NewDocument<T>,
    force_wait_for_sync: bool,
}

impl<T> InsertDocumentReturnNew<T> {
    /// The name of the collection that the document goes into.
    pub closed spec fn spec_collection_name(&self) -> Seq<char> {
        self.collection_name@
    }

    /// The document that is inserted.
    pub closed spec fn spec_document(&self) -> NewDocument<T> {
        self.document
    }

    /// Whether the server is told to sync to disk before it answers.
    pub closed spec fn forces_wait_for_sync(&self) -> bool {
        self.force_wait_for_sync
    }

    /// Constructs a new instance of the `InsertDocumentReturnNew` method that
    /// inserts `document` into the collection `collection_name`. The sync to
    /// disk is left to the setting of the collection.
    pub fn new(collection_name: &str, document: NewDocument<T>) -> (method: Self)
        ensures
            method.spec_collection_name() == collection_name@,
            method.spec_document() == document,
            !method.forces_wait_for_sync(),
    {
        InsertDocumentReturnNew {
            collection_name: String::from_str(collection_name),
            document,
            force_wait_for_sync: false,
        }
    }

    /// Sets whether the server is told to sync to disk before it answers.
    pub fn with_force_wait_for_sync(self, force_wait_for_sync: bool) -> (method: Self)
        ensures
            method.spec_collection_name() == self.spec_collection_name(),
            method.spec_document() == self.spec_document(),
            method.forces_wait_for_sync() == force_wait_for_sync,
    {
        InsertDocumentReturnNew {
            collection_name: self.collection_name,
            document: self.document,
            force_wait_for_sync,
        }
    }

    /// Returns the name of the collection that the document goes into.
    pub fn collection_name(&self) -> (name: &str)
        ensures
            name@ == self.spec_collection_name(),
    {
        self.collection_name.as_str()
    }

    /// Returns the document that is inserted.
    pub fn document(&self) -> (document: &NewDocument<T>)
        ensures
            *document == self.spec_document(),
    {
        &self.document
    }

    /// Returns whether the server is told to sync to disk before it answers.
    pub fn is_force_wait_for_sync(&self) -> (force: bool)
        ensures
            force == self.forces_wait_for_sync(),
    {
        self.force_wait_for_sync
    }

    /// Returns the kind of the operation: a creation.
    pub fn operation(&self) -> (operation: Operation)
        ensures
            operation == Operation::Create,
    {
        Operation::Create
    }

    /// Returns the path of the resource: that of the documents of the
    /// collection.
    pub fn path(&self) -> (path: String)
        ensures
            path@ == spec_collection_documents_path(self.spec_collection_name()),
    {
        collection_documents_path(self.collection_name.as_str())
    }

    /// Returns the query parameters: `waitForSync` where the sync is forced,
    /// then `returnNew`.
    pub fn parameters(&self) -> (params: Parameters)
        ensures
            param_entries(params) == spec_insert_parameters(self.forces_wait_for_sync(), true),
    {
        insert_parameters(self.force_wait_for_sync, true)
    }

    /// Returns the header parameters: there are none.
    pub fn header(&self) -> (header: Parameters)
        ensures
            param_entries(header) == no_entries(),
    {
        empty_parameters()
    }

    /// Returns the content of the request: the new document.
    pub fn content(&self) -> (content: Option<&NewDocument<T>>)
        ensures
            content == Some(&self.spec_document()),
    {
        Some(&self.document)
    }

    /// Returns where the result is found in the response: it is the whole
    /// body.
    pub fn return_type(&self) -> (return_type: RpcReturnType)
        ensures
            returns_document_body(return_type),
    {
        RpcReturnType { result_field: None, code_field: Some(FIELD_CODE) }
    }

    /// Decodes the result of the call from the fields of the response: the
    /// new document, whose content must be there.
    pub fn decode<New>(&self, fields: HeaderFields, new_content: Option<New>) -> (result: Result<
        Document<New>,
        ProtocolViolation,
    >)
        ensures
            document_response_view(result) == spec_response_violation(
                spec_decode_document(fields, new_content),
            ),
    {
        match decode_document(fields, new_content) {
            Ok(document) => Ok(document),
            Err(violation) => Err(ProtocolViolation::Response { violation }),
        }
    }
}

/// Inserts several documents into a collection in one call. The result holds
/// one outcome for each document: the header of the new document, or the
/// error that kept it from being inserted.
#[derive(Debug, Clone, PartialEq)]
pub struct InsertDocuments<T> {
    collection_name: String,
    documents: Vec<NewDocument<T>>,
    force_wait_for_sync: bool,
}

impl<T> InsertDocuments<T> {
    /// The name of the collection that the documents go into.
    pub closed spec fn spec_collection_name(&self) -> Seq<char> {
        self.collection_name@
    }

    /// The documents that are inserted, in the order in which they are sent.
    pub closed spec fn spec_documents(&self) -> Seq<NewDocument<T>> {
        self.documents@
    }

    /// Whether the server is told to sync to disk before it answers.
    pub closed spec fn forces_wait_for_sync(&self) -> bool {
        self.force_wait_for_sync
    }

    /// Constructs a new instance of the `InsertDocuments` method that inserts
    /// `documents` into the collection `collection_name`, all in one call.
    /// The sync to disk is left to the setting of the collection.
    pub fn new(collection_name: &str, documents: Vec<NewDocument<T>>) -> (method: Self)
        ensures
            method.spec_collection_name() == collection_name@,
            method.spec_documents() == documents@,
            !method.forces_wait_for_sync(),
    {
        InsertDocuments {
            collection_name: String::from_str(collection_name),
            documents,
            force_wait_for_sync: false,
        }
    }

    /// Sets whether the server is told to sync to disk before it answers.
    pub fn with_force_wait_for_sync(self, force_wait_for_sync: bool) -> (method: Self)
        ensures
            method.spec_collection_name() == self.spec_collection_name(),
            method.spec_documents() == self.spec_documents(),
            method.forces_wait_for_sync() == force_wait_for_sync,
    {
        InsertDocuments {
            collection_name: self.collection_name,
            documents: self.documents,
            force_wait_for_sync,
        }
    }

    /// Returns the name of the collection that the documents go into.
    pub fn collection_name(&self) -> (name: &str)
        ensures
            name@ == self.spec_collection_name(),
    {
        self.collection_name.as_str()
    }

    /// Returns the documents that are inserted.
    pub fn documents(&self) -> (documents: &Vec<NewDocument<T>>)
        ensures
            documents@ == self.spec_documents(),
    {
        &self.documents
    }

    /// Returns whether the server is told to sync to disk before it answers.
    pub fn is_force_wait_for_sync(&self) -> (force: bool)
        ensures
            force == self.forces_wait_for_sync(),
    {
        self.force_wait_for_sync
    }

    /// Returns the kind of the operation: a creation.
    pub fn operation(&self) -> (operation: Operation)
        ensures
            operation == Operation::Create,
    {
        Operation::Create
    }

    /// Returns the path of the resource: that of the documents of the
    /// collection.
    pub fn path(&self) -> (path: String)
        ensures
            path@ == spec_collection_documents_path(self.spec_collection_name()),
    {
        collection_documents_path(self.collection_name.as_str())
    }

    /// Returns the query parameters: `waitForSync` where the sync is forced.
    pub fn parameters(&self) -> (params: Parameters)
        ensures
            param_entries(params) == spec_insert_parameters(self.forces_wait_for_sync(), false),
    {
        insert_parameters(self.force_wait_for_sync, false)
    }

    /// Returns the header parameters: there are none.
    pub fn header(&self) -> (header: Parameters)
        ensures
            param_entries(header) == no_entries(),
    {
        empty_parameters()
    }

    /// Returns the content of the request: all the documents, in one
    /// sequence.
    pub fn content(&self) -> (content: Option<&Vec<NewDocument<T>>>)
        ensures
            content is Some,
            content.unwrap()@ == self.spec_documents(),
    {
        Some(&self.documents)
    }

    /// Returns where the result is found in the response: it is the whole
    /// body.
    pub fn return_type(&self) -> (return_type: RpcReturnType)
        ensures
            returns_document_body(return_type),
    {
        RpcReturnType { result_field: None, code_field: Some(FIELD_CODE) }
    }

    /// Decodes the result of the call from the elements of the response: one
    /// outcome for each document of the request, in the order of the
    /// request. The response must hold as many elements as the request holds
    /// documents.
    pub fn decode<New>(&self, elements: Vec<ElementFields<New>>) -> (result: Result<
        Vec<Result<DocumentHeader, ElementError>>,
        ProtocolViolation,
    >)
        ensures
            is_aggregate_of(
                header_outcomes_view(result),
                self.spec_documents().len() as usize,
                decoded_headers(elements@),
            ),
            result is Ok ==> result.unwrap()@.len() == self.spec_documents().len(),
    {
        aggregate_headers(self.documents.len(), elements)
    }
}

/// Inserts several documents into a collection in one call and asks for
/// their content as the server holds it. The result holds one outcome for
/// each document: the new document, or the error that kept it from being
/// inserted.
#[derive(Debug, Clone, PartialEq)]
pub struct InsertDocumentsReturnNew<T> {
    collection_name: String,
    documents: Vec<NewDocument<T>>,
    force_wait_for_sync: bool,
}

impl<T> InsertDocumentsReturnNew<T> {
    /// The name of the collection that the documents go into.
    pub closed spec fn spec_collection_name(&self) -> Seq<char> {
        self.collection_name@
    }

    /// The documents that are inserted, in the order in which they are sent.
    pub closed spec fn spec_documents(&self) -> Seq<NewDocument<T>> {
        self.documents@
    }

    /// Whether the server is told to sync to disk before it answers.
    pub closed spec fn forces_wait_for_sync(&self) -> bool {
        self.force_wait_for_sync
    }

    /// Constructs a new instance of the `InsertDocumentsReturnNew` method that inserts
    /// `documents` into the collection `collection_name`, all in one call.
    /// The sync to disk is left to the setting of the collection.
    pub fn new(collection_name: &str, documents: Vec<NewDocument<T>>) -> (method: Self)
        ensures
            method.spec_collection_name() == collection_name@,
            method.spec_documents() == documents@,
            !method.forces_wait_for_sync(),
    {
        InsertDocumentsReturnNew {
            collection_name: String::from_str(collection_name),
            documents,
            force_wait_for_sync: false,
        }
    }

    /// Sets whether the server is told to sync to disk before it answers.
    pub fn with_force_wait_for_sync(self, force_wait_for_sync: bool) -> (method: Self)
        ensures
            method.spec_collection_name() == self.spec_collection_name(),
            method.spec_documents() == self.spec_documents(),
            method.forces_wait_for_sync() == force_wait_for_sync,
    {
        InsertDocumentsReturnNew {
            collection_name: self.collection_name,
            documents: self.documents,
            force_wait_for_sync,
        }
    }

    /// Returns the name of the collection that the documents go into.
    pub fn collection_name(&self) -> (name: &str)
        ensures
            name@ == self.spec_collection_name(),
    {
        self.collection_name.as_str()
    }

    /// Returns the documents that are inserted.
    pub fn documents(&self) -> (documents: &Vec<NewDocument<T>>)
        ensures
            documents@ == self.spec_documents(),
    {
        &self.documents
    }

    /// Returns whether the server is told to sync to disk before it answers.
    pub fn is_force_wait_for_sync(&self) -> (force: bool)
        ensures
            force == self.forces_wait_for_sync(),
    {
        self.force_wait_for_sync
    }

    /// Returns the kind of the operation: a creation.
    pub fn operation(&self) -> (operation: Operation)
        ensures
            operation == Operation::Create,
    {
        Operation::Create
    }

    /// Returns the path of the resource: that of the documents of the
    /// collection.
    pub fn path(&self) -> (path: String)
        ensures
            path@ == spec_collection_documents_path(self.spec_collection_name()),
    {
        collection_documents_path(self.collection_name.as_str())
    }

    /// Returns the query parameters: `waitForSync` where the sync is forced,
    /// then `returnNew`.
    pub fn parameters(&self) -> (params: Parameters)
        ensures
            param_entries(params) == spec_insert_parameters(self.forces_wait_for_sync(), true),
    {
        insert_parameters(self.force_wait_for_sync, true)
    }

    /// Returns the header parameters: there are none.
    pub fn header(&self) -> (header: Parameters)
        ensures
            param_entries(header) == no_entries(),
    {
        empty_parameters()
    }

    /// Returns the content of the request: all the documents, in one
    /// sequence.
    pub fn content(&self) -> (content: Option<&Vec<NewDocument<T>>>)
        ensures
            content is Some,
            content.unwrap()@ == self.spec_documents(),
    {
        Some(&self.documents)
    }

    /// Returns where the result is found in the response: it is the whole
    /// body.
    pub fn return_type(&self) -> (return_type: RpcReturnType)
        ensures
            returns_document_body(return_type),
    {
        RpcReturnType { result_field: None, code_field: Some(FIELD_CODE) }
    }

    /// Decodes the result of the call from the elements of the response: one
    /// outcome for each document of the request, in the order of the
    /// request. The response must hold as many elements as the request holds
    /// documents.
    pub fn decode<New>(&self, elements: Vec<ElementFields<New>>) -> (result: Result<
        Vec<Result<Document<New>, ElementError>>,
        ProtocolViolation,
    >)
        ensures
            is_aggregate_of(
                document_outcomes_view(result),
                self.spec_documents().len() as usize,
                decoded_documents(elements@),
            ),
            result is Ok ==> result.unwrap()@.len() == self.spec_documents().len(),
    {
        aggregate_documents(self.documents.len(), elements)
    }
}

/// The path of the document `id`.
pub open spec fn spec_document_path(id: DocumentIdView) -> Seq<char> {
    spec_resource_path(
        PATH_API_DOCUMENT@,
        spec_render(id.collection_name, id.document_key),
        Seq::empty(),
    )
}

/// Builds the path of the document `id`.
fn document_path(id: &DocumentId) -> (path: String)
    ensures
        path@ == spec_document_path(id@),
{
    let canonical = id.to_string();
    plain_resource_path(PATH_API_DOCUMENT, canonical.as_str())
}

/// The query parameters of a replace or an update: `waitForSync` where the
/// sync to disk is forced, `ignoreRevs` where the revision in the body is
/// not to be checked, `returnOld` and `returnNew` where the content before
/// and after the write is asked for; in this order, each with the value
/// `true`.
pub open spec fn spec_write_parameters(
    force_wait_for_sync: bool,
    ignore_revisions: bool,
    return_old: bool,
    return_new: bool,
) -> Seq<ParamEntry> {
    with_flag_if(
        with_flag_if(
            with_flag_if(
                with_flag_if(no_entries(), force_wait_for_sync, PARAM_WAIT_FOR_SYNC@, true),
                ignore_revisions,
                PARAM_IGNORE_REVISIONS@,
                true,
            ),
            return_old,
            PARAM_RETURN_OLD@,
            true,
        ),
        return_new,
        PARAM_RETURN_NEW@,
        true,
    )
}

/// Builds the query parameters of a replace or an update.
fn write_parameters(
    force_wait_for_sync: bool,
    ignore_revisions: bool,
    return_old: bool,
    return_new: bool,
) -> (params: Parameters)
    ensures
        param_entries(params) == spec_write_parameters(
            force_wait_for_sync,
            ignore_revisions,
            return_old,
            return_new,
        ),
{
    let mut params = new_parameters();
    if force_wait_for_sync {
        insert_flag(&mut params, PARAM_WAIT_FOR_SYNC, true);
    }
    if ignore_revisions {
        insert_flag(&mut params, PARAM_IGNORE_REVISIONS, true);
    }
    if return_old {
        insert_flag(&mut params, PARAM_RETURN_OLD, true);
    }
    if return_new {
        insert_flag(&mut params, PARAM_RETURN_NEW, true);
    }
    params
}

/// The view of a decoded response to a replace or an update.
pub open spec fn updated_response_view<Old, New>(
    result: Result<UpdatedDocumentHeader<Old, New>, ProtocolViolation>,
) -> Result<UpdatedView<Old, New>, ProtocolViolation> {
    match result {
        Ok(updated) => Ok(
            UpdatedView {
                header: updated.header(),
                old_revision: updated.spec_old_revision(),
                old_content: updated.spec_old_content(),
                new_content: updated.spec_new_content(),
            },
        ),
        Err(violation) => Err(violation),
    }
}

/// Builds the conditions of a write from its parts.
fn write_policy(
    if_match: &Option<String>,
    expected_revision: Option<&Revision>,
    ignore_revisions: bool,
) -> (policy: ConditionalPolicy)
    ensures
        policy@ == (ConditionalPolicyView {
            if_match: optional_text(*if_match),
            if_non_match: None,
            expected_revision: match expected_revision {
                Some(revision) => Some(revision@),
                None => None,
            },
            ignore_revisions,
        }),
{
    let mut policy = ConditionalPolicy::unconditional().with_ignore_revisions(ignore_revisions);
    match if_match {
        Some(revision) => {
            policy = policy.with_if_match(revision.clone());
        },
        None => {},
    }
    match expected_revision {
        Some(revision) => {
            policy = policy.with_expected_revision(Revision::new(revision.as_str()));
        },
        None => {},
    }
    policy
}

/// Reads one document. The result is the document with its content.
#[derive(Debug, Clone, PartialEq)]
pub struct GetDocument {
    id: DocumentId,
    if_match: Option<String>,
    if_non_match: Option<String>,
}

impl GetDocument {
    /// The id of the document that is read.
    pub closed spec fn spec_id(&self) -> DocumentIdView {
        self.id@
    }

    /// The revision that the document must have, if one is asked for.
    pub closed spec fn spec_if_match(&self) -> Option<Seq<char>> {
        optional_text(self.if_match)
    }

    /// The revision that the document must not have, if one is ruled out.
    pub closed spec fn spec_if_non_match(&self) -> Option<Seq<char>> {
        optional_text(self.if_non_match)
    }

    /// The conditions of the request.
    pub open spec fn spec_policy(&self) -> ConditionalPolicyView {
        ConditionalPolicyView {
            if_match: self.spec_if_match(),
            if_non_match: self.spec_if_non_match(),
            expected_revision: None,
            ignore_revisions: false,
        }
    }

    /// Constructs a new instance of the `GetDocument` method that reads the
    /// document `id`, whatever its revision.
    pub fn new(id: DocumentId) -> (method: Self)
        ensures
            method.spec_id() == id@,
            method.spec_if_match() is None,
            method.spec_if_non_match() is None,
    {
        GetDocument { id, if_match: None, if_non_match: None }
    }

    /// Asks for the document only if it has the revision `if_match`.
    pub fn with_if_match(self, if_match: String) -> (method: Self)
        ensures
            method.spec_id() == self.spec_id(),
            method.spec_if_match() == Some(if_match@),
            method.spec_if_non_match() == self.spec_if_non_match(),
    {
        GetDocument { id: self.id, if_match: Some(if_match), if_non_match: self.if_non_match }
    }

    /// Asks for the document only if it has another revision than
    /// `if_non_match`.
    pub fn with_if_non_match(self, if_non_match: String) -> (method: Self)
        ensures
            method.spec_id() == self.spec_id(),
            method.spec_if_match() == self.spec_if_match(),
            method.spec_if_non_match() == Some(if_non_match@),
    {
        GetDocument { id: self.id, if_match: self.if_match, if_non_match: Some(if_non_match) }
    }

    /// Returns the id of the document that is read.
    pub fn id(&self) -> (id: &DocumentId)
        ensures
            id@ == self.spec_id(),
    {
        &self.id
    }

    /// Returns the revision that the document must have, if one is asked
    /// for.
    pub fn if_match(&self) -> (if_match: Option<&String>)
        ensures
            match if_match {
                Some(revision) => self.spec_if_match() == Some(revision@),
                None => self.spec_if_match() is None,
            },
    {
        self.if_match.as_ref()
    }

    /// Returns the revision that the document must not have, if one is ruled
    /// out.
    pub fn if_non_match(&self) -> (if_non_match: Option<&String>)
        ensures
            match if_non_match {
                Some(revision) => self.spec_if_non_match() == Some(revision@),
                None => self.spec_if_non_match() is None,
            },
    {
        self.if_non_match.as_ref()
    }

    /// Returns the conditions of the request.
    pub fn policy(&self) -> (policy: ConditionalPolicy)
        ensures
            policy@ == self.spec_policy(),
    {
        let mut policy = ConditionalPolicy::unconditional();
        match &self.if_match {
            Some(revision) => {
                policy = policy.with_if_match(revision.clone());
            },
            None => {},
        }
        match &self.if_non_match {
            Some(revision) => {
                policy = policy.with_if_non_match(revision.clone());
            },
            None => {},
        }
        policy
    }

    /// Returns the kind of the operation: a read.
    pub fn operation(&self) -> (operation: Operation)
        ensures
            operation == Operation::Read,
    {
        Operation::Read
    }

    /// Returns the path of the resource: that of the document.
    pub fn path(&self) -> (path: String)
        ensures
            path@ == spec_document_path(self.spec_id()),
    {
        document_path(&self.id)
    }

    /// Returns the query parameters: there are none.
    pub fn parameters(&self) -> (params: Parameters)
        ensures
            param_entries(params) == no_entries(),
    {
        empty_parameters()
    }

    /// Returns the header parameters: the conditions on the revision.
    pub fn header(&self) -> (header: Parameters)
        ensures
            param_entries(header) == spec_conditional_header(
                self.spec_if_match(),
                self.spec_if_non_match(),
            ),
    {
        conditional_header(&self.if_match, &self.if_non_match)
    }

    /// Returns the content of the request: there is none.
    pub fn content(&self) -> (content: Option<&()>)
        ensures
            content is None,
    {
        None
    }

    /// Returns where the result is found in the response: it is the whole
    /// body.
    pub fn return_type(&self) -> (return_type: RpcReturnType)
        ensures
            returns_document_body(return_type),
    {
        RpcReturnType { result_field: None, code_field: Some(FIELD_CODE) }
    }

    /// Decodes the result of the call from the fields of the response: the
    /// document, whose content must be there.
    pub fn decode<T>(&self, fields: HeaderFields, content: Option<T>) -> (result: Result<
        Document<T>,
        ProtocolViolation,
    >)
        ensures
            document_response_view(result) == spec_response_violation(
                spec_decode_document(fields, content),
            ),
    {
        match decode_document(fields, content) {
            Ok(document) => Ok(document),
            Err(violation) => Err(ProtocolViolation::Response { violation }),
        }
    }
}

/// The flags of a replace or an update.
#[derive(Clone, Copy, Debug, PartialEq, Eq, Structural)]
pub struct WriteFlags {
    /// Whether the server is told to sync to disk before it answers.
    pub force_wait_for_sync: bool,
    /// Whether the revision in the body is left unchecked.
    pub ignore_revisions: bool,
    /// Whether the content before the write is asked for.
    pub return_old: bool,
    /// Whether the content after the write is asked for.
    pub return_new: bool,
}

impl WriteFlags {
    /// No flag is set.
    pub open spec fn none() -> WriteFlags {
        WriteFlags {
            force_wait_for_sync: false,
            ignore_revisions: false,
            return_old: false,
            return_new: false,
        }
    }
}

/// Replaces the content of one document. The result is the header of the
/// document as it is after the write, with the revision that it had before.
#[derive(Debug, Clone, PartialEq)]
pub struct ReplaceDocument<Upd> {
    id: DocumentId,
    update: DocumentUpdate<Upd>,
    force_wait_for_sync: bool,
    ignore_revisions: bool,
    return_old: bool,
    return_new: bool,
    if_match: Option<String>,
}

impl<Upd> ReplaceDocument<Upd> {
    /// The id of the document that is written.
    pub closed spec fn spec_id(&self) -> DocumentIdView {
        self.id@
    }

    /// What is written.
    pub closed spec fn spec_update(&self) -> DocumentUpdate<Upd> {
        self.update
    }

    /// The flags of the request.
    pub closed spec fn flags(&self) -> WriteFlags {
        WriteFlags {
            force_wait_for_sync: self.force_wait_for_sync,
            ignore_revisions: self.ignore_revisions,
            return_old: self.return_old,
            return_new: self.return_new,
        }
    }

    /// The revision that the header asks for, if any.
    pub closed spec fn spec_if_match(&self) -> Option<Seq<char>> {
        optional_text(self.if_match)
    }

    /// The conditions of the request: the revision that the header asks for,
    /// and the revision that the body expects, with the flag that says
    /// whether it is checked.
    pub open spec fn spec_policy(&self) -> ConditionalPolicyView {
        ConditionalPolicyView {
            if_match: self.spec_if_match(),
            if_non_match: None,
            expected_revision: self.spec_update().spec_revision(),
            ignore_revisions: self.flags().ignore_revisions,
        }
    }

    /// Constructs a new instance of the `ReplaceDocument` method that
    /// replaces the document `id` as `update` says. No flag is set and no
    /// revision is asked for in the header.
    pub fn new(id: DocumentId, update: DocumentUpdate<Upd>) -> (method: Self)
        ensures
            method.spec_id() == id@,
            method.spec_update() == update,
            method.flags() == WriteFlags::none(),
            method.spec_if_match() is None,
    {
        ReplaceDocument {
            id,
            update,
            force_wait_for_sync: false,
            ignore_revisions: false,
            return_old: false,
            return_new: false,
            if_match: None,
        }
    }

    /// Sets whether the server is told to sync to disk before it answers.
    pub fn with_force_wait_for_sync(self, force_wait_for_sync: bool) -> (method: Self)
        ensures
            method.spec_id() == self.spec_id(),
            method.spec_update() == self.spec_update(),
            method.flags() == (WriteFlags { force_wait_for_sync, ..self.flags() }),
            method.spec_if_match() == self.spec_if_match(),
    {
        let mut method = self;
        method.force_wait_for_sync = force_wait_for_sync;
        method
    }

    /// Sets whether the revision in the body is left unchecked.
    pub fn with_ignore_revisions(self, ignore_revisions: bool) -> (method: Self)
        ensures
            method.spec_id() == self.spec_id(),
            method.spec_update() == self.spec_update(),
            method.flags() == (WriteFlags { ignore_revisions, ..self.flags() }),
            method.spec_if_match() == self.spec_if_match(),
    {
        let mut method = self;
        method.ignore_revisions = ignore_revisions;
        method
    }

    /// Sets whether the content before the write is asked for.
    pub fn with_return_old(self, return_old: bool) -> (method: Self)
        ensures
            method.spec_id() == self.spec_id(),
            method.spec_update() == self.spec_update(),
            method.flags() == (WriteFlags { return_old, ..self.flags() }),
            method.spec_if_match() == self.spec_if_match(),
    {
        let mut method = self;
        method.return_old = return_old;
        method
    }

    /// Sets whether the content after the write is asked for.
    pub fn with_return_new(self, return_new: bool) -> (method: Self)
        ensures
            method.spec_id() == self.spec_id(),
            method.spec_update() == self.spec_update(),
            method.flags() == (WriteFlags { return_new, ..self.flags() }),
            method.spec_if_match() == self.spec_if_match(),
    {
        let mut method = self;
        method.return_new = return_new;
        method
    }

    /// Writes only if the document has the revision `if_match`.
    pub fn with_if_match(self, if_match: String) -> (method: Self)
        ensures
            method.spec_id() == self.spec_id(),
            method.spec_update() == self.spec_update(),
            method.flags() == self.flags(),
            method.spec_if_match() == Some(if_match@),
    {
        let mut method = self;
        method.if_match = Some(if_match);
        method
    }

    /// Returns the id of the document that is written.
    pub fn id(&self) -> (id: &DocumentId)
        ensures
            id@ == self.spec_id(),
    {
        &self.id
    }

    /// Returns what is written.
    pub fn update(&self) -> (update: &DocumentUpdate<Upd>)
        ensures
            *update == self.spec_update(),
    {
        &self.update
    }

    /// Returns whether the server is told to sync to disk before it answers.
    pub fn is_force_wait_for_sync(&self) -> (force: bool)
        ensures
            force == self.flags().force_wait_for_sync,
    {
        self.force_wait_for_sync
    }

    /// Returns whether the revision in the body is left unchecked.
    pub fn is_ignore_revisions(&self) -> (ignore: bool)
        ensures
            ignore == self.flags().ignore_revisions,
    {
        self.ignore_revisions
    }

    /// Returns whether the content before the write is asked for.
    pub fn is_return_old(&self) -> (return_old: bool)
        ensures
            return_old == self.flags().return_old,
    {
        self.return_old
    }

    /// Returns whether the content after the write is asked for.
    pub fn is_return_new(&self) -> (return_new: bool)
        ensures
            return_new == self.flags().return_new,
    {
        self.return_new
    }

    /// Returns the revision that the header asks for, if any.
    pub fn if_match(&self) -> (if_match: Option<&String>)
        ensures
            match if_match {
                Some(revision) => self.spec_if_match() == Some(revision@),
                None => self.spec_if_match() is None,
            },
    {
        self.if_match.as_ref()
    }

    /// Returns the conditions of the request.
    pub fn policy(&self) -> (policy: ConditionalPolicy)
        ensures
            policy@ == self.spec_policy(),
    {
        write_policy(&self.if_match, self.update.revision(), self.ignore_revisions)
    }

    /// Returns the revision that the body of the request carries: the one
    /// that the update expects, unless revisions are ignored.
    pub fn body_revision(&self) -> (revision: Option<&Revision>)
        ensures
            match revision {
                Some(revision) => self.spec_policy().body_revision() == Some(revision@),
                None => self.spec_policy().body_revision() is None,
            },
    {
        if self.ignore_revisions {
            None
        } else {
            self.update.revision()
        }
    }

    /// Returns the kind of the operation: a replacement.
    pub fn operation(&self) -> (operation: Operation)
        ensures
            operation == Operation::Replace,
    {
        Operation::Replace
    }

    /// Returns the path of the resource: that of the document.
    pub fn path(&self) -> (path: String)
        ensures
            path@ == spec_document_path(self.spec_id()),
    {
        document_path(&self.id)
    }

    /// Returns the query parameters: one for each flag that is set.
    pub fn parameters(&self) -> (params: Parameters)
        ensures
            param_entries(params) == spec_write_parameters(
                self.flags().force_wait_for_sync,
                self.flags().ignore_revisions,
                self.flags().return_old,
                self.flags().return_new,
            ),
    {
        write_parameters(
            self.force_wait_for_sync,
            self.ignore_revisions,
            self.return_old,
            self.return_new,
        )
    }

    /// Returns the header parameters: `If-Match` where a revision is asked
    /// for.
    pub fn header(&self) -> (header: Parameters)
        ensures
            param_entries(header) == spec_conditional_header(self.spec_if_match(), None),
    {
        conditional_header(&self.if_match, &None)
    }

    /// Returns the content of the request: what is written.
    pub fn content(&self) -> (content: Option<&DocumentUpdate<Upd>>)
        ensures
            content == Some(&self.spec_update()),
    {
        Some(&self.update)
    }

    /// Returns where the result is found in the response: it is the whole
    /// body.
    pub fn return_type(&self) -> (return_type: RpcReturnType)
        ensures
            returns_document_body(return_type),
    {
        RpcReturnType { result_field: None, code_field: Some(FIELD_CODE) }
    }

    /// Decodes the result of the call from the fields of the response. The
    /// revision before the write is always part of the result. The content
    /// before the write is part of it exactly where the request asked for
    /// it, and so is the content after the write, whatever else the response
    /// holds.
    pub fn decode<Old, New>(&self, fields: UpdateFields<Old, New>) -> (result: Result<
        UpdatedDocumentHeader<Old, New>,
        ProtocolViolation,
    >)
        ensures
            updated_response_view(result) == spec_response_violation(
                spec_decode_updated(self.flags().return_old, self.flags().return_new, fields),
            ),
            result is Ok ==> (result.unwrap().spec_old_content() is Some
                <==> self.flags().return_old),
            result is Ok ==> (result.unwrap().spec_new_content() is Some
                <==> self.flags().return_new),
    {
        match decode_updated(self.return_old, self.return_new, fields) {
            Ok(updated) => Ok(updated),
            Err(violation) => Err(ProtocolViolation::Response { violation }),
        }
    }
}

/// Updates a part of the content of one document: what the update names is
/// written, and what it leaves out stays as it is. The result is the header
/// of the document as it is after the write, with the revision that it had
/// before.
#[derive(Debug, Clone, PartialEq)]
pub struct UpdateDocument<Upd> {
    id: DocumentId,
    update: DocumentUpdate<Upd>,
    force_wait_for_sync: bool,
    ignore_revisions: bool,
    return_old: bool,
    return_new: bool,
    if_match: Option<String>,
}

impl<Upd> UpdateDocument<Upd> {
    /// The id of the document that is written.
    pub closed spec fn spec_id(&self) -> DocumentIdView {
        self.id@
    }

    /// What is written.
    pub closed spec fn spec_update(&self) -> DocumentUpdate<Upd> {
        self.update
    }

    /// The flags of the request.
    pub closed spec fn flags(&self) -> WriteFlags {
        WriteFlags {
            force_wait_for_sync: self.force_wait_for_sync,
            ignore_revisions: self.ignore_revisions,
            return_old: self.return_old,
            return_new: self.return_new,
        }
    }

    /// The revision that the header asks for, if any.
    pub closed spec fn spec_if_match(&self) -> Option<Seq<char>> {
        optional_text(self.if_match)
    }

    /// The conditions of the request: the revision that the header asks for,
    /// and the revision that the body expects, with the flag that says
    /// whether it is checked.
    pub open spec fn spec_policy(&self) -> ConditionalPolicyView {
        ConditionalPolicyView {
            if_match: self.spec_if_match(),
            if_non_match: None,
            expected_revision: self.spec_update().spec_revision(),
            ignore_revisions: self.flags().ignore_revisions,
        }
    }

    /// Constructs a new instance of the `UpdateDocument` method that
    /// updates the document `id` as `update` says. No flag is set and no
    /// revision is asked for in the header.
    pub fn new(id: DocumentId, update: DocumentUpdate<Upd>) -> (method: Self)
        ensures
            method.spec_id() == id@,
            method.spec_update() == update,
            method.flags() == WriteFlags::none(),
            method.spec_if_match() is None,
    {
        UpdateDocument {
            id,
            update,
            force_wait_for_sync: false,
            ignore_revisions: false,
            return_old: false,
            return_new: false,
            if_match: None,
        }
    }

    /// Sets whether the server is told to sync to disk before it answers.
    pub fn with_force_wait_for_sync(self, force_wait_for_sync: bool) -> (method: Self)
        ensures
            method.spec_id() == self.spec_id(),
            method.spec_update() == self.spec_update(),
            method.flags() == (WriteFlags { force_wait_for_sync, ..self.flags() }),
            method.spec_if_match() == self.spec_if_match(),
    {
        let mut method = self;
        method.force_wait_for_sync = force_wait_for_sync;
        method
    }

    /// Sets whether the revision in the body is left unchecked.
    pub fn with_ignore_revisions(self, ignore_revisions: bool) -> (method: Self)
        ensures
            method.spec_id() == self.spec_id(),
            method.spec_update() == self.spec_update(),
            method.flags() == (WriteFlags { ignore_revisions, ..self.flags() }),
            method.spec_if_match() == self.spec_if_match(),
    {
        let mut method = self;
        method.ignore_revisions = ignore_revisions;
        method
    }

    /// Sets whether the content before the write is asked for.
    pub fn with_return_old(self, return_old: bool) -> (method: Self)
        ensures
            method.spec_id() == self.spec_id(),
            method.spec_update() == self.spec_update(),
            method.flags() == (WriteFlags { return_old, ..self.flags() }),
            method.spec_if_match() == self.spec_if_match(),
    {
        let mut method = self;
        method.return_old = return_old;
        method
    }

    /// Sets whether the content after the write is asked for.
    pub fn with_return_new(self, return_new: bool) -> (method: Self)
        ensures
            method.spec_id() == self.spec_id(),
            method.spec_update() == self.spec_update(),
            method.flags() == (WriteFlags { return_new, ..self.flags() }),
            method.spec_if_match() == self.spec_if_match(),
    {
        let mut method = self;
        method.return_new = return_new;
        method
    }

    /// Writes only if the document has the revision `if_match`.
    pub fn with_if_match(self, if_match: String) -> (method: Self)
        ensures
            method.spec_id() == self.spec_id(),
            method.spec_update() == self.spec_update(),
            method.flags() == self.flags(),
            method.spec_if_match() == Some(if_match@),
    {
        let mut method = self;
        method.if_match = Some(if_match);
        method
    }

    /// Returns the id of the document that is written.
    pub fn id(&self) -> (id: &DocumentId)
        ensures
            id@ == self.spec_id(),
    {
        &self.id
    }

    /// Returns what is written.
    pub fn update(&self) -> (update: &DocumentUpdate<Upd>)
        ensures
            *update == self.spec_update(),
    {
        &self.update
    }

    /// Returns whether the server is told to sync to disk before it answers.
    pub fn is_force_wait_for_sync(&self) -> (force: bool)
        ensures
            force == self.flags().force_wait_for_sync,
    {
        self.force_wait_for_sync
    }

    /// Returns whether the revision in the body is left unchecked.
    pub fn is_ignore_revisions(&self) -> (ignore: bool)
        ensures
            ignore == self.flags().ignore_revisions,
    {
        self.ignore_revisions
    }

    /// Returns whether the content before the write is asked for.
    pub fn is_return_old(&self) -> (return_old: bool)
        ensures
            return_old == self.flags().return_old,
    {
        self.return_old
    }

    /// Returns whether the content after the write is asked for.
    pub fn is_return_new(&self) -> (return_new: bool)
        ensures
            return_new == self.flags().return_new,
    {
        self.return_new
    }

    /// Returns the revision that the header asks for, if any.
    pub fn if_match(&self) -> (if_match: Option<&String>)
        ensures
            match if_match {
                Some(revision) => self.spec_if_match() == Some(revision@),
                None => self.spec_if_match() is None,
            },
    {
        self.if_match.as_ref()
    }

    /// Returns the conditions of the request.
    pub fn policy(&self) -> (policy: ConditionalPolicy)
        ensures
            policy@ == self.spec_policy(),
    {
        write_policy(&self.if_match, self.update.revision(), self.ignore_revisions)
    }

    /// Returns the revision that the body of the request carries: the one
    /// that the update expects, unless revisions are ignored.
    pub fn body_revision(&self) -> (revision: Option<&Revision>)
        ensures
            match revision {
                Some(revision) => self.spec_policy().body_revision() == Some(revision@),
                None => self.spec_policy().body_revision() is None,
            },
    {
        if self.ignore_revisions {
            None
        } else {
            self.update.revision()
        }
    }

    /// Returns the kind of the operation: a modification.
    pub fn operation(&self) -> (operation: Operation)
        ensures
            operation == Operation::Modify,
    {
        Operation::Modify
    }

    /// Returns the path of the resource: that of the document.
    pub fn path(&self) -> (path: String)
        ensures
            path@ == spec_document_path(self.spec_id()),
    {
        document_path(&self.id)
    }

    /// Returns the query parameters: one for each flag that is set.
    pub fn parameters(&self) -> (params: Parameters)
        ensures
            param_entries(params) == spec_write_parameters(
                self.flags().force_wait_for_sync,
                self.flags().ignore_revisions,
                self.flags().return_old,
                self.flags().return_new,
            ),
    {
        write_parameters(
            self.force_wait_for_sync,
            self.ignore_revisions,
            self.return_old,
            self.return_new,
        )
    }

    /// Returns the header parameters: `If-Match` where a revision is asked
    /// for.
    pub fn header(&self) -> (header: Parameters)
        ensures
            param_entries(header) == spec_conditional_header(self.spec_if_match(), None),
    {
        conditional_header(&self.if_match, &None)
    }

    /// Returns the content of the request: what is written.
    pub fn content(&self) -> (content: Option<&DocumentUpdate<Upd>>)
        ensures
            content == Some(&self.spec_update()),
    {
        Some(&self.update)
    }

    /// Returns where the result is found in the response: it is the whole
    /// body.
    pub fn return_type(&self) -> (return_type: RpcReturnType)
        ensures
            returns_document_body(return_type),
    {
        RpcReturnType { result_field: None, code_field: Some(FIELD_CODE) }
    }

    /// Decodes the result of the call from the fields of the response. The
    /// revision before the write is always part of the result. The content
    /// before the write is part of it exactly where the request asked for
    /// it, and so is the content after the write, whatever else the response
    /// holds.
    pub fn decode<Old, New>(&self, fields: UpdateFields<Old, New>) -> (result: Result<
        UpdatedDocumentHeader<Old, New>,
        ProtocolViolation,
    >)
        ensures
            updated_response_view(result) == spec_response_violation(
                spec_decode_updated(self.flags().return_old, self.flags().return_new, fields),
            ),
            result is Ok ==> (result.unwrap().spec_old_content() is Some
                <==> self.flags().return_old),
            result is Ok ==> (result.unwrap().spec_new_content() is Some
                <==> self.flags().return_new),
    {
        match decode_updated(self.return_old, self.return_new, fields) {
            Ok(updated) => Ok(updated),
            Err(violation) => Err(ProtocolViolation::Response { violation }),
        }
    }
}

} // verus!
