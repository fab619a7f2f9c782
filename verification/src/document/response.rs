//! From the fields of a response to the typed result of a call.
//!
//! The body of a response is read elsewhere. What arrives here are the
//! fields that were found in one object of it, each of them present or not.
//! The functions of this module decide what such an object is: a result of
//! the expected shape, the failure of one element of a batch, or a violation
//! of the protocol.

use crate::document::types::{
    spec_parse, Document, DocumentHeader, DocumentHeaderView, DocumentId, DocumentKey, Revision,
    UpdatedDocumentHeader,
};
use crate::error::{ElementError, ElementErrorView, Field, Violation};
use vstd::prelude::*;

verus! {

/// The fields that identify a document, as they were found in an object of a
/// response.
#[derive(Clone, Debug, PartialEq, Eq)]
pub struct HeaderFields {
    /// The field `_id`.
    pub id: Option<String>,
    /// The field `_key`.
    pub key: Option<String>,
    /// The field `_rev`.
    pub revision: Option<String>,
}

/// The fields of the response to a replace or an update.
#[derive(Clone, Debug, PartialEq)]
pub struct UpdateFields<Old, New> {
    /// The fields that identify the document.
    pub header: HeaderFields,
    /// The field `_oldRev`.
    pub old_revision: Option<String>,
    /// The field `old`.
    pub old_content: Option<Old>,
    /// The field `new`.
    pub new_content: Option<New>,
}

/// The fields of one element of the response to a batch.
#[derive(Clone, Debug, PartialEq)]
pub struct ElementFields<T> {
    /// The field `errorNum`. Its presence marks the element as a failure.
    pub error_num: Option<u16>,
    /// The field `errorMessage`.
    pub error_message: Option<String>,
    /// The fields that identify the document.
    pub header: HeaderFields,
    /// The field `new`.
    pub new_content: Option<T>,
}

/// The violation that consists in the absence of `field`.
pub open spec fn missing(field: Field) -> Violation {
    Violation::MissingField { field }
}

/// The header that the fields `fields` make up. The id must be there and be
/// the canonical form of an id; the key and the revision must be there.
pub open spec fn spec_decode_header(fields: HeaderFields) -> Result<DocumentHeaderView, Violation> {
    match fields.id {
        None => Err(missing(Field::Id)),
        Some(id) => match spec_parse(id@) {
            None => Err(Violation::MalformedId),
            Some(id) => match fields.key {
                None => Err(missing(Field::Key)),
                Some(key) => match fields.revision {
                    None => Err(missing(Field::Revision)),
                    Some(revision) => Ok(
                        DocumentHeaderView { id, key: key@, revision: revision@ },
                    ),
                },
            },
        },
    }
}

/// The view of a decoded header.
pub open spec fn header_result_view(result: Result<DocumentHeader, Violation>) -> Result<
    DocumentHeaderView,
    Violation,
> {
    match result {
        Ok(header) => Ok(header@),
        Err(violation) => Err(violation),
    }
}

/// Decodes the header of a document from the fields that identify it.
pub fn decode_header(fields: HeaderFields) -> (result: Result<DocumentHeader, Violation>)
    ensures
        header_result_view(result) == spec_decode_header(fields),
{
    let id = match fields.id {
        None => {
            return Err(Violation::MissingField { field: Field::Id });
        },
        Some(id) => match DocumentId::from_str(id.as_str()) {
            Err(_) => {
                return Err(Violation::MalformedId);
            },
            Ok(id) => id,
        },
    };
    let key = match fields.key {
        None => {
            return Err(Violation::MissingField { field: Field::Key });
        },
        Some(key) => DocumentKey::new(key.as_str()),
    };
    let revision = match fields.revision {
        None => {
            return Err(Violation::MissingField { field: Field::Revision });
        },
        Some(revision) => Revision::new(revision.as_str()),
    };
    Ok(DocumentHeader::new(id, key, revision))
}

/// What a decoded document is, as a mathematical value: its header and its
/// content.
pub open spec fn spec_decode_document<T>(header: HeaderFields, content: Option<T>) -> Result<
    (DocumentHeaderView, T),
    Violation,
> {
    match spec_decode_header(header) {
        Err(violation) => Err(violation),
        Ok(header) => match content {
            None => Err(missing(Field::New)),
            Some(content) => Ok((header, content)),
        },
    }
}

/// The view of a decoded document.
pub open spec fn document_result_view<T>(result: Result<Document<T>, Violation>) -> Result<
    (DocumentHeaderView, T),
    Violation,
> {
    match result {
        Ok(document) => Ok((document.header(), document.spec_content())),
        Err(violation) => Err(violation),
    }
}

/// Decodes a document from the fields that identify it and its content. The
/// header is looked at first.
pub fn decode_document<T>(header: HeaderFields, content: Option<T>) -> (result: Result<
    Document<T>,
    Violation,
>)
    ensures
        document_result_view(result) == spec_decode_document(header, content),
{
    match decode_header(header) {
        Err(violation) => Err(violation),
        Ok(header) => match content {
            None => Err(Violation::MissingField { field: Field::New }),
            Some(content) => Ok(Document::new(header, content)),
        },
    }
}

/// The result of a replace or an update, as a mathematical value.
pub struct UpdatedView<Old, New> {
    /// What identifies the document as it is now.
    pub header: DocumentHeaderView,
    /// The revision that the document had before the write.
    pub old_revision: Seq<char>,
    /// The content before the write, where it was asked for.
    pub old_content: Option<Old>,
    /// The content after the write, where it was asked for.
    pub new_content: Option<New>,
}

/// The content that a result carries for one of the two flags of a request:
/// none where the flag is not set, whatever the response holds; the content
/// of the response where the flag is set; and a violation where the flag is
/// set and the response holds none.
pub open spec fn spec_gate_content<T>(flag: bool, content: Option<T>, field: Field) -> Result<
    Option<T>,
    Violation,
> {
    if !flag {
        Ok(None)
    } else if content is Some {
        Ok(content)
    } else {
        Err(missing(field))
    }
}

/// Lets the content of a response through where the request asked for it.
pub fn gate_content<T>(flag: bool, content: Option<T>, field: Field) -> (result: Result<
    Option<T>,
    Violation,
>)
    ensures
        result == spec_gate_content(flag, content, field),
        result is Ok ==> (result.unwrap() is Some <==> flag),
{
    if !flag {
        Ok(None)
    } else {
        match content {
            Some(content) => Ok(Some(content)),
            None => Err(Violation::MissingField { field }),
        }
    }
}

/// The result of a replace or an update that the fields `fields` make up,
/// for a request with the flags `return_old` and `return_new`. The header is
/// looked at first, then the old revision, then the content before and the
/// content after the write.
pub open spec fn spec_decode_updated<Old, New>(
    return_old: bool,
    return_new: bool,
    fields: UpdateFields<Old, New>,
) -> Result<UpdatedView<Old, New>, Violation> {
    match spec_decode_header(fields.header) {
        Err(violation) => Err(violation),
        Ok(header) => match fields.old_revision {
            None => Err(missing(Field::OldRevision)),
            Some(old_revision) => match spec_gate_content(
                return_old,
                fields.old_content,
                Field::Old,
            ) {
                Err(violation) => Err(violation),
                Ok(old_content) => match spec_gate_content(
                    return_new,
                    fields.new_content,
                    Field::New,
                ) {
                    Err(violation) => Err(violation),
                    Ok(new_content) => Ok(
                        UpdatedView {
                            header,
                            old_revision: old_revision@,
                            old_content,
                            new_content,
                        },
                    ),
                },
            },
        },
    }
}

/// The view of a decoded result of a replace or an update.
pub open spec fn updated_result_view<Old, New>(
    result: Result<UpdatedDocumentHeader<Old, New>, Violation>,
) -> Result<UpdatedView<Old, New>, Violation> {
    match result {
        Ok(updated) => Ok(
            UpdatedView {
                header: updated.header(),
                old_revision: updated.spec_old_revision(),
                old_content: updated.spec_old_content(),
                new_content: updated.spec_new_content(),
            },
        ),
        Err(violation) => Err(violation),
    }
}

/// Decodes the result of a replace or an update. The revision before the
/// write must always be there. The content before the write is part of the
/// result exactly where `return_old` is set, and the content after the write
/// exactly where `return_new` is set.
pub fn decode_updated<Old, New>(
    return_old: bool,
    return_new: bool,
    fields: UpdateFields<Old, New>,
) -> (result: Result<UpdatedDocumentHeader<Old, New>, Violation>)
    ensures
        updated_result_view(result) == spec_decode_updated(return_old, return_new, fields),
        result is Ok ==> (result.unwrap().spec_old_content() is Some <==> return_old),
        result is Ok ==> (result.unwrap().spec_new_content() is Some <==> return_new),
{
    let header = match decode_header(fields.header) {
        Err(violation) => {
            return Err(violation);
        },
        Ok(header) => header,
    };
    let old_revision = match fields.old_revision {
        None => {
            return Err(Violation::MissingField { field: Field::OldRevision });
        },
        Some(old_revision) => Revision::new(old_revision.as_str()),
    };
    let old_content = match gate_content(return_old, fields.old_content, Field::Old) {
        Err(violation) => {
            return Err(violation);
        },
        Ok(old_content) => old_content,
    };
    let new_content = match gate_content(return_new, fields.new_content, Field::New) {
        Err(violation) => {
            return Err(violation);
        },
        Ok(new_content) => new_content,
    };
    Ok(UpdatedDocumentHeader::new(header, old_revision, old_content, new_content))
}

/// What one element of the response to a batch says, as a mathematical
/// value. The element is a failure where it holds an error number; its
/// message must then be there too. Any other element must have the shape of
/// a success, which `success` decodes.
pub open spec fn spec_decode_element<T, V>(
    fields: ElementFields<T>,
    success: spec_fn(ElementFields<T>) -> Result<V, Violation>,
) -> Result<Result<V, ElementErrorView>, Violation> {
    match fields.error_num {
        Some(code) => match fields.error_message {
            Some(message) => Ok(Err(ElementErrorView { code, message: message@ })),
            None => Err(missing(Field::ErrorMessage)),
        },
        None => match success(fields) {
            Ok(value) => Ok(Ok(value)),
            Err(violation) => Err(violation),
        },
    }
}

/// What one element says where a success is a header.
pub open spec fn spec_header_element<T>(fields: ElementFields<T>) -> Result<
    Result<DocumentHeaderView, ElementErrorView>,
    Violation,
> {
    spec_decode_element(fields, |fields: ElementFields<T>| spec_decode_header(fields.header))
}

/// What one element says where a success is a document.
pub open spec fn spec_document_element<T>(fields: ElementFields<T>) -> Result<
    Result<(DocumentHeaderView, T), ElementErrorView>,
    Violation,
> {
    spec_decode_element(
        fields,
        |fields: ElementFields<T>| spec_decode_document(fields.header, fields.new_content),
    )
}

/// The view of the outcome of one element where a success is a header.
pub open spec fn header_outcome_view(outcome: Result<DocumentHeader, ElementError>) -> Result<
    DocumentHeaderView,
    ElementErrorView,
> {
    match outcome {
        Ok(header) => Ok(header@),
        Err(error) => Err(error@),
    }
}

/// The view of the outcome of one element where a success is a document.
pub open spec fn document_outcome_view<T>(outcome: Result<Document<T>, ElementError>) -> Result<
    (DocumentHeaderView, T),
    ElementErrorView,
> {
    match outcome {
        Ok(document) => Ok((document.header(), document.spec_content())),
        Err(error) => Err(error@),
    }
}

/// Decodes one element of the response to a batch of inserts that did not
/// ask for the content. The error number is probed first: an element that
/// holds one is a failure, and nothing else of it is looked at but the
/// message. Only an element without an error number is decoded as a header.
pub fn decode_header_element<T>(fields: ElementFields<T>) -> (result: Result<
    Result<DocumentHeader, ElementError>,
    Violation,
>)
    ensures
        match result {
            Ok(outcome) => spec_header_element(fields) == Ok::<_, Violation>(
                header_outcome_view(outcome),
            ),
            Err(violation) => spec_header_element(fields) == Err::<
                Result<DocumentHeaderView, ElementErrorView>,
                _,
            >(violation),
        },
{
    match fields.error_num {
        Some(code) => match fields.error_message {
            Some(message) => Ok(Err(ElementError::new(code, message))),
            None => Err(Violation::MissingField { field: Field::ErrorMessage }),
        },
        None => match decode_header(fields.header) {
            Ok(header) => Ok(Ok(header)),
            Err(violation) => Err(violation),
        },
    }
}

/// Decodes one element of the response to a batch of inserts that asked for
/// the content. The error number is probed first: an element that holds one
/// is a failure, and nothing else of it is looked at but the message. Only
/// an element without an error number is decoded as a document.
pub fn decode_document_element<T>(fields: ElementFields<T>) -> (result: Result<
    Result<Document<T>, ElementError>,
    Violation,
>)
    ensures
        match result {
            Ok(outcome) => spec_document_element(fields) == Ok::<_, Violation>(
                document_outcome_view(outcome),
            ),
            Err(violation) => spec_document_element(fields) == Err::<
                Result<(DocumentHeaderView, T), ElementErrorView>,
                _,
            >(violation),
        },
{
    match fields.error_num {
        Some(code) => match fields.error_message {
            Some(message) => Ok(Err(ElementError::new(code, message))),
            None => Err(Violation::MissingField { field: Field::ErrorMessage }),
        },
        None => match decode_document(fields.header, fields.new_content) {
            Ok(document) => Ok(Ok(document)),
            Err(violation) => Err(violation),
        },
    }
}

} // verus!
