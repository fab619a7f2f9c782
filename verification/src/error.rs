//! The failures of a call, and how the status and the error object of a
//! response are turned into them.
//!
//! A call fails in one of three ways. The transport could not complete it.
//! The server answered with an error object for the whole call. Or the
//! response does not have the shape that the protocol promises. The failure
//! of one element of a batch is none of these: it is part of the result of
//! the call.

use vstd::prelude::*;
use vstd::string::StringExecFns;

verus! {

/// Status of a response to a request that named a resource that does not
/// exist.
pub const STATUS_NOT_FOUND: u16 = 404;

/// Status of a response to a conditional request whose condition did not
/// hold.
pub const STATUS_PRECONDITION_FAILED: u16 = 412;

/// Error number: a write met a document in another revision than expected.
pub const ERROR_ARANGO_CONFLICT: u16 = 1200;

/// Error number: no document has the given id.
pub const ERROR_ARANGO_DOCUMENT_NOT_FOUND: u16 = 1202;

/// Error number: no collection has the given name.
pub const ERROR_ARANGO_COLLECTION_NOT_FOUND: u16 = 1203;

/// Error number: a unique constraint is violated, such as that on the key.
pub const ERROR_ARANGO_UNIQUE_CONSTRAINT_VIOLATED: u16 = 1210;

/// The error numbers that callers tell apart, and one kind for all others.
#[derive(Clone, Copy, Debug, PartialEq, Eq, Structural)]
pub enum ErrorKind {
    /// A revision did not match.
    Conflict,
    /// The document does not exist.
    DocumentNotFound,
    /// The collection does not exist.
    CollectionNotFound,
    /// A key is already taken.
    UniqueConstraintViolated,
    /// Any other error number. The number itself is kept in the error.
    Other,
}

/// The kind of the error number `error_number`.
pub open spec fn spec_error_kind(error_number: u16) -> ErrorKind {
    if error_number == ERROR_ARANGO_CONFLICT {
        ErrorKind::Conflict
    } else if error_number == ERROR_ARANGO_DOCUMENT_NOT_FOUND {
        ErrorKind::DocumentNotFound
    } else if error_number == ERROR_ARANGO_COLLECTION_NOT_FOUND {
        ErrorKind::CollectionNotFound
    } else if error_number == ERROR_ARANGO_UNIQUE_CONSTRAINT_VIOLATED {
        ErrorKind::UniqueConstraintViolated
    } else {
        ErrorKind::Other
    }
}

/// Returns the kind of the error number `error_number`.
pub fn error_kind(error_number: u16) -> (kind: ErrorKind)
    ensures
        kind == spec_error_kind(error_number),
{
    if error_number == ERROR_ARANGO_CONFLICT {
        ErrorKind::Conflict
    } else if error_number == ERROR_ARANGO_DOCUMENT_NOT_FOUND {
        ErrorKind::DocumentNotFound
    } else if error_number == ERROR_ARANGO_COLLECTION_NOT_FOUND {
        ErrorKind::CollectionNotFound
    } else if error_number == ERROR_ARANGO_UNIQUE_CONSTRAINT_VIOLATED {
        ErrorKind::UniqueConstraintViolated
    } else {
        ErrorKind::Other
    }
}

/// Each kind but the last stands for one error number and no other, so
/// that two errors of different kinds never carry the same error number: a
/// document that is not found is told from a collection that is not found by
/// the error number, whatever the status.
pub proof fn lemma_kind_names_one_error_number(error_number: u16)
    ensures
        spec_error_kind(error_number) == ErrorKind::Conflict <==> error_number
            == ERROR_ARANGO_CONFLICT,
        spec_error_kind(error_number) == ErrorKind::DocumentNotFound <==> error_number
            == ERROR_ARANGO_DOCUMENT_NOT_FOUND,
        spec_error_kind(error_number) == ErrorKind::CollectionNotFound <==> error_number
            == ERROR_ARANGO_COLLECTION_NOT_FOUND,
        spec_error_kind(error_number) == ErrorKind::UniqueConstraintViolated <==> error_number
            == ERROR_ARANGO_UNIQUE_CONSTRAINT_VIOLATED,
{
}

/// Whether `status_code` says that the call as a whole succeeded.
pub open spec fn spec_is_success(status_code: u16) -> bool {
    200 <= status_code < 300
}

/// Says whether `status_code` says that the call as a whole succeeded.
pub fn is_success(status_code: u16) -> (success: bool)
    ensures
        success == spec_is_success(status_code),
{
    200 <= status_code && status_code < 300
}

/// An error of the server for a whole call, as a mathematical value.
pub struct ApiErrorView {
    /// The status of the response.
    pub status_code: u16,
    /// The error number of the server.
    pub error_number: u16,
    /// The message of the server.
    pub message: Seq<char>,
}

/// An error with which the server answered a whole call. The error number is
/// kept as the server sent it, whether this library knows it or not.
#[derive(Clone, Debug, PartialEq, Eq)]
pub struct ApiError {
    status_code: u16,
    error_number: u16,
    message: String,
}

impl View for ApiError {
    type V = ApiErrorView;

    closed spec fn view(&self) -> ApiErrorView {
        ApiErrorView {
            status_code: self.status_code,
            error_number: self.error_number,
            message: self.message@,
        }
    }
}

impl ApiError {
    /// The error with the given status, error number and message.
    pub fn new(status_code: u16, error_number: u16, message: &str) -> (error: Self)
        ensures
            error@ == (ApiErrorView { status_code, error_number, message: message@ }),
    {
        ApiError { status_code, error_number, message: String::from_str(message) }
    }

    /// Returns the status of the response.
    pub fn status_code(&self) -> (status_code: u16)
        ensures
            status_code == self@.status_code,
    {
        self.status_code
    }

    /// Returns the error number as the server sent it.
    pub fn error_number(&self) -> (error_number: u16)
        ensures
            error_number == self@.error_number,
    {
        self.error_number
    }

    /// Returns the message of the server.
    pub fn message(&self) -> (message: &str)
        ensures
            message@ == self@.message,
    {
        self.message.as_str()
    }

    /// Returns the kind of the error number.
    pub fn kind(&self) -> (kind: ErrorKind)
        ensures
            kind == spec_error_kind(self@.error_number),
    {
        error_kind(self.error_number)
    }

    /// Says whether a condition on the revision did not hold: the status is
    /// that of a failed precondition.
    pub fn is_precondition_failed(&self) -> (failed: bool)
        ensures
            failed == (self@.status_code == STATUS_PRECONDITION_FAILED),
    {
        self.status_code == STATUS_PRECONDITION_FAILED
    }

    /// Says whether something that the request named does not exist: the
    /// status is that of a resource not found. Whether it was the document
    /// or the collection is told by the kind of the error number.
    pub fn is_not_found(&self) -> (not_found: bool)
        ensures
            not_found == (self@.status_code == STATUS_NOT_FOUND),
    {
        self.status_code == STATUS_NOT_FOUND
    }
}

/// The failure of one element of a batch, as a mathematical value.
pub struct ElementErrorView {
    /// The error number of the server.
    pub code: u16,
    /// The message of the server.
    pub message: Seq<char>,
}

/// The failure of one element of a batch. The other elements of the batch
/// are not touched by it.
#[derive(Clone, Debug, PartialEq, Eq)]
pub struct ElementError {
    code: u16,
    message: String,
}

impl View for ElementError {
    type V = ElementErrorView;

    closed spec fn view(&self) -> ElementErrorView {
        ElementErrorView { code: self.code, message: self.message@ }
    }
}

impl ElementError {
    /// The failure with the given error number and message.
    pub fn new(code: u16, message: String) -> (error: Self)
        ensures
            error@ == (ElementErrorView { code, message: message@ }),
    {
        ElementError { code, message }
    }

    /// Returns the error number as the server sent it.
    pub fn code(&self) -> (code: u16)
        ensures
            code == self@.code,
    {
        self.code
    }

    /// Returns the message of the server.
    pub fn message(&self) -> (message: &str)
        ensures
            message@ == self@.message,
    {
        self.message.as_str()
    }

    /// Returns the kind of the error number.
    pub fn kind(&self) -> (kind: ErrorKind)
        ensures
            kind == spec_error_kind(self@.code),
    {
        error_kind(self.code)
    }
}

/// A field of a response.
#[derive(Clone, Copy, Debug, PartialEq, Eq, Structural)]
pub enum Field {
    /// The id of a document.
    Id,
    /// The key of a document.
    Key,
    /// The revision of a document.
    Revision,
    /// The revision of a document before a write.
    OldRevision,
    /// The content of a document before a write.
    Old,
    /// The content of a document after a write, or as it was read.
    New,
    /// The message of an error.
    ErrorMessage,
    /// The field that a method names as the place of its result.
    Result,
}

/// A shape that an object of a response has and should not have.
#[derive(Clone, Copy, Debug, PartialEq, Eq, Structural)]
pub enum Violation {
    /// A field is missing.
    MissingField {
        /// The field.
        field: Field,
    },
    /// The id is not the canonical form of a document id.
    MalformedId,
}

/// A response that does not have the shape that the protocol promises. Such
/// a response fails the whole call.
#[derive(Clone, Copy, Debug, PartialEq, Eq, Structural)]
pub enum ProtocolViolation {
    /// The response to a batch holds another number of elements than the
    /// request.
    LengthMismatch {
        /// The number of elements of the request.
        expected: usize,
        /// The number of elements of the response.
        actual: usize,
    },
    /// The response has a wrong shape.
    Response {
        /// What is wrong with it.
        violation: Violation,
    },
    /// An element of the response to a batch has a wrong shape.
    Element {
        /// The position of the element.
        index: usize,
        /// What is wrong with it.
        violation: Violation,
    },
    /// The status says that the call failed, and the response holds no error
    /// object.
    MissingErrorObject {
        /// The status of the response.
        status_code: u16,
    },
}

/// A failure of a call, as a mathematical value.
pub enum ErrorView {
    /// The call could not be completed.
    Transport(Seq<char>),
    /// The server answered with an error.
    Api(ApiErrorView),
    /// The response has a wrong shape.
    Protocol(ProtocolViolation),
}

/// A failure of a call.
#[derive(Clone, Debug, PartialEq, Eq)]
pub enum Error {
    /// The call could not be completed: nothing is known of what the server
    /// did.
    Transport(String),
    /// The server answered with an error for the whole call.
    Api(ApiError),
    /// The response does not have the shape that the protocol promises.
    Protocol(ProtocolViolation),
}

impl View for Error {
    type V = ErrorView;

    open spec fn view(&self) -> ErrorView {
        match self {
            Error::Transport(reason) => ErrorView::Transport(reason@),
            Error::Api(error) => ErrorView::Api(error@),
            Error::Protocol(violation) => ErrorView::Protocol(*violation),
        }
    }
}

/// The error object of a response, as it was read from the body.
#[derive(Clone, Debug, PartialEq, Eq)]
pub struct ErrorEnvelope {
    /// The flag that marks the object as an error.
    pub error: bool,
    /// The status that the server names in the body.
    pub code: u16,
    /// The error number of the server.
    pub error_num: u16,
    /// The message of the server.
    pub error_message: String,
}

/// The fields of an error object, as they were found in the body of a
/// response, each of them there or not.
#[derive(Clone, Debug, PartialEq, Eq)]
pub struct ErrorFields {
    /// The field `error`.
    pub error: Option<bool>,
    /// The field `code`.
    pub code: Option<u16>,
    /// The field `errorNum`.
    pub error_num: Option<u16>,
    /// The field `errorMessage`.
    pub error_message: Option<String>,
}

/// The error object that the fields `fields` make up: there is one where all
/// four fields are there, and none where one of them is missing.
pub open spec fn spec_read_envelope(fields: ErrorFields) -> Option<ErrorEnvelope> {
    if fields.error is Some && fields.code is Some && fields.error_num is Some
        && fields.error_message is Some {
        Some(
            ErrorEnvelope {
                error: fields.error->0,
                code: fields.code->0,
                error_num: fields.error_num->0,
                error_message: fields.error_message->0,
            },
        )
    } else {
        None
    }
}

/// Reads the error object of a response from the fields that were found in
/// its body. Nothing is put in the place of a field that is missing: a body
/// that lacks one of the four fields holds no error object.
pub fn read_envelope(fields: ErrorFields) -> (envelope: Option<ErrorEnvelope>)
    ensures
        envelope == spec_read_envelope(fields),
{
    match (fields.error, fields.code, fields.error_num, fields.error_message) {
        (Some(error), Some(code), Some(error_num), Some(error_message)) => Some(
            ErrorEnvelope { error, code, error_num, error_message },
        ),
        _ => None,
    }
}

/// What a response with the status `status_code` and the error object
/// `envelope` says of the call as a whole: nothing where the status is one of
/// success, the error of the server where there is an error object, and a
/// violation of the protocol where there is none.
pub open spec fn spec_check_status(status_code: u16, envelope: Option<ErrorEnvelope>) -> Result<
    (),
    ErrorView,
> {
    if spec_is_success(status_code) {
        Ok(())
    } else {
        match envelope {
            Some(envelope) => Err(
                ErrorView::Api(
                    ApiErrorView {
                        status_code,
                        error_number: envelope.error_num,
                        message: envelope.error_message@,
                    },
                ),
            ),
            None => Err(
                ErrorView::Protocol(ProtocolViolation::MissingErrorObject { status_code }),
            ),
        }
    }
}

/// The view of the outcome of a check.
pub open spec fn check_view(result: Result<(), Error>) -> Result<(), ErrorView> {
    match result {
        Ok(_) => Ok(()),
        Err(error) => Err(error@),
    }
}

/// Decides from the status of a response whether the call as a whole
/// succeeded. Where it did not, the error carries the status, and the error
/// number and the message of the error object as they are: an error number
/// that this library does not know is kept like any other.
pub fn check_status(status_code: u16, envelope: Option<ErrorEnvelope>) -> (result: Result<
    (),
    Error,
>)
    ensures
        check_view(result) == spec_check_status(status_code, envelope),
{
    if is_success(status_code) {
        Ok(())
    } else {
        match envelope {
            Some(envelope) => Err(
                Error::Api(
                    ApiError {
                        status_code,
                        error_number: envelope.error_num,
                        message: envelope.error_message,
                    },
                ),
            ),
            None => Err(Error::Protocol(ProtocolViolation::MissingErrorObject { status_code })),
        }
    }
}

} // verus!
