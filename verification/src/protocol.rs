//! Names of paths, query parameters, headers and fields of the wire protocol.

use vstd::prelude::*;

verus! {

/// Base path of the collection resources.
pub const PATH_API_COLLECTION: &'static str = "/_api/collection";

/// Base path of the document resources.
pub const PATH_API_DOCUMENT: &'static str = "/_api/document";

/// Path suffix of a collection's checksum.
pub const PATH_CHECKSUM: &'static str = "/checksum";

/// Path suffix of a collection's document count.
pub const PATH_DOCUMENT_COUNT: &'static str = "/count";

/// Path suffix of a collection's properties.
pub const PATH_PROPERTIES: &'static str = "/properties";

/// Path suffix of the rename operation.
pub const PATH_RENAME: &'static str = "/rename";

/// Path suffix of a collection's revision.
pub const PATH_REVISION: &'static str = "/revision";

/// Separator between the segments of a path and between the parts of a
/// document id.
pub const PATH_SEPARATOR: &'static str = "/";

/// Query parameter: leave system collections out of a listing.
pub const PARAM_EXCLUDE_SYSTEM: &'static str = "excludeSystem";

/// Query parameter: do not compare the revision carried in the body.
pub const PARAM_IGNORE_REVISIONS: &'static str = "ignoreRevs";

/// Query parameter: return the content as it is after the write.
pub const PARAM_RETURN_NEW: &'static str = "returnNew";

/// Query parameter: return the content as it was before the write.
pub const PARAM_RETURN_OLD: &'static str = "returnOld";

/// Query parameter: wait until the write has been synced to disk.
pub const PARAM_WAIT_FOR_SYNC: &'static str = "waitForSync";

/// Query parameter: wait until all replicas have created the collection.
pub const PARAM_WAIT_FOR_SYNC_REPLICATION: &'static str = "waitForSyncReplication";

/// Query parameter: include the document bodies in a checksum.
pub const PARAM_WITH_DATA: &'static str = "withData";

/// Query parameter: include the document revisions in a checksum.
pub const PARAM_WITH_REVISIONS: &'static str = "withRevisions";

/// Header of a request that is to succeed only on an equal revision.
pub const HEADER_IF_MATCH: &'static str = "If-Match";

/// Header of a request that is to succeed only on a different revision.
pub const HEADER_IF_NON_MATCH: &'static str = "If-None-Match";

/// Field that carries the status code of a response.
pub const FIELD_CODE: &'static str = "code";

/// Field that carries the identifier of a dropped collection.
pub const FIELD_ID: &'static str = "id";

/// Field that carries the result of a call.
pub const FIELD_RESULT: &'static str = "result";

/// Field of a document that carries its id.
pub const FIELD_ENTITY_ID: &'static str = "_id";

/// Field of a document that carries its key.
pub const FIELD_ENTITY_KEY: &'static str = "_key";

/// Field of a document that carries its revision.
pub const FIELD_ENTITY_REVISION: &'static str = "_rev";

/// Field of a write result that carries the revision before the write.
pub const FIELD_ENTITY_OLD_REVISION: &'static str = "_oldRev";

/// Field of a write result that carries the content after the write.
pub const FIELD_ENTITY_NEW: &'static str = "new";

/// Field of a write result that carries the content before the write.
pub const FIELD_ENTITY_OLD: &'static str = "old";

/// Field of an error object that marks it as an error.
pub const FIELD_ERROR: &'static str = "error";

/// Field of an error object that carries the server's error number.
pub const FIELD_ERROR_NUMBER: &'static str = "errorNum";

/// Field of an error object that carries the message.
pub const FIELD_ERROR_MESSAGE: &'static str = "errorMessage";

} // verus!
