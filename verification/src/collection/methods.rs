//! Methods for managing collections.
//!
//! Each method is a value that holds what one call needs. From it the kind of
//! the operation, the path of the resource, the query parameters, the header
//! and the content of the request are derived, and from nothing else.

use crate::collection::types::{CollectionPropertiesUpdate, NewCollection, RenameTo};
use crate::method::{
    plain_resource_path, resource_path, spec_resource_path, Operation, RpcReturnType,
};
use crate::params::{
    empty_parameters, insert_flag, insert_number, no_entries, param_entries,
    parameters_with_capacity, with_flag_if, with_number_if,
};
use crate::protocol::{
    FIELD_CODE, FIELD_ID, FIELD_RESULT, PARAM_EXCLUDE_SYSTEM, PARAM_WAIT_FOR_SYNC_REPLICATION,
    PARAM_WITH_DATA, PARAM_WITH_REVISIONS, PATH_API_COLLECTION, PATH_CHECKSUM,
    PATH_DOCUMENT_COUNT, PATH_PROPERTIES, PATH_RENAME, PATH_REVISION,
};
use rincon_core::api::method::Parameters;
use vstd::prelude::*;
use vstd::string::StringExecFns;

verus! {

/// The return type of a method whose result is the whole body.
pub open spec fn returns_whole_body(return_type: RpcReturnType) -> bool {
    &&& return_type.result_name() == None::<Seq<char>>
    &&& return_type.code_name() == Some(FIELD_CODE@)
}

/// The return type of a method whose result is found in the field `field`.
pub open spec fn returns_field(return_type: RpcReturnType, field: Seq<char>) -> bool {
    &&& return_type.result_name() == Some(field)
    &&& return_type.code_name() == Some(FIELD_CODE@)
}

/// Builds the path of the collection `name`, or of the part of it that
/// `suffix` names.
fn collection_path(name: &str, suffix: &str) -> (path: String)
    ensures
        path@ == spec_resource_path(PATH_API_COLLECTION@, name@, suffix@),
{
    resource_path(PATH_API_COLLECTION, name, suffix)
}

/// Builds the path of the collection `name` itself.
fn collection_root_path(name: &str) -> (path: String)
    ensures
        path@ == spec_resource_path(PATH_API_COLLECTION@, name@, Seq::empty()),
{
    plain_resource_path(PATH_API_COLLECTION, name)
}

/// Retrieves a list of existing collections.
#[derive(Debug, Clone, PartialEq)]
pub struct ListCollections {
    /// Whether or not to exclude system collections from the response.
    exclude_system: bool,
}

impl ListCollections {
    /// Whether system collections are left out of the listing.
    pub closed spec fn excludes_system(&self) -> bool {
        self.exclude_system
    }

    /// Constructs a new instance of the `ListCollections` method with
    /// the `exclude_system` parameter set to `true`.
    pub fn new() -> (method: Self)
        ensures
            method.excludes_system(),
    {
        ListCollections { exclude_system: true }
    }

    /// Constructs a new instance of the `ListCollections` method with
    /// the `exclude_system` parameter set to `false`.
    pub fn including_system() -> (method: Self)
        ensures
            !method.excludes_system(),
    {
        ListCollections { exclude_system: false }
    }

    /// Sets whether system collections shall be excluded from the response.
    pub fn set_exclude_system(&mut self, exclude: bool)
        ensures
            final(self).excludes_system() == exclude,
    {
        self.exclude_system = exclude;
    }

    /// Returns whether system collections are going to be excluded from the
    /// response.
    pub fn is_exclude_system(&self) -> (exclude: bool)
        ensures
            exclude == self.excludes_system(),
    {
        self.exclude_system
    }

    /// Returns the kind of the operation: a read.
    pub fn operation(&self) -> (operation: Operation)
        ensures
            operation == Operation::Read,
    {
        Operation::Read
    }

    /// Returns the path of the resource: that of the collections.
    pub fn path(&self) -> (path: String)
        ensures
            path@ == PATH_API_COLLECTION@,
    {
        String::from_str(PATH_API_COLLECTION)
    }

    /// Returns the query parameters: `excludeSystem` with the value `true`
    /// where system collections are left out, and none otherwise.
    pub fn parameters(&self) -> (params: Parameters)
        ensures
            param_entries(params) == with_flag_if(
                no_entries(),
                self.excludes_system(),
                PARAM_EXCLUDE_SYSTEM@,
                true,
            ),
    {
        let mut params = parameters_with_capacity(1);
        if self.exclude_system {
            insert_flag(&mut params, PARAM_EXCLUDE_SYSTEM, true);
        }
        params
    }

    /// Returns the header parameters: there are none.
    pub fn header(&self) -> (header: Parameters)
        ensures
            param_entries(header) == no_entries(),
    {
        empty_parameters()
    }

    /// Returns the content of the request: there is none.
    pub fn content(&self) -> (content: Option<&()>)
        ensures
            content is None,
    {
        None
    }

    /// Returns where the result is found in the response: in the field
    /// `result`.
    pub fn return_type(&self) -> (return_type: RpcReturnType)
        ensures
            returns_field(return_type, FIELD_RESULT@),
    {
        RpcReturnType { result_field: Some(FIELD_RESULT), code_field: Some(FIELD_CODE) }
    }
}

/// Creates a new collection with the given name.
#[derive(Debug, Clone, PartialEq)]
pub struct CreateCollection {
    collection: NewCollection,
    wait_for_sync_replication: bool,
}

impl CreateCollection {
    /// The parameters of the collection that is created.
    pub closed spec fn new_collection(&self) -> NewCollection {
        self.collection
    }

    /// Whether the server waits until all replicas have created the
    /// collection.
    pub closed spec fn waits_for_sync_replication(&self) -> bool {
        self.wait_for_sync_replication
    }

    /// Constructs a new instance of the `CreateCollection` method with the
    /// given `NewCollection` parameters. The server is asked to wait for the
    /// replicas.
    pub fn new(collection: NewCollection) -> (method: Self)
        ensures
            method.new_collection() == collection,
            method.waits_for_sync_replication(),
    {
        CreateCollection { collection, wait_for_sync_replication: true }
    }

    /// Constructs a new instance of the `CreateCollection` method that will
    /// create a new collection with the given name and the default collection
    /// type. The default collection type is defined by the server.
    ///
    /// All other parameters will be set to their default values.
    pub fn with_name(name: &str) -> (method: Self)
        ensures
            method.new_collection()@ == NewCollection::spec_new(name@, None),
            method.waits_for_sync_replication(),
    {
        CreateCollection {
            collection: NewCollection::with_name(name),
            wait_for_sync_replication: true,
        }
    }

    /// Constructs a new instance of the `CreateCollection` method that will
    /// create a new documents collection with the given name.
    ///
    /// All other parameters will be set to their default values.
    pub fn documents_with_name(name: &str) -> (method: Self)
        ensures
            method.new_collection()@ == NewCollection::spec_new(
                name@,
                Some(crate::collection::types::CollectionType::Documents),
            ),
            method.waits_for_sync_replication(),
    {
        CreateCollection {
            collection: NewCollection::documents_with_name(name),
            wait_for_sync_replication: true,
        }
    }

    /// Constructs a new instance of the `CreateCollection` method that will
    /// create a new edge collection with the given name.
    ///
    /// All other parameters will be set to their default values.
    pub fn edges_with_name(name: &str) -> (method: Self)
        ensures
            method.new_collection()@ == NewCollection::spec_new(
                name@,
                Some(crate::collection::types::CollectionType::Edges),
            ),
            method.waits_for_sync_replication(),
    {
        CreateCollection {
            collection: NewCollection::edges_with_name(name),
            wait_for_sync_replication: true,
        }
    }

    /// Set whether the server shall wait until the new collection has been
    /// created at all replications before it returns the response.
    pub fn set_wait_for_sync_replication(&mut self, wait_for_sync_replication: bool)
        ensures
            final(self).waits_for_sync_replication() == wait_for_sync_replication,
            final(self).new_collection() == old(self).new_collection(),
    {
        self.wait_for_sync_replication = wait_for_sync_replication;
    }

    /// Returns the parameters that are going to be used to create the new
    /// collection.
    pub fn collection(&self) -> (collection: &NewCollection)
        ensures
            *collection == self.new_collection(),
    {
        &self.collection
    }

    /// Returns whether the request will wait until the new collection has
    /// been created at all replications.
    pub fn is_wait_for_sync_replication(&self) -> (wait: bool)
        ensures
            wait == self.waits_for_sync_replication(),
    {
        self.wait_for_sync_replication
    }

    /// Returns the kind of the operation: a creation.
    pub fn operation(&self) -> (operation: Operation)
        ensures
            operation == Operation::Create,
    {
        Operation::Create
    }

    /// Returns the path of the resource: that of the collections.
    pub fn path(&self) -> (path: String)
        ensures
            path@ == PATH_API_COLLECTION@,
    {
        String::from_str(PATH_API_COLLECTION)
    }

    /// Returns the query parameters: `waitForSyncReplication` with the value
    /// 0 where the server shall not wait for the replicas, and none
    /// otherwise.
    pub fn parameters(&self) -> (params: Parameters)
        ensures
            param_entries(params) == with_number_if(
                no_entries(),
                !self.waits_for_sync_replication(),
                PARAM_WAIT_FOR_SYNC_REPLICATION@,
                0,
            ),
    {
        let mut params = parameters_with_capacity(1);
        if !self.wait_for_sync_replication {
            insert_number(&mut params, PARAM_WAIT_FOR_SYNC_REPLICATION, 0);
        }
        params
    }

    /// Returns the header parameters: there are none.
    pub fn header(&self) -> (header: Parameters)
        ensures
            param_entries(header) == no_entries(),
    {
        empty_parameters()
    }

    /// Returns the content of the request: the parameters of the new
    /// collection.
    pub fn content(&self) -> (content: Option<&NewCollection>)
        ensures
            content == Some(&self.new_collection()),
    {
        Some(&self.collection)
    }

    /// Returns where the result is found in the response: it is the whole
    /// body.
    pub fn return_type(&self) -> (return_type: RpcReturnType)
        ensures
            returns_whole_body(return_type),
    {
        RpcReturnType { result_field: None, code_field: Some(FIELD_CODE) }
    }
}

/// Drops the collection identified by the given name.
///
/// If the collection was successfully dropped, the identifier of the dropped
/// collection is returned.
#[derive(Debug, Clone, PartialEq)]
pub struct DropCollection {
    name: String,
    system: bool,
}

impl DropCollection {
    /// The name of the collection that is dropped.
    pub closed spec fn collection_name(&self) -> Seq<char> {
        self.name@
    }

    /// Whether the collection that is dropped is a system collection.
    pub closed spec fn drops_system(&self) -> bool {
        self.system
    }

    /// Constructs a new instance of the `DropCollection` method that is
    /// going to be drop the user collection identified by the given name.
    ///
    /// **Note**: This method returns a `DropCollection` instance that drops
    /// user collections only. To drop a system collection either use the
    /// constructor method `DropCollection::system_with_name` or set the
    /// is_system property to `true` explicitly by calling the function
    /// `DropCollection::set_system`.
    pub fn with_name(name: &str) -> (method: Self)
        ensures
            method.collection_name() == name@,
            !method.drops_system(),
    {
        DropCollection { name: String::from_str(name), system: false }
    }

    /// Constructs a new instance of the `DropCollection` method that is
    /// going to be drop the system collection identified by the given name.
    ///
    /// **Note**: This method returns a `DropCollection` instance that drops
    /// system collections only. To drop a user collection either use the
    /// constructor method `DropCollection::with_name` or set the
    /// is_system property to `false` explicitly by calling the function
    /// `DropCollection::set_system`.
    pub fn system_with_name(name: &str) -> (method: Self)
        ensures
            method.collection_name() == name@,
            method.drops_system(),
    {
        DropCollection { name: String::from_str(name), system: true }
    }

    /// Set whether the collection to be dropped is a system collection.
    ///
    /// The collection is dropped only when this property is reflects the
    /// type of the collection to be dropped.
    pub fn set_system(&mut self, system: bool)
        ensures
            final(self).drops_system() == system,
            final(self).collection_name() == old(self).collection_name(),
    {
        self.system = system;
    }

    /// Returns the name of the collection to be dropped.
    pub fn name(&self) -> (name: &str)
        ensures
            name@ == self.collection_name(),
    {
        self.name.as_str()
    }

    /// Returns whether the collection to be dropped is a system collection.
    pub fn is_system(&self) -> (system: bool)
        ensures
            system == self.drops_system(),
    {
        self.system
    }

    /// Returns the kind of the operation: a deletion.
    pub fn operation(&self) -> (operation: Operation)
        ensures
            operation == Operation::Delete,
    {
        Operation::Delete
    }

    /// Returns the path of the resource: that of the collection.
    pub fn path(&self) -> (path: String)
        ensures
            path@ == spec_resource_path(
                PATH_API_COLLECTION@,
                self.collection_name(),
                Seq::empty(),
            ),
    {
        collection_root_path(self.name.as_str())
    }

    /// Returns the query parameters: there are none.
    pub fn parameters(&self) -> (params: Parameters)
        ensures
            param_entries(params) == no_entries(),
    {
        empty_parameters()
    }

    /// Returns the header parameters: there are none.
    pub fn header(&self) -> (header: Parameters)
        ensures
            param_entries(header) == no_entries(),
    {
        empty_parameters()
    }

    /// Returns the content of the request: there is none.
    pub fn content(&self) -> (content: Option<&()>)
        ensures
            content is None,
    {
        None
    }

    /// Returns where the result is found in the response: in the field `id`.
    pub fn return_type(&self) -> (return_type: RpcReturnType)
        ensures
            returns_field(return_type, FIELD_ID@),
    {
        RpcReturnType { result_field: Some(FIELD_ID), code_field: Some(FIELD_CODE) }
    }
}

/// Fetch information about the collection identified by the given name.
#[derive(Debug, Clone, PartialEq)]
pub struct GetCollection {
    name: String,
}

impl GetCollection {
    /// The name of the collection that is asked about.
    pub closed spec fn collection_name(&self) -> Seq<char> {
        self.name@
    }

    /// Constructs a new instance of the `GetCollection` method.
    pub fn new(name: String) -> (method: Self)
        ensures
            method.collection_name() == name@,
    {
        GetCollection { name }
    }

    /// Constructs a new instance of the `GetCollection` method to
    /// get information about the collection with the given name.
    pub fn with_name(name: &str) -> (method: Self)
        ensures
            method.collection_name() == name@,
    {
        GetCollection { name: String::from_str(name) }
    }

    /// Returns the name of the collection for which the information shall
    /// be fetched.
    pub fn name(&self) -> (name: &str)
        ensures
            name@ == self.collection_name(),
    {
        self.name.as_str()
    }

    /// Returns the kind of the operation: a read.
    pub fn operation(&self) -> (operation: Operation)
        ensures
            operation == Operation::Read,
    {
        Operation::Read
    }

    /// Returns the path of the resource: that of the collection.
    pub fn path(&self) -> (path: String)
        ensures
            path@ == spec_resource_path(
                PATH_API_COLLECTION@,
                self.collection_name(),
                Seq::empty(),
            ),
    {
        collection_root_path(self.name.as_str())
    }

    /// Returns the query parameters: there are none.
    pub fn parameters(&self) -> (params: Parameters)
        ensures
            param_entries(params) == no_entries(),
    {
        empty_parameters()
    }

    /// Returns the header parameters: there are none.
    pub fn header(&self) -> (header: Parameters)
        ensures
            param_entries(header) == no_entries(),
    {
        empty_parameters()
    }

    /// Returns the content of the request: there is none.
    pub fn content(&self) -> (content: Option<&()>)
        ensures
            content is None,
    {
        None
    }

    /// Returns where the result is found in the response: it is the whole
    /// body.
    pub fn return_type(&self) -> (return_type: RpcReturnType)
        ensures
            returns_whole_body(return_type),
    {
        RpcReturnType { result_field: None, code_field: Some(FIELD_CODE) }
    }
}

/// Fetch the checksum of the collection identified by the given name.
#[derive(Debug, Clone, PartialEq)]
pub struct GetCollectionChecksum {
    name: String,
    with_revisions: bool,
    with_data: bool,
}

impl GetCollectionChecksum {
    /// The name of the collection whose checksum is asked for.
    pub closed spec fn collection_name(&self) -> Seq<char> {
        self.name@
    }

    /// Whether the revisions of the documents go into the checksum.
    pub closed spec fn includes_revisions(&self) -> bool {
        self.with_revisions
    }

    /// Whether the bodies of the documents go into the checksum.
    pub closed spec fn includes_data(&self) -> bool {
        self.with_data
    }

    /// Constructs a new instance of the `GetCollectionChecksum` method.
    /// Neither revisions nor bodies go into the checksum.
    pub fn new(name: String) -> (method: Self)
        ensures
            method.collection_name() == name@,
            !method.includes_revisions(),
            !method.includes_data(),
    {
        GetCollectionChecksum { name, with_revisions: false, with_data: false }
    }

    /// Constructs a new instance of the `GetCollectionChecksum` method to
    /// get the checksum of the collection with the given name.
    pub fn with_name(name: &str) -> (method: Self)
        ensures
            method.collection_name() == name@,
            !method.includes_revisions(),
            !method.includes_data(),
    {
        GetCollectionChecksum {
            name: String::from_str(name),
            with_revisions: false,
            with_data: false,
        }
    }

    /// Set whether or not to include document revision ids in the
    /// checksum calculation.
    pub fn set_with_revisions(&mut self, with_revisions: bool)
        ensures
            final(self).includes_revisions() == with_revisions,
            final(self).includes_data() == old(self).includes_data(),
            final(self).collection_name() == old(self).collection_name(),
    {
        self.with_revisions = with_revisions;
    }

    /// Set whether or not to include document body data
    /// in the checksum calculation.
    pub fn set_with_data(&mut self, with_data: bool)
        ensures
            final(self).includes_data() == with_data,
            final(self).includes_revisions() == old(self).includes_revisions(),
            final(self).collection_name() == old(self).collection_name(),
    {
        self.with_data = with_data;
    }

    /// Returns the name of the collection that it will get the checksum of.
    pub fn name(&self) -> (name: &str)
        ensures
            name@ == self.collection_name(),
    {
        self.name.as_str()
    }

    /// Returns whether document revision ids go into the checksum.
    pub fn is_with_revisions(&self) -> (with_revisions: bool)
        ensures
            with_revisions == self.includes_revisions(),
    {
        self.with_revisions
    }

    /// Returns whether document body data goes into the checksum.
    pub fn is_with_data(&self) -> (with_data: bool)
        ensures
            with_data == self.includes_data(),
    {
        self.with_data
    }

    /// Returns the kind of the operation: a read.
    pub fn operation(&self) -> (operation: Operation)
        ensures
            operation == Operation::Read,
    {
        Operation::Read
    }

    /// Returns the path of the resource: that of the collection's checksum.
    pub fn path(&self) -> (path: String)
        ensures
            path@ == spec_resource_path(
                PATH_API_COLLECTION@,
                self.collection_name(),
                PATH_CHECKSUM@,
            ),
    {
        collection_path(self.name.as_str(), PATH_CHECKSUM)
    }

    /// Returns the query parameters: `withRevisions` with the value 0 where
    /// the revisions are left out of the checksum, then `withData` with the
    /// value 0 where the bodies are left out of it. What goes into the
    /// checksum is not named.
    pub fn parameters(&self) -> (params: Parameters)
        ensures
            param_entries(params) == with_number_if(
                with_number_if(
                    no_entries(),
                    !self.includes_revisions(),
                    PARAM_WITH_REVISIONS@,
                    0,
                ),
                !self.includes_data(),
                PARAM_WITH_DATA@,
                0,
            ),
    {
        let mut params = parameters_with_capacity(2);
        if !self.with_revisions {
            insert_number(&mut params, PARAM_WITH_REVISIONS, 0);
        }
        if !self.with_data {
            insert_number(&mut params, PARAM_WITH_DATA, 0);
        }
        params
    }

    /// Returns the header parameters: there are none.
    pub fn header(&self) -> (header: Parameters)
        ensures
            param_entries(header) == no_entries(),
    {
        empty_parameters()
    }

    /// Returns the content of the request: there is none.
    pub fn content(&self) -> (content: Option<&()>)
        ensures
            content is None,
    {
        None
    }

    /// Returns where the result is found in the response: it is the whole
    /// body.
    pub fn return_type(&self) -> (return_type: RpcReturnType)
        ensures
            returns_whole_body(return_type),
    {
        RpcReturnType { result_field: None, code_field: Some(FIELD_CODE) }
    }
}

/// Fetch the number of documents in a collection identified by the given name.
#[derive(Debug, Clone, PartialEq)]
pub struct GetCollectionDocumentCount {
    name: String,
}

impl GetCollectionDocumentCount {
    /// The name of the collection that is asked about.
    pub closed spec fn collection_name(&self) -> Seq<char> {
        self.name@
    }

    /// Constructs a new instance of the `GetCollectionDocumentCount` method.
    pub fn new(name: String) -> (method: Self)
        ensures
            method.collection_name() == name@,
    {
        GetCollectionDocumentCount { name }
    }

    /// Constructs a new instance of the `GetCollectionDocumentCount` method to
    /// get the document count of the collection with the given name.
    pub fn with_name(name: &str) -> (method: Self)
        ensures
            method.collection_name() == name@,
    {
        GetCollectionDocumentCount { name: String::from_str(name) }
    }

    /// Returns the name of the collection for which the document count shall
    /// be fetched.
    pub fn name(&self) -> (name: &str)
        ensures
            name@ == self.collection_name(),
    {
        self.name.as_str()
    }

    /// Returns the kind of the operation: a read.
    pub fn operation(&self) -> (operation: Operation)
        ensures
            operation == Operation::Read,
    {
        Operation::Read
    }

    /// Returns the path of the resource: that of the collection's
    /// document count.
    pub fn path(&self) -> (path: String)
        ensures
            path@ == spec_resource_path(
                PATH_API_COLLECTION@,
                self.collection_name(),
                PATH_DOCUMENT_COUNT@,
            ),
    {
        collection_path(self.name.as_str(), PATH_DOCUMENT_COUNT)
    }

    /// Returns the query parameters: there are none.
    pub fn parameters(&self) -> (params: Parameters)
        ensures
            param_entries(params) == no_entries(),
    {
        empty_parameters()
    }

    /// Returns the header parameters: there are none.
    pub fn header(&self) -> (header: Parameters)
        ensures
            param_entries(header) == no_entries(),
    {
        empty_parameters()
    }

    /// Returns the content of the request: there is none.
    pub fn content(&self) -> (content: Option<&()>)
        ensures
            content is None,
    {
        None
    }

    /// Returns where the result is found in the response: it is the whole
    /// body.
    pub fn return_type(&self) -> (return_type: RpcReturnType)
        ensures
            returns_whole_body(return_type),
    {
        RpcReturnType { result_field: None, code_field: Some(FIELD_CODE) }
    }
}

/// Fetch the revision of the collection identified by the given name.
#[derive(Debug, Clone, PartialEq)]
pub struct GetCollectionRevision {
    name: String,
}

impl GetCollectionRevision {
    /// The name of the collection that is asked about.
    pub closed spec fn collection_name(&self) -> Seq<char> {
        self.name@
    }

    /// Constructs a new instance of the `GetCollectionRevision` method.
    pub fn new(name: String) -> (method: Self)
        ensures
            method.collection_name() == name@,
    {
        GetCollectionRevision { name }
    }

    /// Constructs a new instance of the `GetCollectionRevision` method to
    /// get the revision of the collection with the given name.
    pub fn with_name(name: &str) -> (method: Self)
        ensures
            method.collection_name() == name@,
    {
        GetCollectionRevision { name: String::from_str(name) }
    }

    /// Returns the name of the collection for which the revision shall
    /// be fetched.
    pub fn name(&self) -> (name: &str)
        ensures
            name@ == self.collection_name(),
    {
        self.name.as_str()
    }

    /// Returns the kind of the operation: a read.
    pub fn operation(&self) -> (operation: Operation)
        ensures
            operation == Operation::Read,
    {
        Operation::Read
    }

    /// Returns the path of the resource: that of the collection's
    /// revision.
    pub fn path(&self) -> (path: String)
        ensures
            path@ == spec_resource_path(
                PATH_API_COLLECTION@,
                self.collection_name(),
                PATH_REVISION@,
            ),
    {
        collection_path(self.name.as_str(), PATH_REVISION)
    }

    /// Returns the query parameters: there are none.
    pub fn parameters(&self) -> (params: Parameters)
        ensures
            param_entries(params) == no_entries(),
    {
        empty_parameters()
    }

    /// Returns the header parameters: there are none.
    pub fn header(&self) -> (header: Parameters)
        ensures
            param_entries(header) == no_entries(),
    {
        empty_parameters()
    }

    /// Returns the content of the request: there is none.
    pub fn content(&self) -> (content: Option<&()>)
        ensures
            content is None,
    {
        None
    }

    /// Returns where the result is found in the response: it is the whole
    /// body.
    pub fn return_type(&self) -> (return_type: RpcReturnType)
        ensures
            returns_whole_body(return_type),
    {
        RpcReturnType { result_field: None, code_field: Some(FIELD_CODE) }
    }
}

/// Fetch the properties of the collection identified by the given name.
#[derive(Debug, Clone, PartialEq)]
pub struct GetCollectionProperties {
    name: String,
}

impl GetCollectionProperties {
    /// The name of the collection that is asked about.
    pub closed spec fn collection_name(&self) -> Seq<char> {
        self.name@
    }

    /// Constructs a new instance of the `GetCollectionProperties` method.
    pub fn new(name: String) -> (method: Self)
        ensures
            method.collection_name() == name@,
    {
        GetCollectionProperties { name }
    }

    /// Constructs a new instance of the `GetCollectionProperties` method to
    /// get properties about the collection with the given name.
    pub fn with_name(name: &str) -> (method: Self)
        ensures
            method.collection_name() == name@,
    {
        GetCollectionProperties { name: String::from_str(name) }
    }

    /// Returns the name of the collection for which the properties shall
    /// be fetched.
    pub fn name(&self) -> (name: &str)
        ensures
            name@ == self.collection_name(),
    {
        self.name.as_str()
    }

    /// Returns the kind of the operation: a read.
    pub fn operation(&self) -> (operation: Operation)
        ensures
            operation == Operation::Read,
    {
        Operation::Read
    }

    /// Returns the path of the resource: that of the collection's
    /// properties.
    pub fn path(&self) -> (path: String)
        ensures
            path@ == spec_resource_path(
                PATH_API_COLLECTION@,
                self.collection_name(),
                PATH_PROPERTIES@,
            ),
    {
        collection_path(self.name.as_str(), PATH_PROPERTIES)
    }

    /// Returns the query parameters: there are none.
    pub fn parameters(&self) -> (params: Parameters)
        ensures
            param_entries(params) == no_entries(),
    {
        empty_parameters()
    }

    /// Returns the header parameters: there are none.
    pub fn header(&self) -> (header: Parameters)
        ensures
            param_entries(header) == no_entries(),
    {
        empty_parameters()
    }

    /// Returns the content of the request: there is none.
    pub fn content(&self) -> (content: Option<&()>)
        ensures
            content is None,
    {
        None
    }

    /// Returns where the result is found in the response: it is the whole
    /// body.
    pub fn return_type(&self) -> (return_type: RpcReturnType)
        ensures
            returns_whole_body(return_type),
    {
        RpcReturnType { result_field: None, code_field: Some(FIELD_CODE) }
    }
}

/// Change the properties of a collection identified by name.
///
/// With this method only the properties `wait_for_sync` and `journal_size`
/// can be changed.
///
/// To change the `name` of a collection, rename the collection using the
/// `RenameCollection` method.
///
/// All other collection properties can not be changed once the collection is
/// created.
#[derive(Debug, Clone, PartialEq)]
pub struct ChangeCollectionProperties {
    name: String,
    updates: CollectionPropertiesUpdate,
}

impl ChangeCollectionProperties {
    /// The name of the collection whose properties are changed.
    pub closed spec fn collection_name(&self) -> Seq<char> {
        self.name@
    }

    /// The changes that are applied.
    pub closed spec fn changes(&self) -> CollectionPropertiesUpdate {
        self.updates
    }

    /// Constructs a new instance of the `ChangeCollectionProperties` method.
    ///
    /// The `name` parameter must contain the name of the collection for which
    /// the properties shall be changed. The `updates` parameter contains the
    /// actual changes that shall be applied.
    pub fn new(name: String, updates: CollectionPropertiesUpdate) -> (method: Self)
        ensures
            method.collection_name() == name@,
            method.changes() == updates,
    {
        ChangeCollectionProperties { name, updates }
    }

    /// Returns the name of the collection for which the properties shall be
    /// changed.
    pub fn name(&self) -> (name: &str)
        ensures
            name@ == self.collection_name(),
    {
        self.name.as_str()
    }

    /// Returns the updates that shall be applied to the collection's
    /// properties.
    pub fn updates(&self) -> (updates: &CollectionPropertiesUpdate)
        ensures
            *updates == self.changes(),
    {
        &self.updates
    }

    /// Returns the kind of the operation: a replacement.
    pub fn operation(&self) -> (operation: Operation)
        ensures
            operation == Operation::Replace,
    {
        Operation::Replace
    }

    /// Returns the path of the resource: that of the collection's
    /// properties.
    pub fn path(&self) -> (path: String)
        ensures
            path@ == spec_resource_path(
                PATH_API_COLLECTION@,
                self.collection_name(),
                PATH_PROPERTIES@,
            ),
    {
        collection_path(self.name.as_str(), PATH_PROPERTIES)
    }

    /// Returns the query parameters: there are none.
    pub fn parameters(&self) -> (params: Parameters)
        ensures
            param_entries(params) == no_entries(),
    {
        empty_parameters()
    }

    /// Returns the header parameters: there are none.
    pub fn header(&self) -> (header: Parameters)
        ensures
            param_entries(header) == no_entries(),
    {
        empty_parameters()
    }

    /// Returns the content of the request: the changes.
    pub fn content(&self) -> (content: Option<&CollectionPropertiesUpdate>)
        ensures
            content == Some(&self.changes()),
    {
        Some(&self.updates)
    }

    /// Returns where the result is found in the response: it is the whole
    /// body.
    pub fn return_type(&self) -> (return_type: RpcReturnType)
        ensures
            returns_whole_body(return_type),
    {
        RpcReturnType { result_field: None, code_field: Some(FIELD_CODE) }
    }
}

/// Renames a collection.
///
/// **Note:** this method is not available in a cluster.
#[derive(Debug, Clone, PartialEq)]
pub struct RenameCollection {
    name: String,
    rename_to: RenameTo,
}

impl RenameCollection {
    /// The name of the collection that is renamed.
    pub closed spec fn collection_name(&self) -> Seq<char> {
        self.name@
    }

    /// The name that the collection gets.
    pub closed spec fn new_name(&self) -> Seq<char> {
        self.rename_to@
    }

    /// Constructs a new instance of the `RenameCollection` method with all
    /// parameters specified.
    pub fn new(name: String, rename_to: RenameTo) -> (method: Self)
        ensures
            method.collection_name() == name@,
            method.new_name() == rename_to@,
    {
        RenameCollection { name, rename_to }
    }

    /// Returns a builder to construct a new instance of the `RenameCollection`
    /// method that will rename the collection identified by the given name.
    pub fn with_name(name: &str) -> (builder: RenameCollectionBuilder)
        ensures
            builder.collection_name() == name@,
    {
        RenameCollectionBuilder { collection_name: String::from_str(name) }
    }

    /// Returns the name of the collection that is renamed.
    pub fn name(&self) -> (name: &str)
        ensures
            name@ == self.collection_name(),
    {
        self.name.as_str()
    }

    /// Returns the name that the collection gets.
    pub fn rename_to(&self) -> (rename_to: &RenameTo)
        ensures
            rename_to@ == self.new_name(),
    {
        &self.rename_to
    }

    /// Returns the kind of the operation: a replacement.
    pub fn operation(&self) -> (operation: Operation)
        ensures
            operation == Operation::Replace,
    {
        Operation::Replace
    }

    /// Returns the path of the resource: that of the collection's renaming.
    pub fn path(&self) -> (path: String)
        ensures
            path@ == spec_resource_path(
                PATH_API_COLLECTION@,
                self.collection_name(),
                PATH_RENAME@,
            ),
    {
        collection_path(self.name.as_str(), PATH_RENAME)
    }

    /// Returns the query parameters: there are none.
    pub fn parameters(&self) -> (params: Parameters)
        ensures
            param_entries(params) == no_entries(),
    {
        empty_parameters()
    }

    /// Returns the header parameters: there are none.
    pub fn header(&self) -> (header: Parameters)
        ensures
            param_entries(header) == no_entries(),
    {
        empty_parameters()
    }

    /// Returns the content of the request: the new name.
    pub fn content(&self) -> (content: Option<&RenameTo>)
        ensures
            content is Some,
            content.unwrap()@ == self.new_name(),
    {
        Some(&self.rename_to)
    }

    /// Returns where the result is found in the response: it is the whole
    /// body.
    pub fn return_type(&self) -> (return_type: RpcReturnType)
        ensures
            returns_whole_body(return_type),
    {
        RpcReturnType { result_field: None, code_field: Some(FIELD_CODE) }
    }
}

/// A struct that helps to provide an efficient fluent API to build a new
/// instance of the `RenameCollection` method.
#[derive(Debug)]
pub struct RenameCollectionBuilder {
    collection_name: String,
}

impl RenameCollectionBuilder {
    /// The name of the collection that is going to be renamed.
    pub closed spec fn collection_name(&self) -> Seq<char> {
        self.collection_name@
    }

    /// Constructs a new instance of the `RenameCollection` method for the
    /// collection name of this builder and the given new name.
    pub fn to_name(self, name: &str) -> (method: RenameCollection)
        ensures
            method.collection_name() == self.collection_name(),
            method.new_name() == name@,
    {
        RenameCollection { name: self.collection_name, rename_to: RenameTo::new(name) }
    }
}

} // verus!
