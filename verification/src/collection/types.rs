//! Values that the operations on collections carry.

use vstd::prelude::*;
use vstd::string::StringExecFns;

verus! {

/// The kind of content that a collection holds.
#[derive(Clone, Copy, Debug, PartialEq, Eq, Structural)]
pub enum CollectionType {
    /// A collection of documents.
    Documents,
    /// A collection of edges.
    Edges,
}

/// The parameters by which a collection is created.
#[derive(Clone, Debug, PartialEq)]
pub struct NewCollection {
    name: String,
    kind: Option<CollectionType>,
    is_system: Option<bool>,
    wait_for_sync: Option<bool>,
}

/// A [`NewCollection`] as a mathematical value.
pub struct NewCollectionView {
    /// The name of the collection.
    pub name: Seq<char>,
    /// The kind of the collection, where one is asked for.
    pub kind: Option<CollectionType>,
    /// Whether it is a system collection, where that is said.
    pub is_system: Option<bool>,
    /// Whether writes wait for the sync to disk, where that is said.
    pub wait_for_sync: Option<bool>,
}

impl View for NewCollection {
    type V = NewCollectionView;

    closed spec fn view(&self) -> NewCollectionView {
        NewCollectionView {
            name: self.name@,
            kind: self.kind,
            is_system: self.is_system,
            wait_for_sync: self.wait_for_sync,
        }
    }
}

impl NewCollection {
    /// The parameters of a collection with the given name and kind, all
    /// others left to the server.
    pub open spec fn spec_new(name: Seq<char>, kind: Option<CollectionType>) -> NewCollectionView {
        NewCollectionView { name, kind, is_system: None, wait_for_sync: None }
    }

    /// Parameters for a collection of the given name, of the kind that the
    /// server takes by default.
    pub fn with_name(name: &str) -> (collection: Self)
        ensures
            collection@ == Self::spec_new(name@, None),
    {
        NewCollection {
            name: String::from_str(name),
            kind: None,
            is_system: None,
            wait_for_sync: None,
        }
    }

    /// Parameters for a collection of documents of the given name.
    pub fn documents_with_name(name: &str) -> (collection: Self)
        ensures
            collection@ == Self::spec_new(name@, Some(CollectionType::Documents)),
    {
        NewCollection {
            name: String::from_str(name),
            kind: Some(CollectionType::Documents),
            is_system: None,
            wait_for_sync: None,
        }
    }

    /// Parameters for a collection of edges of the given name.
    pub fn edges_with_name(name: &str) -> (collection: Self)
        ensures
            collection@ == Self::spec_new(name@, Some(CollectionType::Edges)),
    {
        NewCollection {
            name: String::from_str(name),
            kind: Some(CollectionType::Edges),
            is_system: None,
            wait_for_sync: None,
        }
    }

    /// Says whether the collection is a system collection; nothing else
    /// changes.
    pub fn set_system(&mut self, is_system: Option<bool>)
        ensures
            final(self)@ == (NewCollectionView { is_system, ..old(self)@ }),
    {
        self.is_system = is_system;
    }

    /// Says whether writes wait for the sync to disk; nothing else changes.
    pub fn set_wait_for_sync(&mut self, wait_for_sync: Option<bool>)
        ensures
            final(self)@ == (NewCollectionView { wait_for_sync, ..old(self)@ }),
    {
        self.wait_for_sync = wait_for_sync;
    }

    /// Returns the name of the collection.
    pub fn name(&self) -> (name: &str)
        ensures
            name@ == self@.name,
    {
        self.name.as_str()
    }

    /// Returns the kind of the collection, where one is asked for.
    pub fn kind(&self) -> (kind: Option<CollectionType>)
        ensures
            kind == self@.kind,
    {
        self.kind
    }

    /// Returns whether the collection is a system collection, where that is
    /// said.
    pub fn is_system(&self) -> (is_system: Option<bool>)
        ensures
            is_system == self@.is_system,
    {
        self.is_system
    }

    /// Returns whether writes wait for the sync to disk, where that is said.
    pub fn is_wait_for_sync(&self) -> (wait_for_sync: Option<bool>)
        ensures
            wait_for_sync == self@.wait_for_sync,
    {
        self.wait_for_sync
    }
}

/// The new name of a collection that is renamed.
#[derive(Clone, Debug, PartialEq)]
pub struct RenameTo {
    name: String,
}

impl View for RenameTo {
    type V = Seq<char>;

    closed spec fn view(&self) -> Seq<char> {
        self.name@
    }
}

impl RenameTo {
    /// The new name `name`.
    pub fn new(name: &str) -> (rename_to: Self)
        ensures
            rename_to@ == name@,
    {
        RenameTo { name: String::from_str(name) }
    }

    /// Returns the new name.
    pub fn name(&self) -> (name: &str)
        ensures
            name@ == self@,
    {
        self.name.as_str()
    }
}

/// The properties of a collection that can be changed after its creation.
/// A property that is not given stays as it is.
#[derive(Clone, Copy, Debug, PartialEq, Eq, Structural)]
pub struct CollectionPropertiesUpdate {
    /// Whether writes wait for the sync to disk.
    pub wait_for_sync: Option<bool>,
    /// The largest size of a journal, in bytes.
    pub journal_size: Option<u64>,
}

impl CollectionPropertiesUpdate {
    /// An update that changes nothing.
    pub fn new() -> (updates: Self)
        ensures
            updates == (CollectionPropertiesUpdate { wait_for_sync: None, journal_size: None }),
    {
        CollectionPropertiesUpdate { wait_for_sync: None, journal_size: None }
    }
}

} // verus!
