//! The identity of a document, its revision, and the values that carry a
//! document to the server and back.

use crate::protocol::PATH_SEPARATOR;
use vstd::prelude::*;
use vstd::std_specs::cmp::PartialEqSpecImpl;
use vstd::string::{StrSliceExecFns, StringExecFns};

verus! {

/// The character that separates the two parts of a document id.
pub open spec fn separator() -> char {
    '/'
}

/// Whether `part` can be one part of a document id: it is not empty and
/// holds no separator.
pub open spec fn is_name_part(part: Seq<char>) -> bool {
    &&& part.len() > 0
    &&& forall|i: int| 0 <= i < part.len() ==> part[i] != separator()
}

/// The canonical form of the id of the document `key` in `collection`.
pub open spec fn spec_render(collection: Seq<char>, key: Seq<char>) -> Seq<char> {
    collection + seq![separator()] + key
}

/// A document id as a mathematical value.
pub struct DocumentIdView {
    /// The name of the collection that holds the document.
    pub collection_name: Seq<char>,
    /// The key of the document within that collection.
    pub document_key: Seq<char>,
}

/// Whether `text` is the canonical form of an id whose collection name ends
/// before position `at`.
pub open spec fn splits_at(text: Seq<char>, at: int) -> bool {
    &&& 0 <= at < text.len()
    &&& text[at] == separator()
    &&& is_name_part(text.take(at))
    &&& is_name_part(text.skip(at + 1))
}

/// The id that `text` is the canonical form of, if it is one: `text` holds
/// exactly one separator, with something before it and something behind it.
pub open spec fn spec_parse(text: Seq<char>) -> Option<DocumentIdView> {
    if exists|at: int| splits_at(text, at) {
        let at = choose|at: int| splits_at(text, at);
        Some(DocumentIdView { collection_name: text.take(at), document_key: text.skip(at + 1) })
    } else {
        None
    }
}

/// A text that was given as an identifier and is none.
#[derive(Clone, Debug, PartialEq, Eq)]
pub struct MalformedIdentifier {
    /// The text as it was given.
    pub value: String,
}

/// The key of a document: it tells the document from the others of its
/// collection.
#[derive(Clone, Debug, Eq, Hash)]
pub struct DocumentKey(String);

impl View for DocumentKey {
    type V = Seq<char>;

    closed spec fn view(&self) -> Seq<char> {
        self.0@
    }
}

impl PartialEq for DocumentKey {
    fn eq(&self, other: &Self) -> (equal: bool) {
        self.0 == other.0
    }
}

impl PartialEqSpecImpl for DocumentKey {
    open spec fn obeys_eq_spec() -> bool {
        true
    }

    open spec fn eq_spec(&self, other: &Self) -> bool {
        self@ == other@
    }
}

impl DocumentKey {
    /// The key `value`, taken as it is.
    pub fn new(value: &str) -> (key: Self)
        ensures
            key@ == value@,
    {
        DocumentKey(String::from_str(value))
    }

    /// The key `value`, if it can be the key part of a document id.
    pub fn from_string(value: String) -> (result: Result<Self, MalformedIdentifier>)
        ensures
            is_name_part(value@) ==> result is Ok && result.unwrap()@ == value@,
            !is_name_part(value@) ==> result is Err && result.unwrap_err().value@ == value@,
    {
        if holds_name_part(value.as_str()) {
            Ok(DocumentKey(value))
        } else {
            Err(MalformedIdentifier { value })
        }
    }

    /// Returns the key as a text.
    pub fn as_str(&self) -> (text: &str)
        ensures
            text@ == self@,
    {
        self.0.as_str()
    }

    /// Returns the text of the key, and gives the key up.
    pub fn unwrap(self) -> (text: String)
        ensures
            text@ == self@,
    {
        self.0
    }
}

/// The version tag that the server gives a document on every write. Two
/// revisions are equal where their texts are equal; nothing else is known
/// of them.
#[derive(Clone, Debug, Eq, Hash)]
pub struct Revision(String);

impl View for Revision {
    type V = Seq<char>;

    closed spec fn view(&self) -> Seq<char> {
        self.0@
    }
}

impl PartialEq for Revision {
    fn eq(&self, other: &Self) -> (equal: bool) {
        self.0 == other.0
    }
}

impl PartialEqSpecImpl for Revision {
    open spec fn obeys_eq_spec() -> bool {
        true
    }

    open spec fn eq_spec(&self, other: &Self) -> bool {
        self@ == other@
    }
}

impl Revision {
    /// The revision `value`.
    pub fn new(value: &str) -> (revision: Self)
        ensures
            revision@ == value@,
    {
        Revision(String::from_str(value))
    }

    /// Returns the revision as a text.
    pub fn as_str(&self) -> (text: &str)
        ensures
            text@ == self@,
    {
        self.0.as_str()
    }

    /// Says whether `text` is the text of the revision.
    pub fn has_text(&self, text: &String) -> (equal: bool)
        ensures
            equal == (self@ == text@),
    {
        self.0 == *text
    }

    /// Returns the text of the revision, and gives the revision up.
    pub fn unwrap(self) -> (text: String)
        ensures
            text@ == self@,
    {
        self.0
    }
}

/// Says whether `text` can be one part of a document id.
pub fn holds_name_part(text: &str) -> (holds: bool)
    ensures
        holds == is_name_part(text@),
{
    let length: usize = text.unicode_len();
    if length == 0 {
        return false;
    }
    let mut at: usize = 0;
    while at < length
        invariant
            length == text@.len(),
            at <= length,
            forall|i: int| 0 <= i < at ==> text@[i] != separator(),
        decreases length - at,
    {
        if text.get_char(at) == '/' {
            return false;
        }
        at = at + 1;
    }
    true
}

/// Where a text splits into the two parts of an id, it splits at its first
/// separator.
pub proof fn lemma_splits_at_first_separator(text: Seq<char>, at: int, first: int)
    requires
        splits_at(text, at),
        0 <= first < text.len(),
        text[first] == separator(),
        forall|i: int| 0 <= i < first ==> text[i] != separator(),
    ensures
        at == first,
{
    if first < at {
        assert(text.take(at)[first] == text[first]);
    }
}

/// A text splits into the two parts of an id at one place at most.
pub proof fn lemma_split_point_is_unique(text: Seq<char>, at: int, other: int)
    requires
        splits_at(text, at),
        splits_at(text, other),
    ensures
        at == other,
{
    if at < other {
        assert(text.take(other)[at] == text[at]);
    }
    if other < at {
        assert(text.take(at)[other] == text[other]);
    }
}

/// Round trip from the parts: the canonical form of an id, made from a
/// collection name and a key that are not empty and hold no separator, is
/// parsed back into that collection name and that key.
pub proof fn lemma_render_then_parse(collection: Seq<char>, key: Seq<char>)
    requires
        is_name_part(collection),
        is_name_part(key),
    ensures
        spec_parse(spec_render(collection, key)) == Some(
            DocumentIdView { collection_name: collection, document_key: key },
        ),
{
    let text = spec_render(collection, key);
    let at = collection.len() as int;
    assert(text.take(at) =~= collection);
    assert(text.skip(at + 1) =~= key);
    assert(splits_at(text, at));
    let chosen = choose|at: int| splits_at(text, at);
    lemma_split_point_is_unique(text, at, chosen);
}

/// Round trip from the text: a text that is parsed into an id is the
/// canonical form of that id, and both parts of the id are not empty and hold
/// no separator.
pub proof fn lemma_parse_then_render(text: Seq<char>)
    requires
        spec_parse(text) is Some,
    ensures
        spec_render(
            spec_parse(text).unwrap().collection_name,
            spec_parse(text).unwrap().document_key,
        ) == text,
        is_name_part(spec_parse(text).unwrap().collection_name),
        is_name_part(spec_parse(text).unwrap().document_key),
{
    let at = choose|at: int| splits_at(text, at);
    assert(spec_render(text.take(at), text.skip(at + 1)) =~= text);
}

/// The id of a document: the name of its collection and its key within that
/// collection.
#[derive(Clone, Debug, PartialEq, Eq, Hash)]
pub struct DocumentId {
    collection_name: String,
    document_key: String,
}

impl View for DocumentId {
    type V = DocumentIdView;

    closed spec fn view(&self) -> DocumentIdView {
        DocumentIdView {
            collection_name: self.collection_name@,
            document_key: self.document_key@,
        }
    }
}

impl DocumentId {
    /// Whether both parts of the id are not empty and hold no separator. Only
    /// such an id is found again in its canonical form.
    pub open spec fn is_canonical(&self) -> bool {
        &&& is_name_part(self@.collection_name)
        &&& is_name_part(self@.document_key)
    }

    /// The id of the document `document_key` in the collection
    /// `collection_name`. Both are taken as they are.
    pub fn new(collection_name: &str, document_key: &str) -> (id: Self)
        ensures
            id@ == (DocumentIdView {
                collection_name: collection_name@,
                document_key: document_key@,
            }),
    {
        DocumentId {
            collection_name: String::from_str(collection_name),
            document_key: String::from_str(document_key),
        }
    }

    /// Parses the canonical form of an id: a collection name, one separator,
    /// and a key. A text without a separator, with more than one, or with
    /// nothing before or behind it is refused.
    pub fn from_str(value: &str) -> (result: Result<Self, MalformedIdentifier>)
        ensures
            match spec_parse(value@) {
                Some(id) => result is Ok && result.unwrap()@ == id,
                None => result is Err && result.unwrap_err().value@ == value@,
            },
            result is Ok ==> result.unwrap().is_canonical(),
    {
        let length: usize = value.unicode_len();
        let mut at: usize = 0;
        while at < length && value.get_char(at) != '/'
            invariant
                length == value@.len(),
                at <= length,
                forall|i: int| 0 <= i < at ==> value@[i] != separator(),
            decreases length - at,
        {
            at = at + 1;
        }
        if at < length {
            let collection_name = value.substring_char(0, at);
            let document_key = value.substring_char(at + 1, length);
            assert(collection_name@ =~= value@.take(at as int));
            assert(document_key@ =~= value@.skip(at + 1));
            if at > 0 && holds_name_part(document_key) {
                proof {
                    assert(splits_at(value@, at as int));
                    let chosen = choose|other: int| splits_at(value@, other);
                    lemma_split_point_is_unique(value@, at as int, chosen);
                }
                return Ok(
                    DocumentId {
                        collection_name: String::from_str(collection_name),
                        document_key: String::from_str(document_key),
                    },
                );
            }
            proof {
                if exists|other: int| splits_at(value@, other) {
                    let other = choose|other: int| splits_at(value@, other);
                    lemma_splits_at_first_separator(value@, other, at as int);
                }
            }
        } else {
            proof {
                if exists|other: int| splits_at(value@, other) {
                    let other = choose|other: int| splits_at(value@, other);
                    assert(value@[other] == separator());
                }
            }
        }
        Err(MalformedIdentifier { value: String::from_str(value) })
    }

    /// Returns the name of the collection that holds the document.
    pub fn collection_name(&self) -> (name: &str)
        ensures
            name@ == self@.collection_name,
    {
        self.collection_name.as_str()
    }

    /// Returns the key of the document.
    pub fn document_key(&self) -> (key: &str)
        ensures
            key@ == self@.document_key,
    {
        self.document_key.as_str()
    }

    /// Returns the collection name and the key, and gives the id up.
    pub fn unwrap(self) -> (parts: (String, String))
        ensures
            parts.0@ == self@.collection_name,
            parts.1@ == self@.document_key,
    {
        (self.collection_name, self.document_key)
    }

    /// Renders the id in its canonical form: the collection name, a
    /// separator, and the key.
    pub fn to_string(&self) -> (text: String)
        ensures
            text@ == spec_render(self@.collection_name, self@.document_key),
            self.is_canonical() ==> spec_parse(text@) == Some(self@),
    {
        proof {
            reveal_strlit("/");
            assert(PATH_SEPARATOR@ =~= seq![separator()]);
            if self.is_canonical() {
                lemma_render_then_parse(self@.collection_name, self@.document_key);
            }
        }
        String::from_str(self.collection_name.as_str()).concat(PATH_SEPARATOR).concat(
            self.document_key.as_str(),
        )
    }
}

/// What identifies one state of a document, as a mathematical value.
pub struct DocumentHeaderView {
    /// The id of the document.
    pub id: DocumentIdView,
    /// The key of the document.
    pub key: Seq<char>,
    /// The revision of the document.
    pub revision: Seq<char>,
}

/// The id, the key and the revision of a document, without its content. It
/// is what a write returns that does not ask for the content.
#[derive(Clone, Debug, PartialEq, Eq, Hash)]
pub struct DocumentHeader {
    id: DocumentId,
    key: DocumentKey,
    revision: Revision,
}

impl View for DocumentHeader {
    type V = DocumentHeaderView;

    closed spec fn view(&self) -> DocumentHeaderView {
        DocumentHeaderView { id: self.id@, key: self.key@, revision: self.revision@ }
    }
}

impl DocumentHeader {
    /// The header of the document `id` with the key `key` in the revision
    /// `revision`.
    pub fn new(id: DocumentId, key: DocumentKey, revision: Revision) -> (header: Self)
        ensures
            header@ == (DocumentHeaderView { id: id@, key: key@, revision: revision@ }),
    {
        DocumentHeader { id, key, revision }
    }

    /// Returns the id of the document.
    pub fn id(&self) -> (id: &DocumentId)
        ensures
            id@ == self@.id,
    {
        &self.id
    }

    /// Returns the key of the document.
    pub fn key(&self) -> (key: &DocumentKey)
        ensures
            key@ == self@.key,
    {
        &self.key
    }

    /// Returns the revision of the document.
    pub fn revision(&self) -> (revision: &Revision)
        ensures
            revision@ == self@.revision,
    {
        &self.revision
    }

    /// Returns the id, the key and the revision, and gives the header up.
    pub fn deconstruct(self) -> (parts: (DocumentId, DocumentKey, Revision))
        ensures
            parts.0@ == self@.id,
            parts.1@ == self@.key,
            parts.2@ == self@.revision,
    {
        (self.id, self.key, self.revision)
    }
}

/// A document as the server holds it: what identifies it, and its content.
#[derive(Clone, Debug, PartialEq)]
pub struct Document<T> {
    header: DocumentHeader,
    content: T,
}

impl<T> Document<T> {
    /// What identifies the document.
    pub closed spec fn header(&self) -> DocumentHeaderView {
        self.header@
    }

    /// The content of the document.
    pub closed spec fn spec_content(&self) -> T {
        self.content
    }

    /// The document with the given header and content.
    pub fn new(header: DocumentHeader, content: T) -> (document: Self)
        ensures
            document.header() == header@,
            document.spec_content() == content,
    {
        Document { header, content }
    }

    /// Returns the id of the document.
    pub fn id(&self) -> (id: &DocumentId)
        ensures
            id@ == self.header().id,
    {
        self.header.id()
    }

    /// Returns the key of the document.
    pub fn key(&self) -> (key: &DocumentKey)
        ensures
            key@ == self.header().key,
    {
        self.header.key()
    }

    /// Returns the revision of the document.
    pub fn revision(&self) -> (revision: &Revision)
        ensures
            revision@ == self.header().revision,
    {
        self.header.revision()
    }

    /// Returns the content of the document.
    pub fn content(&self) -> (content: &T)
        ensures
            *content == self.spec_content(),
    {
        &self.content
    }

    /// Returns the content, and gives the document up.
    pub fn unwrap_content(self) -> (content: T)
        ensures
            content == self.spec_content(),
    {
        self.content
    }
}

/// What a replace or an update returns: the header of the document as it is
/// now, the revision that it had before, and the content before and after
/// the write where the request asked for them.
#[derive(Clone, Debug, PartialEq)]
pub struct UpdatedDocumentHeader<Old, New> {
    header: DocumentHeader,
    old_revision: Revision,
    old_content: Option<Old>,
    new_content: Option<New>,
}

impl<Old, New> UpdatedDocumentHeader<Old, New> {
    /// What identifies the document as it is now.
    pub closed spec fn header(&self) -> DocumentHeaderView {
        self.header@
    }

    /// The revision that the document had before the write.
    pub closed spec fn spec_old_revision(&self) -> Seq<char> {
        self.old_revision@
    }

    /// The content before the write, where it was asked for.
    pub closed spec fn spec_old_content(&self) -> Option<Old> {
        self.old_content
    }

    /// The content after the write, where it was asked for.
    pub closed spec fn spec_new_content(&self) -> Option<New> {
        self.new_content
    }

    /// The result of a write with the given parts.
    pub fn new(
        header: DocumentHeader,
        old_revision: Revision,
        old_content: Option<Old>,
        new_content: Option<New>,
    ) -> (updated: Self)
        ensures
            updated.header() == header@,
            updated.spec_old_revision() == old_revision@,
            updated.spec_old_content() == old_content,
            updated.spec_new_content() == new_content,
    {
        UpdatedDocumentHeader { header, old_revision, old_content, new_content }
    }

    /// Returns the id of the document.
    pub fn id(&self) -> (id: &DocumentId)
        ensures
            id@ == self.header().id,
    {
        self.header.id()
    }

    /// Returns the key of the document.
    pub fn key(&self) -> (key: &DocumentKey)
        ensures
            key@ == self.header().key,
    {
        self.header.key()
    }

    /// Returns the revision that the document has now.
    pub fn revision(&self) -> (revision: &Revision)
        ensures
            revision@ == self.header().revision,
    {
        self.header.revision()
    }

    /// Returns the revision that the document had before the write.
    pub fn old_revision(&self) -> (revision: &Revision)
        ensures
            revision@ == self.spec_old_revision(),
    {
        &self.old_revision
    }

    /// Returns the content before the write, where it was asked for.
    pub fn old_content(&self) -> (content: Option<&Old>)
        ensures
            content is Some == self.spec_old_content() is Some,
            content is Some ==> *content.unwrap() == self.spec_old_content().unwrap(),
    {
        self.old_content.as_ref()
    }

    /// Returns the content after the write, where it was asked for.
    pub fn new_content(&self) -> (content: Option<&New>)
        ensures
            content is Some == self.spec_new_content() is Some,
            content is Some ==> *content.unwrap() == self.spec_new_content().unwrap(),
    {
        self.new_content.as_ref()
    }
}

/// A document that is to be inserted: its content, and its key where the
/// caller assigns one. Without a key the server assigns one.
#[derive(Clone, Debug, PartialEq)]
pub struct NewDocument<T> {
    key: Option<DocumentKey>,
    content: T,
}

impl<T> NewDocument<T> {
    /// The key that the caller assigns, if any.
    pub closed spec fn spec_key(&self) -> Option<Seq<char>> {
        match self.key {
            Some(key) => Some(key@),
            None => None,
        }
    }

    /// The content of the new document.
    pub closed spec fn spec_content(&self) -> T {
        self.content
    }

    /// A new document with the given content and no key.
    pub fn from_content(content: T) -> (document: Self)
        ensures
            document.spec_key() is None,
            document.spec_content() == content,
    {
        NewDocument { key: None, content }
    }

    /// The same document with the key `key`.
    pub fn with_key(self, key: DocumentKey) -> (document: Self)
        ensures
            document.spec_key() == Some(key@),
            document.spec_content() == self.spec_content(),
    {
        NewDocument { key: Some(key), content: self.content }
    }

    /// Returns the key that the caller assigns, if any.
    pub fn key(&self) -> (key: Option<&DocumentKey>)
        ensures
            match key {
                Some(key) => self.spec_key() == Some(key@),
                None => self.spec_key() is None,
            },
    {
        self.key.as_ref()
    }

    /// Returns the content of the new document.
    pub fn content(&self) -> (content: &T)
        ensures
            *content == self.spec_content(),
    {
        &self.content
    }
}

/// A replacement of, or a change to, the content of a document: the key of
/// the document, the new content, and the revision that the document is
/// expected to have, where the caller names one.
#[derive(Clone, Debug, PartialEq)]
pub struct DocumentUpdate<Upd> {
    key: DocumentKey,
    revision: Option<Revision>,
    content: Upd,
}

impl<Upd> DocumentUpdate<Upd> {
    /// The key of the document that is written.
    pub closed spec fn spec_key(&self) -> Seq<char> {
        self.key@
    }

    /// The revision that the document is expected to have, if one is named.
    pub closed spec fn spec_revision(&self) -> Option<Seq<char>> {
        match self.revision {
            Some(revision) => Some(revision@),
            None => None,
        }
    }

    /// The content that is written.
    pub closed spec fn spec_content(&self) -> Upd {
        self.content
    }

    /// An update of the document `key` with the given content, and no
    /// expected revision.
    pub fn new(key: DocumentKey, content: Upd) -> (update: Self)
        ensures
            update.spec_key() == key@,
            update.spec_revision() is None,
            update.spec_content() == content,
    {
        DocumentUpdate { key, revision: None, content }
    }

    /// The same update with the expected revision `revision`.
    pub fn with_revision(self, revision: Revision) -> (update: Self)
        ensures
            update.spec_key() == self.spec_key(),
            update.spec_revision() == Some(revision@),
            update.spec_content() == self.spec_content(),
    {
        DocumentUpdate { key: self.key, revision: Some(revision), content: self.content }
    }

    /// Returns the key of the document that is written.
    pub fn key(&self) -> (key: &DocumentKey)
        ensures
            key@ == self.spec_key(),
    {
        &self.key
    }

    /// Returns the revision that the document is expected to have, if one is
    /// named.
    pub fn revision(&self) -> (revision: Option<&Revision>)
        ensures
            match revision {
                Some(revision) => self.spec_revision() == Some(revision@),
                None => self.spec_revision() is None,
            },
    {
        self.revision.as_ref()
    }

    /// Returns the content that is written.
    pub fn content(&self) -> (content: &Upd)
        ensures
            *content == self.spec_content(),
    {
        &self.content
    }
}

} // verus!
