//! The document app: titled documents that room members edit together.

use vstd::prelude::*;
use crate::room::keyed_log::KeyedLog;
use crate::room::types::MemberInfo;

verus! {

/// Identifies one document.
#[derive(Debug, Hash)]
pub struct DocumentId(String);

impl View for DocumentId {
    type V = Seq<char>;

    closed spec fn view(&self) -> Seq<char> {
        self.0@
    }
}

impl DocumentId {
    pub fn new(value: &str) -> (r: Self)
        ensures
            r@ == value@,
    {
        DocumentId(value.to_owned())
    }

    pub fn as_str(&self) -> (r: &str)
        ensures
            r@ == self@,
    {
        self.0.as_str()
    }

    /// The text of the value.
    pub fn to_string(&self) -> (r: String)
        ensures
            r@ == self@,
    {
        self.0.clone()
    }
}

impl Clone for DocumentId {
    fn clone(&self) -> (r: Self)
        ensures
            r == *self,
    {
        DocumentId(self.0.clone())
    }
}

impl PartialEq for DocumentId {
    fn eq(&self, other: &Self) -> (r: bool) {
        self.0 == other.0
    }
}

impl vstd::std_specs::cmp::PartialEqSpecImpl for DocumentId {
    open spec fn obeys_eq_spec() -> bool {
        true
    }

    open spec fn eq_spec(&self, other: &Self) -> bool {
        self@ == other@
    }
}

impl Eq for DocumentId {}

impl From<String> for DocumentId {
    fn from(value: String) -> (r: Self)
        ensures
            r@ == value@,
    {
        DocumentId(value)
    }
}

impl vstd::std_specs::convert::FromSpecImpl<String> for DocumentId {
    open spec fn obeys_from_spec() -> bool {
        true
    }

    closed spec fn from_spec(v: String) -> Self {
        DocumentId(v)
    }
}

impl DocumentId {
    /// Wraps the text as it is; reading a document id never fails.
    pub fn parse(s: &str) -> (r: Result<Self, ()>)
        ensures
            r matches Ok(id) && id@ == s@,
    {
        Ok(DocumentId::new(s))
    }
}

/// A change requested of the document app.
#[derive(Debug)]
pub enum DocumentMutation {
    Create(DocumentId),
    SetTitle(DocumentId, String),
    SetContent(DocumentId, String),
    Delete(DocumentId),
}

/// The channels the document app publishes on.
#[derive(Debug, Clone, Copy, PartialEq, Eq, Structural)]
pub enum DocumentAppChannel {
    Public,
}

/// Why a document mutation failed.
#[derive(Debug, Clone, Copy, PartialEq, Eq, Structural)]
pub enum DocumentError {
    DocumentNotFound,
}

impl DocumentError {
    pub open spec fn message(self) -> Seq<char> {
        "Document not found"@
    }

    pub fn to_string(&self) -> (r: String)
        ensures
            r@ == self.message(),
    {
        "Document not found".to_owned()
    }
}

/// One document.
#[derive(Debug, PartialEq, Eq)]
pub struct DocumentState {
    pub id: DocumentId,
    pub title: String,
    pub content: String,
}

impl Clone for DocumentState {
    fn clone(&self) -> (r: Self)
        ensures
            r == *self,
    {
        DocumentState { id: self.id.clone(), title: self.title.clone(), content: self.content.clone() }
    }
}

impl DocumentState {
    /// Whether `doc` is a fresh document: the given id, empty title and content.
    pub open spec fn is_fresh(doc: DocumentState, id: Seq<char>) -> bool {
        doc.id@ == id && doc.title@ == Seq::<char>::empty() && doc.content@ == Seq::<char>::empty()
    }

    /// A document with the id and empty title and content.
    pub fn new(id: DocumentId) -> (r: Self)
        ensures
            DocumentState::is_fresh(r, id@),
    {
        DocumentState { id, title: String::new(), content: String::new() }
    }
}

/// What a mutation does to the documents (keyed by id text), or why it fails.
pub open spec fn document_mutation_allowed(docs: Map<Seq<char>, DocumentState>, mutation: DocumentMutation) -> bool {
    match mutation {
        DocumentMutation::SetTitle(id, _) => docs.contains_key(id@),
        DocumentMutation::SetContent(id, _) => docs.contains_key(id@),
        _ => true,
    }
}

/// The documents after a mutation that is allowed.
pub open spec fn documents_after(
    before: Map<Seq<char>, DocumentState>,
    mutation: DocumentMutation,
    after: Map<Seq<char>, DocumentState>,
) -> bool {
    match mutation {
        DocumentMutation::Create(id) => after.dom() == before.dom().insert(id@) && (forall|k: Seq<char>|
            #[trigger] after.contains_key(k) && k != id@ ==> after[k] == before[k])
            && DocumentState::is_fresh(after[id@], id@),
        DocumentMutation::SetTitle(id, title) => after == before.insert(
            id@,
            DocumentState { title, ..before[id@] },
        ),
        DocumentMutation::SetContent(id, content) => after == before.insert(
            id@,
            DocumentState { content, ..before[id@] },
        ),
        DocumentMutation::Delete(id) => after == before.remove(id@),
    }
}

/// The id of the document a mutation is for.
pub open spec fn mutation_target(mutation: DocumentMutation) -> Seq<char> {
    match mutation {
        DocumentMutation::Create(id) => id@,
        DocumentMutation::SetTitle(id, _) => id@,
        DocumentMutation::SetContent(id, _) => id@,
        DocumentMutation::Delete(id) => id@,
    }
}

/// A mutation that is allowed leaves every other document as it was, and a
/// read of its own document gives back what it wrote: a fresh document
/// after a create, the new title or content (and the rest unchanged) after
/// an edit, and no document after a delete.
pub proof fn lemma_mutation_reads_back(
    before: Map<Seq<char>, DocumentState>,
    mutation: DocumentMutation,
    after: Map<Seq<char>, DocumentState>,
)
    requires
        document_mutation_allowed(before, mutation),
        documents_after(before, mutation, after),
    ensures
        forall|k: Seq<char>|
            k != mutation_target(mutation) ==> (#[trigger] after.contains_key(k) <==> before.contains_key(k))
                && (before.contains_key(k) ==> after[k] == before[k]),
        match mutation {
            DocumentMutation::Create(id) => after.contains_key(id@) && DocumentState::is_fresh(after[id@], id@),
            DocumentMutation::SetTitle(id, title) => after.contains_key(id@) && after[id@].title == title
                && after[id@].content == before[id@].content && after[id@].id == before[id@].id,
            DocumentMutation::SetContent(id, content) => after.contains_key(id@) && after[id@].content
                == content && after[id@].title == before[id@].title && after[id@].id == before[id@].id,
            DocumentMutation::Delete(id) => !after.contains_key(id@),
        },
{
    match mutation {
        DocumentMutation::Create(id) => {
            assert forall|k: Seq<char>| k != id@ implies (#[trigger] after.contains_key(k) <==> before.contains_key(k))
                && (before.contains_key(k) ==> after[k] == before[k]) by {
                assert(after.dom().contains(k) == before.dom().insert(id@).contains(k));
            }
            assert(after.dom().contains(id@));
        },
        _ => {},
    }
}

/// The document app.
#[derive(Debug)]
pub struct DocumentApp {
    docs: KeyedLog<DocumentState>,
}

impl View for DocumentApp {
    /// The documents by id.
    type V = Map<Seq<char>, DocumentState>;

    closed spec fn view(&self) -> Map<Seq<char>, DocumentState> {
        self.docs@
    }
}

impl DocumentApp {
    pub fn new() -> (r: Self)
        ensures
            r@ == Map::<Seq<char>, DocumentState>::empty(),
    {
        DocumentApp { docs: KeyedLog::new() }
    }

    /// Every member may follow the documents.
    pub fn subscribe(&self, member: &MemberInfo, channel: DocumentAppChannel) -> (r: bool)
        ensures
            r,
    {
        true
    }

    /// The document with the given id, if any.
    pub fn document(&self, id: &DocumentId) -> (r: Option<&DocumentState>)
        ensures
            match r {
                Some(doc) => self@.contains_key(id@) && *doc == self@[id@],
                None => !self@.contains_key(id@),
            },
    {
        self.docs.get(id.as_str())
    }

    /// Creates, edits or deletes a document. Editing a document that does
    /// not exist fails with `DocumentNotFound` and changes nothing.
    pub fn mutation(&mut self, mutation: DocumentMutation) -> (r: Result<(), DocumentError>)
        ensures
            document_mutation_allowed(old(self)@, mutation) ==> r is Ok && documents_after(
                old(self)@,
                mutation,
                final(self)@,
            ),
            !document_mutation_allowed(old(self)@, mutation) ==> r == Err::<(), DocumentError>(
                DocumentError::DocumentNotFound,
            ) && final(self)@ == old(self)@,
    {
        match mutation {
            DocumentMutation::Create(id) => {
                let key = id.to_string();
                self.docs.insert(key.as_str(), DocumentState::new(id));
                Ok(())
            },
            DocumentMutation::SetTitle(id, title) => {
                match self.docs.get(id.as_str()) {
                    Some(doc) => {
                        let updated = DocumentState { title, ..doc.clone() };
                        self.docs.insert(id.as_str(), updated);
                        Ok(())
                    },
                    None => Err(DocumentError::DocumentNotFound),
                }
            },
            DocumentMutation::SetContent(id, content) => {
                match self.docs.get(id.as_str()) {
                    Some(doc) => {
                        let updated = DocumentState { content, ..doc.clone() };
                        self.docs.insert(id.as_str(), updated);
                        Ok(())
                    },
                    None => Err(DocumentError::DocumentNotFound),
                }
            },
            DocumentMutation::Delete(id) => {
                self.docs.remove(id.as_str());
                Ok(())
            },
        }
    }
}

} // verus!
