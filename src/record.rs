use vstd::prelude::*;

use crate::ident::{hex_text, TaskId};

verus! {

/// A failed round trip to the document store. Its detail is never shown to
/// a client.
#[derive(Clone, Copy, PartialEq, Eq, Debug)]
pub struct StoreError;

/// What the listing reads from one stored document: its `_id` when that is a
/// native identifier, and its `title` when that is a string.
#[derive(Clone, Debug, PartialEq, Eq)]
pub struct StoredDoc {
    pub id: Option<TaskId>,
    pub title: Option<String>,
}

/// A stored document as the specifications see it.
pub ghost struct DocModel {
    pub id: Option<Seq<u8>>,
    pub title: Option<Seq<char>>,
}

impl View for StoredDoc {
    type V = DocModel;

    open spec fn view(&self) -> DocModel {
        DocModel {
            id: match self.id {
                Some(i) => Some(i@),
                None => None,
            },
            title: match self.title {
                Some(t) => Some(t@),
                None => None,
            },
        }
    }
}

/// One task of a listing: its identifier and its title.
#[derive(Clone, Debug, PartialEq, Eq)]
pub struct TaskEntry {
    pub id: TaskId,
    pub title: String,
}

impl View for TaskEntry {
    type V = (Seq<u8>, Seq<char>);

    open spec fn view(&self) -> (Seq<u8>, Seq<char>) {
        (self.id@, self.title@)
    }
}

/// The entries that one document contributes to a listing: one when it has
/// both an identifier and a title, none otherwise.
pub open spec fn entries_of(d: DocModel) -> Seq<(Seq<u8>, Seq<char>)> {
    match (d.id, d.title) {
        (Some(i), Some(t)) => seq![(i, t)],
        _ => Seq::empty(),
    }
}

/// The listing of a collection: the conforming documents, in store order.
pub open spec fn listed(c: Seq<DocModel>) -> Seq<(Seq<u8>, Seq<char>)>
    decreases c.len(),
{
    if c.len() == 0 {
        Seq::empty()
    } else {
        listed(c.drop_last()) + entries_of(c.last())
    }
}

pub open spec fn entries_view(es: Seq<TaskEntry>) -> Seq<(Seq<u8>, Seq<char>)> {
    es.map_values(|e: TaskEntry| e@)
}

/// Decodes one stored document into a task, or `None` when it lacks a field.
pub fn decode_task(doc: &StoredDoc) -> (r: Option<TaskEntry>)
    ensures
        r is Some <==> entries_of(doc@).len() == 1,
        r matches Some(e) ==> entries_of(doc@) == seq![e@],
{
    match (&doc.id, &doc.title) {
        (Some(id), Some(title)) => Some(TaskEntry { id: *id, title: title.clone() }),
        _ => None,
    }
}

/// The tasks gathered so far from the documents a find-all hands out, one
/// document at a time.
pub struct TaskListing {
    pub entries: Vec<TaskEntry>,
}

impl View for TaskListing {
    type V = Seq<(Seq<u8>, Seq<char>)>;

    open spec fn view(&self) -> Seq<(Seq<u8>, Seq<char>)> {
        entries_view(self.entries@)
    }
}

impl TaskListing {
    pub fn new() -> (r: TaskListing)
        ensures
            r@ == Seq::<(Seq<u8>, Seq<char>)>::empty(),
    {
        TaskListing { entries: Vec::new() }
    }

    /// Takes one stored document; one missing a field is skipped.
    pub fn accept_doc(&mut self, doc: &StoredDoc)
        ensures
            final(self)@ == old(self)@ + entries_of(doc@),
    {
        match decode_task(doc) {
            Some(e) => {
                self.entries.push(e);
                assert(self@ =~= old(self)@ + entries_of(doc@));
            },
            None => {
                assert(self@ =~= old(self)@ + entries_of(doc@));
            },
        }
    }

    /// Takes the next item of the store's cursor. A document missing a field,
    /// and an item the store failed to read, are skipped.
    pub fn accept(&mut self, item: Result<StoredDoc, StoreError>)
        ensures
            final(self)@ == old(self)@ + match item {
                Ok(d) => entries_of(d@),
                Err(_) => Seq::empty(),
            },
    {
        match item {
            Ok(doc) => self.accept_doc(&doc),
            Err(_) => {
                assert(self@ =~= old(self)@ + Seq::empty());
            },
        }
    }

    /// The listing of every document of `docs`, in order.
    pub fn from_docs(docs: Vec<StoredDoc>) -> (r: TaskListing)
        ensures
            r@ == listed(docs@.map_values(|d: StoredDoc| d@)),
    {
        let ghost models = docs@.map_values(|d: StoredDoc| d@);
        let mut listing = TaskListing::new();
        let mut i: usize = 0;
        while i < docs.len()
            invariant
                i <= docs@.len(),
                models == docs@.map_values(|d: StoredDoc| d@),
                listing@ == listed(models.subrange(0, i as int)),
            decreases docs@.len() - i,
        {
            listing.accept_doc(&docs[i]);
            assert(models.subrange(0, i as int + 1).drop_last() =~= models.subrange(0, i as int));
            i = i + 1;
        }
        assert(models.subrange(0, i as int) =~= models);
        listing
    }
}

} // verus!
