use vstd::prelude::*;

use crate::handler::CommandModel;
use crate::record::{listed, DocModel};
use crate::response::OutcomeModel;

verus! {

// The task collection as this layer relies on it: a sequence of documents
// in store order, whose identifiers are unique, and the effect and reply of
// each successful command on it.

/// No two documents share an identifier.
pub open spec fn ids_unique(c: Seq<DocModel>) -> bool {
    forall|i: int, j: int|
        0 <= i < c.len() && 0 <= j < c.len() && i != j && (#[trigger] c[i]).id is Some
            ==> c[i].id != (#[trigger] c[j]).id
}

/// Some document has this identifier.
pub open spec fn holds_id(c: Seq<DocModel>, id: Seq<u8>) -> bool {
    exists|i: int| 0 <= i < c.len() && (#[trigger] c[i]).id == Some(id)
}

/// The collection after setting the title of the document with `id`.
pub open spec fn with_title(c: Seq<DocModel>, id: Seq<u8>, t: Seq<char>) -> Seq<DocModel> {
    Seq::new(
        c.len(),
        |i: int|
            if c[i].id == Some(id) {
                DocModel { id: c[i].id, title: Some(t) }
            } else {
                c[i]
            },
    )
}

/// The collection after removing the document with `id`.
pub open spec fn without_id(c: Seq<DocModel>, id: Seq<u8>) -> Seq<DocModel>
    decreases c.len(),
{
    if c.len() == 0 {
        c
    } else if c.last().id == Some(id) {
        without_id(c.drop_last(), id)
    } else {
        without_id(c.drop_last(), id).push(c.last())
    }
}

/// The collection after a successful command; `fresh` is the identifier the
/// store assigns to an inserted document.
pub open spec fn after(c: Seq<DocModel>, cmd: CommandModel, fresh: Seq<u8>) -> Seq<DocModel> {
    match cmd {
        CommandModel::FindAll => c,
        CommandModel::InsertOne(t) => c.push(DocModel { id: Some(fresh), title: Some(t) }),
        CommandModel::UpdateTitle(id, t) => with_title(c, id, t),
        CommandModel::DeleteOne(id) => without_id(c, id),
    }
}

/// The outcome the adapter reports for a successful command.
pub open spec fn reply(c: Seq<DocModel>, cmd: CommandModel) -> OutcomeModel {
    match cmd {
        CommandModel::FindAll => OutcomeModel::Success(listed(c)),
        CommandModel::InsertOne(_) => OutcomeModel::SuccessEmpty,
        CommandModel::UpdateTitle(id, _) => if holds_id(c, id) {
            OutcomeModel::SuccessEmpty
        } else {
            OutcomeModel::NotFound
        },
        CommandModel::DeleteOne(id) => if holds_id(c, id) {
            OutcomeModel::SuccessEmpty
        } else {
            OutcomeModel::NotFound
        },
    }
}

/// A task is listed exactly when some document has its identifier and title.
pub proof fn lemma_listed_contains(c: Seq<DocModel>, e: (Seq<u8>, Seq<char>))
    ensures
        listed(c).contains(e) <==> exists|i: int|
            0 <= i < c.len() && (#[trigger] c[i]).id == Some(e.0) && c[i].title == Some(e.1),
    decreases c.len(),
{
    if c.len() > 0 {
        let p = c.drop_last();
        lemma_listed_contains(p, e);
        let tail = crate::record::entries_of(c.last());
        assert(listed(c) == listed(p) + tail);
        if listed(c).contains(e) {
            let k = choose|k: int| 0 <= k < listed(c).len() && listed(c)[k] == e;
            if k < listed(p).len() {
                assert(listed(p)[k] == e);
                let i = choose|i: int| 0 <= i < p.len() && (#[trigger] p[i]).id == Some(e.0) && p[i].title == Some(e.1);
                assert(c[i] == p[i]);
            } else {
                assert(tail[k - listed(p).len()] == e);
                assert(c[c.len() - 1] == c.last());
            }
        }
        if exists|i: int| 0 <= i < c.len() && (#[trigger] c[i]).id == Some(e.0) && c[i].title == Some(e.1) {
            let i = choose|i: int| 0 <= i < c.len() && (#[trigger] c[i]).id == Some(e.0) && c[i].title == Some(e.1);
            if i < c.len() - 1 {
                assert(p[i] == c[i]);
                let k = choose|k: int| 0 <= k < listed(p).len() && listed(p)[k] == e;
                assert(listed(c)[k] == e);
            } else {
                assert(tail[0] == e);
                assert(listed(c)[listed(p).len() as int] == e);
            }
        }
    }
}

/// A document survives the removal of `id` exactly when it was there and has
/// another identifier.
pub proof fn lemma_without_id_contains(c: Seq<DocModel>, id: Seq<u8>, d: DocModel)
    ensures
        without_id(c, id).contains(d) <==> (c.contains(d) && d.id != Some(id)),
    decreases c.len(),
{
    if c.len() > 0 {
        let p = c.drop_last();
        lemma_without_id_contains(p, id, d);
        assert(c == p.push(c.last()));
        if c.contains(d) {
            let i = choose|i: int| 0 <= i < c.len() && c[i] == d;
            if i < p.len() {
                assert(p[i] == d);
            }
        }
        if p.contains(d) {
            let i = choose|i: int| 0 <= i < p.len() && p[i] == d;
            assert(c[i] == d);
        }
        if c.last().id != Some(id) {
            let w = without_id(p, id);
            assert(without_id(c, id) == w.push(c.last()));
            if w.push(c.last()).contains(d) {
                let i = choose|i: int| 0 <= i < w.len() + 1 && w.push(c.last())[i] == d;
                if i < w.len() {
                    assert(w[i] == d);
                }
            }
            if w.contains(d) {
                let i = choose|i: int| 0 <= i < w.len() && w[i] == d;
                assert(w.push(c.last())[i] == d);
            }
            assert(w.push(c.last())[w.len() as int] == c.last());
        }
    }
}

/// Removing an identifier that no document has leaves the collection as it is.
pub proof fn lemma_without_absent_id(c: Seq<DocModel>, id: Seq<u8>)
    requires
        !holds_id(c, id),
    ensures
        without_id(c, id) == c,
    decreases c.len(),
{
    if c.len() > 0 {
        let p = c.drop_last();
        assert forall|i: int| 0 <= i < p.len() implies p[i].id != Some(id) by {
            assert(c[i] == p[i]);
        }
        lemma_without_absent_id(p, id);
        assert(c[c.len() - 1] == c.last());
        assert(p.push(c.last()) =~= c);
    }
}

/// Removing the documents with `id` keeps the others' identifiers unique.
pub proof fn lemma_without_id_keeps_unique(c: Seq<DocModel>, id: Seq<u8>)
    requires
        ids_unique(c),
    ensures
        ids_unique(without_id(c, id)),
    decreases c.len(),
{
    if c.len() > 0 {
        let p = c.drop_last();
        assert forall|i: int, j: int|
            0 <= i < p.len() && 0 <= j < p.len() && i != j && (#[trigger] p[i]).id is Some
                implies p[i].id != (#[trigger] p[j]).id by {
            assert(p[i] == c[i] && p[j] == c[j]);
        }
        lemma_without_id_keeps_unique(p, id);
        if c.last().id != Some(id) {
            let w = without_id(p, id);
            let c2 = w.push(c.last());
            assert forall|i: int, j: int|
                0 <= i < c2.len() && 0 <= j < c2.len() && i != j && (#[trigger] c2[i]).id is Some
                    implies c2[i].id != (#[trigger] c2[j]).id by {
                if i < w.len() && j < w.len() {
                    assert(c2[i] == w[i] && c2[j] == w[j]);
                } else {
                    let k = if i < w.len() { i } else { j };
                    assert(c2[k] == w[k]);
                    assert(w.contains(w[k]));
                    lemma_without_id_contains(p, id, w[k]);
                    let m = choose|m: int| 0 <= m < p.len() && p[m] == w[k];
                    assert(c[m] == p[m]);
                    assert(c[c.len() - 1] == c.last());
                }
            }
        }
    }
}

} // verus!
