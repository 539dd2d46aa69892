use vstd::prelude::*;

use crate::handler::{bad_id_model, delete_plan, update_plan, CommandModel};
use crate::ident::{decoded_bytes, hex_text, hex_value, is_hex_digit, is_well_formed_id, lower_hex_digit};
use crate::record::{listed, DocModel};
use crate::response::{response_for, Operation};
use crate::store::{
    after, holds_id, ids_unique, lemma_listed_contains, lemma_without_absent_id,
    lemma_without_id_contains, lemma_without_id_keeps_unique, reply, with_title, without_id,
};

verus! {

proof fn lemma_lower_hex_digit(v: int)
    requires
        0 <= v < 16,
    ensures
        is_hex_digit(lower_hex_digit(v)),
        hex_value(lower_hex_digit(v)) == v,
{
}

/// The text of a twelve-byte identifier is well-formed and reads back as the
/// same identifier.
pub proof fn law_hex_text_reads_back(b: Seq<u8>)
    requires
        b.len() == 12,
    ensures
        is_well_formed_id(hex_text(b)),
        decoded_bytes(hex_text(b)) == b,
{
    let s = hex_text(b);
    assert forall|i: int| 0 <= i < s.len() implies is_hex_digit(#[trigger] s[i]) by {
        if i % 2 == 0 {
            lemma_lower_hex_digit(b[i / 2] as int / 16);
        } else {
            lemma_lower_hex_digit(b[i / 2] as int % 16);
        }
    }
    assert forall|i: int| 0 <= i < 12 implies #[trigger] decoded_bytes(s)[i] == b[i] by {
        assert((2 * i) / 2 == i && (2 * i) % 2 == 0);
        assert((2 * i + 1) / 2 == i && (2 * i + 1) % 2 == 1);
        lemma_lower_hex_digit(b[i] as int / 16);
        lemma_lower_hex_digit(b[i] as int % 16);
        assert(b[i] as int / 16 * 16 + b[i] as int % 16 == b[i] as int);
    }
    assert(decoded_bytes(s) =~= b);
}

/// After a successful create with title `t`, answered with 201, the listing
/// holds a task with that title whose identifier is well-formed.
pub proof fn law_create_then_list(c: Seq<DocModel>, t: Seq<char>, fresh: Seq<u8>)
    requires
        fresh.len() == 12,
    ensures
        response_for(Operation::Create, reply(c, CommandModel::InsertOne(t))).status == 201,
        listed(after(c, CommandModel::InsertOne(t), fresh)).contains((fresh, t)),
        is_well_formed_id(hex_text(fresh)),
        decoded_bytes(hex_text(fresh)) == fresh,
{
    let c2 = after(c, CommandModel::InsertOne(t), fresh);
    lemma_listed_contains(c2, (fresh, t));
    assert(c2[c.len() as int].id == Some(fresh));
    law_hex_text_reads_back(fresh);
}

/// Listing does not change the collection, so two listings with no write
/// between them agree.
pub proof fn law_listing_reads_only(c: Seq<DocModel>, fresh: Seq<u8>)
    ensures
        after(c, CommandModel::FindAll, fresh) == c,
        reply(after(c, CommandModel::FindAll, fresh), CommandModel::FindAll) == reply(
            c,
            CommandModel::FindAll,
        ),
{
}

/// Updating an existing identifier with `t` is answered with 200; afterwards
/// the listing shows `t` for that identifier, and every task with another
/// identifier is listed exactly as before.
pub proof fn law_update_then_list(c: Seq<DocModel>, id: Seq<u8>, t: Seq<char>, fresh: Seq<u8>)
    requires
        holds_id(c, id),
    ensures
        response_for(Operation::Update, reply(c, CommandModel::UpdateTitle(id, t))).status == 200,
        listed(after(c, CommandModel::UpdateTitle(id, t), fresh)).contains((id, t)),
        forall|e: (Seq<u8>, Seq<char>)|
            e.0 != id ==> (#[trigger] listed(after(c, CommandModel::UpdateTitle(id, t), fresh)).contains(e)
                <==> listed(c).contains(e)),
{
    let c2 = with_title(c, id, t);
    let i = choose|i: int| 0 <= i < c.len() && (#[trigger] c[i]).id == Some(id);
    lemma_listed_contains(c2, (id, t));
    assert(c2[i].id == Some(id) && c2[i].title == Some(t));
    assert forall|e: (Seq<u8>, Seq<char>)| e.0 != id implies (#[trigger] listed(c2).contains(e)
        <==> listed(c).contains(e)) by {
        lemma_listed_contains(c2, e);
        lemma_listed_contains(c, e);
        if listed(c).contains(e) {
            let k = choose|k: int| 0 <= k < c.len() && (#[trigger] c[k]).id == Some(e.0) && c[k].title == Some(e.1);
            assert(c2[k] == c[k]);
        }
        if listed(c2).contains(e) {
            let k = choose|k: int| 0 <= k < c2.len() && (#[trigger] c2[k]).id == Some(e.0) && c2[k].title == Some(e.1);
            assert(c2[k] == c[k]);
        }
    }
}

/// Updating or deleting a well-formed identifier that no document has is
/// answered with 404 and leaves the collection, and so the listing, as it is.
pub proof fn law_absent_id(c: Seq<DocModel>, id: Seq<u8>, t: Seq<char>, fresh: Seq<u8>)
    requires
        !holds_id(c, id),
    ensures
        response_for(Operation::Update, reply(c, CommandModel::UpdateTitle(id, t))).status == 404,
        response_for(Operation::Delete, reply(c, CommandModel::DeleteOne(id))).status == 404,
        after(c, CommandModel::UpdateTitle(id, t), fresh) == c,
        after(c, CommandModel::DeleteOne(id), fresh) == c,
{
    assert(with_title(c, id, t) =~= c);
    lemma_without_absent_id(c, id);
}

/// An update or a delete with an identifier that is not well-formed is
/// answered with 400 and issues no store command, so nothing changes.
pub proof fn law_bad_id(s: Seq<char>, t: Seq<char>)
    requires
        !is_well_formed_id(s),
    ensures
        update_plan(s, t) == Err::<CommandModel, _>(bad_id_model()),
        delete_plan(s) == Err::<CommandModel, _>(bad_id_model()),
        bad_id_model().status == 400,
{
}

/// Deleting an existing identifier is answered with 200; afterwards no listed
/// task has that identifier, and deleting it again is answered with 404.
pub proof fn law_delete_final(c: Seq<DocModel>, id: Seq<u8>, fresh: Seq<u8>)
    requires
        holds_id(c, id),
    ensures
        response_for(Operation::Delete, reply(c, CommandModel::DeleteOne(id))).status == 200,
        forall|e: (Seq<u8>, Seq<char>)|
            e.0 == id ==> !(#[trigger] listed(after(c, CommandModel::DeleteOne(id), fresh)).contains(e)),
        response_for(
            Operation::Delete,
            reply(after(c, CommandModel::DeleteOne(id), fresh), CommandModel::DeleteOne(id)),
        ).status == 404,
{
    let c2 = without_id(c, id);
    assert forall|k: int| 0 <= k < c2.len() implies (#[trigger] c2[k]).id != Some(id) by {
        assert(c2.contains(c2[k]));
        lemma_without_id_contains(c, id, c2[k]);
    }
    assert forall|e: (Seq<u8>, Seq<char>)| e.0 == id implies !(#[trigger] listed(c2).contains(e)) by {
        lemma_listed_contains(c2, e);
    }
}

/// Every successful command keeps identifiers unique, provided the store
/// assigns an inserted document an identifier no document has; no command
/// changes the identifier of a document it keeps.
pub proof fn law_commands_keep_ids_unique(c: Seq<DocModel>, cmd: CommandModel, fresh: Seq<u8>)
    requires
        ids_unique(c),
        cmd is InsertOne ==> !holds_id(c, fresh),
    ensures
        ids_unique(after(c, cmd, fresh)),
{
    match cmd {
        CommandModel::FindAll => {},
        CommandModel::InsertOne(t) => {
            let c2 = after(c, cmd, fresh);
            assert forall|i: int, j: int|
                0 <= i < c2.len() && 0 <= j < c2.len() && i != j && (#[trigger] c2[i]).id is Some
                    implies c2[i].id != (#[trigger] c2[j]).id by {
                if i < c.len() && j < c.len() {
                    assert(c2[i] == c[i] && c2[j] == c[j]);
                } else if i < c.len() {
                    assert(c2[i] == c[i]);
                } else {
                    assert(c2[j] == c[j]);
                }
            }
        },
        CommandModel::UpdateTitle(id, t) => {
            let c2 = with_title(c, id, t);
            assert forall|i: int, j: int|
                0 <= i < c2.len() && 0 <= j < c2.len() && i != j && (#[trigger] c2[i]).id is Some
                    implies c2[i].id != (#[trigger] c2[j]).id by {
                assert(c2[i].id == c[i].id && c2[j].id == c[j].id);
            }
        },
        CommandModel::DeleteOne(id) => {
            lemma_without_id_keeps_unique(c, id);
        },
    }
}

} // verus!
