use vstd::prelude::*;
use vstd::string::*;

use crate::ident::hex_text;
use crate::record::{StoreError, TaskListing};

verus! {

/// The JSON text of a string: quoted and escaped.
pub uninterp spec fn json_string_of(s: Seq<char>) -> Seq<char>;

/// Relies on `serde_json::to_string` on a string slice: its JSON text, quoted
/// and escaped. A string serializes through `serialize_str` into an in-memory
/// buffer, which does not fail.
#[verifier::external_body]
fn json_string(s: &str) -> (r: Option<String>)
    ensures
        r is Some,
        r matches Some(j) ==> j@ == json_string_of(s@),
{
    serde_json::to_string(s).ok()
}

/// The JSON object of one listed task.
pub open spec fn entry_json(e: (Seq<u8>, Seq<char>)) -> Seq<char> {
    "{\"id\":\""@ + hex_text(e.0) + "\",\"title\":"@ + json_string_of(e.1) + "}"@
}

/// The listed tasks' objects, separated by commas.
pub open spec fn joined_json(es: Seq<(Seq<u8>, Seq<char>)>) -> Seq<char>
    decreases es.len(),
{
    if es.len() == 0 {
        Seq::empty()
    } else if es.len() == 1 {
        entry_json(es[0])
    } else {
        joined_json(es.drop_last()) + ","@ + entry_json(es.last())
    }
}

/// The JSON array of a listing.
pub open spec fn tasks_json(es: Seq<(Seq<u8>, Seq<char>)>) -> Seq<char> {
    "["@ + joined_json(es) + "]"@
}

/// Encodes a listing as a JSON array of `{"id": <hex>, "title": <string>}`.
pub fn encode_tasks(listing: &TaskListing) -> (r: String)
    ensures
        r@ == tasks_json(listing@),
{
    let mut out = String::from_str("[");
    let n = listing.entries.len();
    let mut i: usize = 0;
    while i < n
        invariant
            n == listing.entries@.len(),
            i <= n,
            out@ == "["@ + joined_json(listing@.subrange(0, i as int)),
        decreases n - i,
    {
        let ghost before = out@;
        let e = &listing.entries[i];
        if i > 0 {
            out.append(",");
        }
        out.append("{\"id\":\"");
        let hex = e.id.to_hex();
        out.append(hex.as_str());
        out.append("\",\"title\":");
        let title = json_string(e.title.as_str()).unwrap();
        out.append(title.as_str());
        out.append("}");
        let ghost es = listing@.subrange(0, i as int + 1);
        assert(es.drop_last() =~= listing@.subrange(0, i as int));
        assert(es.last() == listing@[i as int]);
        if i > 0 {
            assert(out@ =~= "["@ + joined_json(es));
        } else {
            assert(listing@.subrange(0, 0) =~= Seq::<(Seq<u8>, Seq<char>)>::empty());
            assert(out@ =~= "["@ + joined_json(es));
        }
        i = i + 1;
    }
    assert(listing@.subrange(0, n as int) =~= listing@);
    out.append("]");
    out
}

/// The body of a response.
#[derive(Clone, Debug, PartialEq, Eq)]
pub enum Body {
    Empty,
    Text(String),
    Json(String),
}

pub ghost enum BodyModel {
    Empty,
    Text(Seq<char>),
    Json(Seq<char>),
}

impl View for Body {
    type V = BodyModel;

    open spec fn view(&self) -> BodyModel {
        match self {
            Body::Empty => BodyModel::Empty,
            Body::Text(t) => BodyModel::Text(t@),
            Body::Json(j) => BodyModel::Json(j@),
        }
    }
}

/// An HTTP response: a status code and a body.
#[derive(Clone, Debug, PartialEq, Eq)]
pub struct Response {
    pub status: u16,
    pub body: Body,
}

pub ghost struct ResponseModel {
    pub status: u16,
    pub body: BodyModel,
}

impl View for Response {
    type V = ResponseModel;

    open spec fn view(&self) -> ResponseModel {
        ResponseModel { status: self.status, body: self.body@ }
    }
}

/// The operation a request asked for.
#[derive(Clone, Copy, Debug, PartialEq, Eq, Structural)]
pub enum Operation {
    List,
    Create,
    Update,
    Delete,
}

/// What one store round trip came to.
pub enum Outcome {
    /// The round trip succeeded and returned these tasks.
    Success(TaskListing),
    /// The round trip succeeded and returned nothing.
    SuccessEmpty,
    /// No document matched the identifier.
    NotFound,
    /// The round trip failed.
    StoreError,
}

pub ghost enum OutcomeModel {
    Success(Seq<(Seq<u8>, Seq<char>)>),
    SuccessEmpty,
    NotFound,
    StoreError,
}

impl View for Outcome {
    type V = OutcomeModel;

    open spec fn view(&self) -> OutcomeModel {
        match self {
            Outcome::Success(l) => OutcomeModel::Success(l@),
            Outcome::SuccessEmpty => OutcomeModel::SuccessEmpty,
            Outcome::NotFound => OutcomeModel::NotFound,
            Outcome::StoreError => OutcomeModel::StoreError,
        }
    }
}

/// The outcome of a find-all: the listing, or a failure.
pub fn outcome_of_find(r: Result<TaskListing, StoreError>) -> (o: Outcome)
    ensures
        o@ == match r {
            Ok(l) => OutcomeModel::Success(l@),
            Err(_) => OutcomeModel::StoreError,
        },
{
    match r {
        Ok(l) => Outcome::Success(l),
        Err(_) => Outcome::StoreError,
    }
}

/// The outcome of an insert-one, which reports no identifier.
pub fn outcome_of_insert(r: Result<(), StoreError>) -> (o: Outcome)
    ensures
        o@ == match r {
            Ok(_) => OutcomeModel::SuccessEmpty,
            Err(_) => OutcomeModel::StoreError,
        },
{
    match r {
        Ok(_) => Outcome::SuccessEmpty,
        Err(_) => Outcome::StoreError,
    }
}

/// The outcome of an update-one or a delete-one, from the number of documents
/// it matched or removed.
pub fn outcome_of_count(r: Result<u64, StoreError>) -> (o: Outcome)
    ensures
        o@ == match r {
            Ok(n) => if n > 0 {
                OutcomeModel::SuccessEmpty
            } else {
                OutcomeModel::NotFound
            },
            Err(_) => OutcomeModel::StoreError,
        },
{
    match r {
        Ok(n) => if n > 0 {
            Outcome::SuccessEmpty
        } else {
            Outcome::NotFound
        },
        Err(_) => Outcome::StoreError,
    }
}

/// The response to an operation whose store round trip came to `o`.
pub open spec fn response_for(op: Operation, o: OutcomeModel) -> ResponseModel {
    match o {
        OutcomeModel::Success(es) => ResponseModel { status: 200, body: BodyModel::Json(tasks_json(es)) },
        OutcomeModel::SuccessEmpty => ResponseModel {
            status: if op == Operation::Create { 201 } else { 200 },
            body: BodyModel::Empty,
        },
        OutcomeModel::NotFound => ResponseModel { status: 404, body: BodyModel::Empty },
        OutcomeModel::StoreError => ResponseModel { status: 500, body: BodyModel::Empty },
    }
}

/// Maps the outcome of an operation's store round trip to its response.
pub fn respond(op: Operation, o: Outcome) -> (r: Response)
    ensures
        r@ == response_for(op, o@),
{
    match o {
        Outcome::Success(l) => Response { status: 200, body: Body::Json(encode_tasks(&l)) },
        Outcome::SuccessEmpty => {
            let status: u16 = match op {
                Operation::Create => 201,
                _ => 200,
            };
            Response { status, body: Body::Empty }
        },
        Outcome::NotFound => Response { status: 404, body: Body::Empty },
        Outcome::StoreError => Response { status: 500, body: Body::Empty },
    }
}

} // verus!
