use vstd::prelude::*;
use vstd::string::*;

use crate::ident::{decoded_bytes, is_well_formed_id, TaskId};
use crate::response::{Body, BodyModel, Response, ResponseModel};

verus! {

/// The one store round trip an operation performs on the task collection.
#[derive(Clone, Debug, PartialEq, Eq)]
pub enum StoreCommand {
    /// An unfiltered read of every document.
    FindAll,
    /// Insert a document holding only this title; the store assigns the id.
    InsertOne { title: String },
    /// Set the title of the document with this id, leaving its other fields.
    UpdateTitle { id: TaskId, title: String },
    /// Remove the document with this id.
    DeleteOne { id: TaskId },
}

pub ghost enum CommandModel {
    FindAll,
    InsertOne(Seq<char>),
    UpdateTitle(Seq<u8>, Seq<char>),
    DeleteOne(Seq<u8>),
}

impl View for StoreCommand {
    type V = CommandModel;

    open spec fn view(&self) -> CommandModel {
        match self {
            StoreCommand::FindAll => CommandModel::FindAll,
            StoreCommand::InsertOne { title } => CommandModel::InsertOne(title@),
            StoreCommand::UpdateTitle { id, title } => CommandModel::UpdateTitle(id@, title@),
            StoreCommand::DeleteOne { id } => CommandModel::DeleteOne(id@),
        }
    }
}

/// The reply to a path identifier that is not well-formed.
pub open spec fn bad_id_model() -> ResponseModel {
    ResponseModel { status: 400, body: BodyModel::Text("Invalid ID"@) }
}

/// What an update request leads to: a store command, or at once a response.
pub open spec fn update_plan(id: Seq<char>, title: Seq<char>) -> Result<CommandModel, ResponseModel> {
    if is_well_formed_id(id) {
        Ok(CommandModel::UpdateTitle(decoded_bytes(id), title))
    } else {
        Err(bad_id_model())
    }
}

/// What a delete request leads to: a store command, or at once a response.
pub open spec fn delete_plan(id: Seq<char>) -> Result<CommandModel, ResponseModel> {
    if is_well_formed_id(id) {
        Ok(CommandModel::DeleteOne(decoded_bytes(id)))
    } else {
        Err(bad_id_model())
    }
}

pub open spec fn plan_view(r: Result<StoreCommand, Response>) -> Result<CommandModel, ResponseModel> {
    match r {
        Ok(c) => Ok(c@),
        Err(resp) => Err(resp@),
    }
}

fn bad_id_response() -> (r: Response)
    ensures
        r@ == bad_id_model(),
{
    Response { status: 400, body: Body::Text(String::from_str("Invalid ID")) }
}

/// `GET /`: a fixed welcome text.
pub fn index() -> (r: Response)
    ensures
        r@ == (ResponseModel {
            status: 200,
            body: BodyModel::Text("Welcome to Rust Backend API! Visit /tasks to see all tasks."@),
        }),
{
    Response {
        status: 200,
        body: Body::Text(String::from_str("Welcome to Rust Backend API! Visit /tasks to see all tasks.")),
    }
}

/// `GET /tasks`: read every document.
pub fn begin_list() -> (c: StoreCommand)
    ensures
        c@ == CommandModel::FindAll,
{
    StoreCommand::FindAll
}

/// `POST /tasks`: insert the title alone; any id in the request is ignored.
pub fn begin_create(title: String) -> (c: StoreCommand)
    ensures
        c@ == CommandModel::InsertOne(title@),
{
    StoreCommand::InsertOne { title }
}

/// `PUT /tasks/{id}`: a malformed id is answered with 400 before the store is
/// touched; otherwise the title of that document is set.
pub fn begin_update(id: &str, title: String) -> (r: Result<StoreCommand, Response>)
    ensures
        plan_view(r) == update_plan(id@, title@),
{
    match TaskId::parse(id) {
        Some(oid) => Ok(StoreCommand::UpdateTitle { id: oid, title }),
        None => Err(bad_id_response()),
    }
}

/// `DELETE /tasks/{id}`: a malformed id is answered with 400 before the store
/// is touched; otherwise that document is removed.
pub fn begin_delete(id: &str) -> (r: Result<StoreCommand, Response>)
    ensures
        plan_view(r) == delete_plan(id@),
{
    match TaskId::parse(id) {
        Some(oid) => Ok(StoreCommand::DeleteOne { id: oid }),
        None => Err(bad_id_response()),
    }
}

} // verus!
