//! Request handling for a small task service backed by a document store:
//! identifier validation, the projection of stored documents into listed
//! tasks, the store adapter's outcomes and the HTTP responses they map to.

pub mod handler;
pub mod ident;
pub mod laws;
pub mod record;
pub mod response;
pub mod store;

pub use handler::{begin_create, begin_delete, begin_list, begin_update, index, StoreCommand};
pub use ident::TaskId;
pub use record::{decode_task, StoreError, StoredDoc, TaskEntry, TaskListing};
pub use response::{
    encode_tasks, outcome_of_count, outcome_of_find, outcome_of_insert, respond, Body, Operation,
    Outcome, Response,
};
