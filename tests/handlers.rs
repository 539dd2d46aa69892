use task_service::{
    begin_create, begin_delete, begin_list, begin_update, decode_task, encode_tasks, index,
    outcome_of_count, outcome_of_find, outcome_of_insert, respond, Body, Operation, Outcome,
    Response, StoreCommand, StoreError, StoredDoc, TaskEntry, TaskId, TaskListing,
};

const MILK_ID: [u8; 12] = [0x65, 0x2f, 0x1a, 0x00, 0xbc, 0xde, 0xf0, 0x12, 0x34, 0x56, 0x78, 0x9a];

fn doc(id: Option<[u8; 12]>, title: Option<&str>) -> StoredDoc {
    StoredDoc { id: id.map(TaskId::from_bytes), title: title.map(String::from) }
}

fn list_of(docs: Vec<StoredDoc>) -> Response {
    let mut listing = TaskListing::new();
    for d in docs {
        listing.accept(Ok(d));
    }
    respond(Operation::List, outcome_of_find(Ok(listing)))
}

fn empty(status: u16) -> Response {
    Response { status, body: Body::Empty }
}

fn json(text: &str) -> Response {
    Response { status: 200, body: Body::Json(text.to_string()) }
}

#[test]
fn concrete_scenario() {
    // create
    let cmd = begin_create("buy milk".to_string());
    assert_eq!(cmd, StoreCommand::InsertOne { title: "buy milk".to_string() });
    assert_eq!(respond(Operation::Create, outcome_of_insert(Ok(()))), empty(201));

    // list
    let hex = TaskId::from_bytes(MILK_ID).to_hex();
    assert_eq!(hex, "652f1a00bcdef0123456789a");
    assert_eq!(hex.len(), 24);
    assert_eq!(
        list_of(vec![doc(Some(MILK_ID), Some("buy milk"))]),
        json("[{\"id\":\"652f1a00bcdef0123456789a\",\"title\":\"buy milk\"}]")
    );

    // update
    let cmd = begin_update(&hex, "buy bread".to_string()).unwrap();
    assert_eq!(
        cmd,
        StoreCommand::UpdateTitle { id: TaskId::from_bytes(MILK_ID), title: "buy bread".to_string() }
    );
    assert_eq!(respond(Operation::Update, outcome_of_count(Ok(1))), empty(200));
    assert_eq!(
        list_of(vec![doc(Some(MILK_ID), Some("buy bread"))]),
        json("[{\"id\":\"652f1a00bcdef0123456789a\",\"title\":\"buy bread\"}]")
    );

    // delete
    let cmd = begin_delete(&hex).unwrap();
    assert_eq!(cmd, StoreCommand::DeleteOne { id: TaskId::from_bytes(MILK_ID) });
    assert_eq!(respond(Operation::Delete, outcome_of_count(Ok(1))), empty(200));
    assert_eq!(list_of(vec![]), json("[]"));

    // malformed id
    assert_eq!(
        begin_update("not-an-id", "x".to_string()),
        Err(Response { status: 400, body: Body::Text("Invalid ID".to_string()) })
    );

    // well-formed but unused id
    let unused = "0123456789abcdef01234567";
    assert!(begin_delete(unused).is_ok());
    assert_eq!(respond(Operation::Delete, outcome_of_count(Ok(0))), empty(404));
}

#[test]
fn index_welcomes() {
    assert_eq!(
        index(),
        Response {
            status: 200,
            body: Body::Text("Welcome to Rust Backend API! Visit /tasks to see all tasks.".to_string())
        }
    );
}

#[test]
fn parse_accepts_both_cases() {
    let lower = TaskId::parse("652f1a00bcdef0123456789a").unwrap();
    let upper = TaskId::parse("652F1A00BCDEF0123456789A").unwrap();
    assert_eq!(lower, upper);
    assert_eq!(lower.bytes, MILK_ID);
    assert_eq!(upper.to_hex(), "652f1a00bcdef0123456789a");
}

#[test]
fn parse_rejects_malformed() {
    assert_eq!(TaskId::parse(""), None);
    assert_eq!(TaskId::parse("652f1a00bcdef0123456789"), None);
    assert_eq!(TaskId::parse("652f1a00bcdef0123456789a0"), None);
    assert_eq!(TaskId::parse("652f1a00bcdef0123456789g"), None);
    assert_eq!(TaskId::parse("not-an-id"), None);
    assert_eq!(TaskId::parse("652f1a00bcdef0123456789\u{e9}"), None);
}

#[test]
fn bad_id_is_rejected_for_update_and_delete() {
    let bad = Response { status: 400, body: Body::Text("Invalid ID".to_string()) };
    assert_eq!(begin_update("xyz", "t".to_string()), Err(bad.clone()));
    assert_eq!(begin_delete("xyz"), Err(bad));
}

#[test]
fn listing_skips_nonconforming_documents() {
    let other: [u8; 12] = [1; 12];
    let resp = list_of(vec![
        doc(Some(MILK_ID), None),
        doc(None, Some("no id")),
        doc(Some(other), Some("kept")),
        doc(None, None),
    ]);
    assert_eq!(resp, json("[{\"id\":\"010101010101010101010101\",\"title\":\"kept\"}]"));
}

#[test]
fn listing_skips_cursor_errors() {
    let mut listing = TaskListing::new();
    listing.accept(Err(StoreError));
    listing.accept(Ok(doc(Some([0; 12]), Some(""))));
    listing.accept(Err(StoreError));
    assert_eq!(listing.entries.len(), 1);
    assert_eq!(
        encode_tasks(&listing),
        "[{\"id\":\"000000000000000000000000\",\"title\":\"\"}]"
    );
}

#[test]
fn listing_keeps_store_order_and_separates_with_commas() {
    let resp = list_of(vec![doc(Some([0xff; 12]), Some("a")), doc(Some([0x10; 12]), Some("b"))]);
    assert_eq!(
        resp,
        json("[{\"id\":\"ffffffffffffffffffffffff\",\"title\":\"a\"},{\"id\":\"101010101010101010101010\",\"title\":\"b\"}]")
    );
}

#[test]
fn titles_are_escaped() {
    let resp = list_of(vec![doc(Some([0; 12]), Some("say \"hi\"\n\\"))]);
    assert_eq!(
        resp,
        json("[{\"id\":\"000000000000000000000000\",\"title\":\"say \\\"hi\\\"\\n\\\\\"}]")
    );
}

#[test]
fn from_docs_matches_stepwise_listing() {
    let docs = vec![doc(Some([2; 12]), Some("x")), doc(None, Some("y")), doc(Some([3; 12]), Some("z"))];
    let listing = TaskListing::from_docs(docs);
    assert_eq!(
        listing.entries,
        vec![
            TaskEntry { id: TaskId::from_bytes([2; 12]), title: "x".to_string() },
            TaskEntry { id: TaskId::from_bytes([3; 12]), title: "z".to_string() },
        ]
    );
}

#[test]
fn listing_twice_gives_the_same_response() {
    let docs = vec![doc(Some([4; 12]), Some("p")), doc(Some([5; 12]), Some("q"))];
    assert_eq!(list_of(docs.clone()), list_of(docs));
    assert_eq!(begin_list(), StoreCommand::FindAll);
}

#[test]
fn decode_requires_both_fields() {
    assert_eq!(decode_task(&doc(Some([7; 12]), None)), None);
    assert_eq!(decode_task(&doc(None, Some("t"))), None);
    assert_eq!(
        decode_task(&doc(Some([7; 12]), Some("t"))),
        Some(TaskEntry { id: TaskId::from_bytes([7; 12]), title: "t".to_string() })
    );
}

#[test]
fn store_failures_are_500_without_detail() {
    assert_eq!(respond(Operation::List, outcome_of_find(Err(StoreError))), empty(500));
    assert_eq!(respond(Operation::Create, outcome_of_insert(Err(StoreError))), empty(500));
    assert_eq!(respond(Operation::Update, outcome_of_count(Err(StoreError))), empty(500));
    assert_eq!(respond(Operation::Delete, outcome_of_count(Err(StoreError))), empty(500));
}

#[test]
fn counts_distinguish_found_from_not_found() {
    assert_eq!(respond(Operation::Update, outcome_of_count(Ok(0))), empty(404));
    assert_eq!(respond(Operation::Update, outcome_of_count(Ok(3))), empty(200));
    assert_eq!(respond(Operation::Delete, outcome_of_count(Ok(0))), empty(404));
    assert!(matches!(outcome_of_count(Ok(u64::MAX)), Outcome::SuccessEmpty));
    assert!(matches!(outcome_of_count(Ok(0)), Outcome::NotFound));
}

#[test]
fn create_ignores_everything_but_the_title() {
    assert_eq!(begin_create(String::new()), StoreCommand::InsertOne { title: String::new() });
    assert_eq!(respond(Operation::Create, outcome_of_insert(Ok(()))), empty(201));
}

#[test]
fn empty_collection_lists_as_empty_array() {
    assert_eq!(list_of(vec![]), json("[]"));
}
