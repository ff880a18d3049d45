use geoseed::geonames::{Location, PendingOperation};
use geoseed::lookup::AdminLookup;
use geoseed::pipeline::{
    Action, BulkOperationError, Event, IndexBootstrapError, Phase, Pipeline, SeedError,
    DEFAULT_CAPACITY, DEFAULT_ENDPOINT, DEFAULT_INDEX, DIAGNOSTIC_PATH,
};
use geoseed::schema::{Fault, SchemaError};
use geoseed::table::Table;
use std::collections::HashMap;

const ACCEPTED: &[u8] = br#"{"took":3,"errors":false,"items":[]}"#;
const REJECTED: &[u8] =
    br#"{"took":3,"errors":true,"items":[{"index":{"status":400,"error":{"type":"mapper_parsing_exception"}}}]}"#;

fn row(id: i64, name: &str) -> Vec<String> {
    let id = id.to_string();
    let cells = [
        id.as_str(), name, name, "", "37.77493", "-122.41942", "P", "PPL", "US", "", "CA", "075", "",
        "", "100", "", "10", "America/Los_Angeles", "2023-04-01",
    ];
    cells.iter().map(|c| c.to_string()).collect()
}

fn rows(n: i64) -> Vec<Vec<String>> {
    (1..=n).map(|i| row(i, &format!("place {}", i))).collect()
}

fn ids(ops: &[PendingOperation]) -> Vec<String> {
    ops.iter().map(|op| op.id.clone()).collect()
}

/// What a driver saw of a run.
struct Run {
    creates: usize,
    mappings: usize,
    /// The calls in their order: `create`, `mapping`, `bulk`.
    calls: Vec<&'static str>,
    requests: Vec<Vec<PendingOperation>>,
    loaded: Vec<u64>,
    inserted: Vec<u64>,
    end: Action,
    phase: Phase,
}

/// Runs the machine as a driver does: it performs each action and reports
/// what came of it. `replies` are the bodies of the replies to the bulk
/// requests, in their order; a request beyond them is accepted.
fn run(
    capacity: usize,
    index_status: u16,
    create_status: u16,
    mapping_status: u16,
    rows: &[Vec<String>],
    replies: &[&[u8]],
) -> Run {
    let admin1 = AdminLookup::new();
    let admin2 = AdminLookup::new();
    let mut pipeline = Pipeline::new(capacity);
    let mut seen = Run {
        creates: 0,
        mappings: 0,
        calls: Vec::new(),
        requests: Vec::new(),
        loaded: Vec::new(),
        inserted: Vec::new(),
        end: Action::CreateIndex,
        phase: Phase::CheckingIndex,
    };
    let mut next_row = 0;
    let mut action = pipeline.step(Event::IndexChecked { status: index_status });
    loop {
        action = match action {
            Action::CreateIndex => {
                seen.creates += 1;
                seen.calls.push("create");
                pipeline.step(Event::IndexCreated { status: create_status })
            }
            Action::ApplyMapping(mapping) => {
                assert_eq!(mapping, Location::generate_mapping());
                seen.mappings += 1;
                seen.calls.push("mapping");
                pipeline.step(Event::MappingApplied { status: mapping_status })
            }
            Action::Continue { progress } => {
                if let Some(n) = progress {
                    seen.inserted.push(n);
                }
                if next_row < rows.len() {
                    next_row += 1;
                    pipeline.feed_row(&rows[next_row - 1], &admin1, &admin2)
                } else {
                    pipeline.step(Event::EndOfStream)
                }
            }
            Action::SendBulk { operations, loaded } => {
                seen.calls.push("bulk");
                seen.loaded.push(loaded);
                let reply = replies.get(seen.requests.len()).copied().unwrap_or(ACCEPTED);
                seen.requests.push(operations);
                pipeline.feed_reply(reply)
            }
            end => {
                seen.end = end;
                seen.phase = pipeline.phase();
                return seen;
            }
        };
    }
}

fn sizes(run: &Run) -> Vec<usize> {
    run.requests.iter().map(|r| r.len()).collect()
}

#[test]
fn five_records_in_batches_of_two_are_three_requests() {
    let seen = run(2, 200, 200, 200, &rows(5), &[]);
    assert_eq!(sizes(&seen), vec![2, 2, 1]);
    assert_eq!(ids(&seen.requests[0]), vec!["1", "2"]);
    assert_eq!(ids(&seen.requests[1]), vec!["3", "4"]);
    assert_eq!(ids(&seen.requests[2]), vec!["5"]);
    assert_eq!(seen.loaded, vec![2, 4, 5]);
    assert_eq!(seen.inserted, vec![2, 4]);
    assert!(matches!(seen.end, Action::Finish { inserted: 5 }));
    assert_eq!(seen.phase, Phase::Done);
}

#[test]
fn an_error_in_the_second_reply_ends_the_run() {
    let seen = run(2, 200, 200, 200, &rows(5), &[ACCEPTED, REJECTED]);
    assert_eq!(sizes(&seen), vec![2, 2]);
    assert_eq!(ids(&seen.requests[1]), vec!["3", "4"]);
    assert_eq!(seen.inserted, vec![2]);
    match seen.end {
        Action::Abort { error, diagnostic } => {
            assert_eq!(error, SeedError::BulkOperation(BulkOperationError::ErrorsReported));
            assert!(diagnostic);
        }
        other => panic!("{:?}", other),
    }
    assert_eq!(
        seen.phase,
        Phase::Failed(SeedError::BulkOperation(BulkOperationError::ErrorsReported))
    );
    assert_eq!(DIAGNOSTIC_PATH, "error.log");
}

#[test]
fn nothing_is_sent_after_a_failure() {
    let admin = AdminLookup::new();
    let mut pipeline = Pipeline::new(2);
    pipeline.step(Event::IndexChecked { status: 200 });
    pipeline.feed_row(&row(1, "a"), &admin, &admin);
    assert!(matches!(pipeline.feed_row(&row(2, "b"), &admin, &admin), Action::SendBulk { .. }));
    let failed = SeedError::BulkOperation(BulkOperationError::ErrorsReported);
    assert!(matches!(pipeline.feed_reply(REJECTED), Action::Abort { diagnostic: true, .. }));
    for _ in 0..3 {
        match pipeline.feed_row(&row(3, "c"), &admin, &admin) {
            Action::Abort { error, diagnostic } => {
                assert_eq!(error, failed);
                assert!(!diagnostic);
            }
            other => panic!("{:?}", other),
        }
        assert_eq!(pipeline.pending(), 0);
    }
    assert!(matches!(pipeline.step(Event::EndOfStream), Action::Abort { .. }));
    assert!(matches!(pipeline.feed_reply(ACCEPTED), Action::Abort { .. }));
    assert_eq!(pipeline.phase(), Phase::Failed(failed));
    assert_eq!(pipeline.records(), 2);
}

#[test]
fn an_error_in_the_last_reply_ends_the_run_as_any_other() {
    let seen = run(2, 200, 200, 200, &rows(5), &[ACCEPTED, ACCEPTED, REJECTED]);
    assert_eq!(sizes(&seen), vec![2, 2, 1]);
    assert!(matches!(
        seen.end,
        Action::Abort {
            error: SeedError::BulkOperation(BulkOperationError::ErrorsReported),
            diagnostic: true
        }
    ));
}

#[test]
fn an_absent_index_is_created_and_mapped_once_before_anything_is_sent() {
    let seen = run(2, 404, 200, 200, &rows(5), &[]);
    assert_eq!(seen.creates, 1);
    assert_eq!(seen.mappings, 1);
    assert_eq!(seen.calls, vec!["create", "mapping", "bulk", "bulk", "bulk"]);
    assert!(matches!(seen.end, Action::Finish { inserted: 5 }));
}

#[test]
fn a_present_index_is_neither_created_nor_mapped() {
    let seen = run(2, 200, 200, 200, &rows(5), &[]);
    assert_eq!(seen.creates, 0);
    assert_eq!(seen.mappings, 0);
    assert_eq!(seen.calls, vec!["bulk", "bulk", "bulk"]);
}

#[test]
fn any_answer_but_not_found_takes_the_index_for_present() {
    for status in [100, 201, 204, 301, 400, 403, 500, 503] {
        let seen = run(2, status, 200, 200, &rows(1), &[]);
        assert_eq!(seen.calls, vec!["bulk"], "{}", status);
    }
}

#[test]
fn an_index_that_cannot_be_created_ends_the_run() {
    for status in [199, 300, 400, 404, 500] {
        let seen = run(2, 404, status, 200, &rows(5), &[]);
        assert_eq!(seen.calls, vec!["create"]);
        match seen.end {
            Action::Abort { error, diagnostic } => {
                assert_eq!(
                    error,
                    SeedError::IndexBootstrap(IndexBootstrapError::CreateRefused { status })
                );
                assert!(!diagnostic);
            }
            other => panic!("{:?}", other),
        }
    }
}

#[test]
fn creation_succeeds_with_any_status_of_the_two_hundreds() {
    for status in [200, 201, 204, 299] {
        let seen = run(2, 404, status, 200, &rows(1), &[]);
        assert_eq!(seen.calls, vec!["create", "mapping", "bulk"]);
    }
}

#[test]
fn a_mapping_that_is_not_answered_with_200_ends_the_run() {
    for status in [201, 204, 400, 500] {
        let seen = run(2, 404, 200, status, &rows(5), &[]);
        assert_eq!(seen.calls, vec!["create", "mapping"]);
        match seen.end {
            Action::Abort { error, diagnostic } => {
                assert_eq!(
                    error,
                    SeedError::IndexBootstrap(IndexBootstrapError::MappingRefused { status })
                );
                assert!(!diagnostic);
            }
            other => panic!("{:?}", other),
        }
    }
}

#[test]
fn a_row_at_fault_ends_the_run_and_what_waited_is_not_sent() {
    let mut input = rows(5);
    input[2][4] = "north".to_string();
    let seen = run(2, 200, 200, 200, &input, &[]);
    assert_eq!(sizes(&seen), vec![2]);
    match seen.end {
        Action::Abort { error, diagnostic } => {
            assert_eq!(
                error,
                SeedError::Schema { row: 2, error: SchemaError { column: 4, fault: Fault::Float } }
            );
            assert!(!diagnostic);
        }
        other => panic!("{:?}", other),
    }
    let mut input = rows(5);
    input[1].truncate(3);
    let seen = run(2, 200, 200, 200, &input, &[]);
    assert_eq!(sizes(&seen), Vec::<usize>::new());
    assert!(matches!(
        seen.end,
        Action::Abort {
            error: SeedError::Schema {
                row: 1,
                error: SchemaError { column: 3, fault: Fault::Missing }
            },
            diagnostic: false
        }
    ));
}

#[test]
fn a_full_last_batch_is_not_followed_by_an_empty_one() {
    let seen = run(2, 200, 200, 200, &rows(4), &[]);
    assert_eq!(sizes(&seen), vec![2, 2]);
    assert_eq!(seen.inserted, vec![2, 4]);
    assert!(matches!(seen.end, Action::Finish { inserted: 4 }));
}

#[test]
fn an_empty_stream_sends_nothing() {
    let seen = run(2, 404, 201, 200, &[], &[]);
    assert_eq!(seen.calls, vec!["create", "mapping"]);
    assert!(matches!(seen.end, Action::Finish { inserted: 0 }));
    assert_eq!(seen.phase, Phase::Done);
}

#[test]
fn batches_of_one_and_batches_larger_than_the_stream() {
    let seen = run(1, 200, 200, 200, &rows(3), &[]);
    assert_eq!(sizes(&seen), vec![1, 1, 1]);
    assert_eq!(seen.loaded, vec![1, 2, 3]);
    let seen = run(100000, 200, 200, 200, &rows(3), &[]);
    assert_eq!(sizes(&seen), vec![3]);
    assert_eq!(ids(&seen.requests[0]), vec!["1", "2", "3"]);
    let seen = run(usize::MAX, 200, 200, 200, &rows(3), &[]);
    assert_eq!(sizes(&seen), vec![3]);
}

#[test]
fn the_batch_never_holds_as_many_as_the_capacity() {
    let admin = AdminLookup::new();
    let mut pipeline = Pipeline::new(3);
    assert_eq!(pipeline.capacity(), 3);
    pipeline.step(Event::IndexChecked { status: 200 });
    for (i, r) in rows(10).iter().enumerate() {
        let action = pipeline.feed_row(r, &admin, &admin);
        assert!(pipeline.pending() < 3);
        assert_eq!(pipeline.records(), i as u64 + 1);
        if let Action::SendBulk { operations, .. } = action {
            assert_eq!(operations.len(), 3);
            assert_eq!(pipeline.pending(), 0);
            assert_eq!(pipeline.phase(), Phase::Flushing { last: false });
            pipeline.feed_reply(ACCEPTED);
        } else {
            assert_eq!(pipeline.pending(), (i + 1) % 3);
        }
    }
}

#[test]
fn a_reply_must_say_plainly_that_there_were_no_errors() {
    let verdict = |body: &[u8]| {
        let admin = AdminLookup::new();
        let mut pipeline = Pipeline::new(1);
        pipeline.step(Event::IndexChecked { status: 200 });
        pipeline.feed_row(&row(1, "a"), &admin, &admin);
        pipeline.feed_reply(body)
    };
    assert!(matches!(verdict(br#"{"errors":false}"#), Action::Continue { progress: Some(1) }));
    assert!(matches!(verdict(br#" { "items" : [], "errors" : false } "#), Action::Continue { .. }));
    let reported = SeedError::BulkOperation(BulkOperationError::ErrorsReported);
    let unintelligible = SeedError::BulkOperation(BulkOperationError::Unintelligible);
    let bodies: [(&[u8], SeedError); 9] = [
        (br#"{"errors":true}"#, reported),
        (br#"{}"#, unintelligible),
        (br#"{"errors":"false"}"#, unintelligible),
        (br#"{"errors":0}"#, unintelligible),
        (br#"{"errors":null}"#, unintelligible),
        (br#"{"Errors":false}"#, unintelligible),
        (br#"[false]"#, unintelligible),
        (br#"false"#, unintelligible),
        (b"<html>502 Bad Gateway</html>", unintelligible),
    ];
    for (body, expected) in bodies {
        match verdict(body) {
            Action::Abort { error, diagnostic } => {
                assert_eq!(error, expected);
                assert!(diagnostic);
            }
            other => panic!("{:?}", other),
        }
    }
    assert!(matches!(verdict(b""), Action::Abort { diagnostic: true, .. }));
}

#[test]
fn what_the_machine_did_not_ask_for_ends_the_run() {
    let out_of_order = |action: Action| match action {
        Action::Abort { error, diagnostic } => {
            assert_eq!(error, SeedError::OutOfOrder);
            assert!(!diagnostic);
        }
        other => panic!("{:?}", other),
    };
    let admin = AdminLookup::new();
    out_of_order(Pipeline::new(2).step(Event::EndOfStream));
    out_of_order(Pipeline::new(2).feed_row(&row(1, "a"), &admin, &admin));
    out_of_order(Pipeline::new(2).step(Event::IndexCreated { status: 200 }));
    out_of_order(Pipeline::new(2).feed_reply(ACCEPTED));
    let mut p = Pipeline::new(2);
    p.step(Event::IndexChecked { status: 404 });
    out_of_order(p.step(Event::MappingApplied { status: 200 }));
    let mut p = Pipeline::new(2);
    p.step(Event::IndexChecked { status: 200 });
    out_of_order(p.step(Event::IndexChecked { status: 200 }));
    let mut p = Pipeline::new(1);
    p.step(Event::IndexChecked { status: 200 });
    p.feed_row(&row(1, "a"), &admin, &admin);
    out_of_order(p.feed_row(&row(2, "b"), &admin, &admin));
    let mut p = Pipeline::new(1);
    p.step(Event::IndexChecked { status: 200 });
    assert!(matches!(p.step(Event::EndOfStream), Action::Finish { inserted: 0 }));
    out_of_order(p.step(Event::EndOfStream));
    assert_eq!(p.phase(), Phase::Failed(SeedError::OutOfOrder));
}

#[test]
fn a_record_given_as_an_event_is_taken_like_a_row() {
    let admin = AdminLookup::new();
    let op = Location::from_row(&row(7, "seven")).unwrap().index_operation(&admin, &admin);
    let mut p = Pipeline::new(1);
    p.step(Event::IndexChecked { status: 200 });
    match p.step(Event::Record(Ok(op))) {
        Action::SendBulk { operations, loaded } => {
            assert_eq!(ids(&operations), vec!["7"]);
            assert_eq!(loaded, 1);
        }
        other => panic!("{:?}", other),
    }
    assert!(matches!(
        p.step(Event::BulkReplied { errors: Some(false) }),
        Action::Continue { progress: Some(1) }
    ));
    let fault = SchemaError { column: 0, fault: Fault::Integer };
    assert!(matches!(
        p.step(Event::Record(Err(fault))),
        Action::Abort { error: SeedError::Schema { row: 1, error }, diagnostic: false } if error == fault
    ));
}

/// An index that stores each document under its id.
fn ingest(index: &mut HashMap<String, PendingOperation>, capacity: usize, rows: &[Vec<String>]) {
    let seen = run(capacity, 200, 200, 200, rows, &[]);
    assert!(matches!(seen.end, Action::Finish { .. }));
    for request in seen.requests {
        for op in request {
            index.insert(op.id.clone(), op);
        }
    }
}

#[test]
fn ingesting_twice_leaves_as_many_documents_as_ingesting_once() {
    let mut input = rows(5);
    input.push(row(3, "place three, again"));
    let mut once = HashMap::new();
    ingest(&mut once, 2, &input);
    assert_eq!(once.len(), 5);
    let mut twice = HashMap::new();
    ingest(&mut twice, 2, &input);
    ingest(&mut twice, 4, &input);
    assert_eq!(twice.len(), once.len());
    assert_eq!(twice, once);
    assert_eq!(once["3"].document.name, "place three, again");
}

fn tsv(rows: &[Vec<String>]) -> Vec<u8> {
    let mut data = Vec::new();
    for r in rows {
        data.extend_from_slice(r.join("\t").as_bytes());
        data.push(b'\n');
    }
    data
}

/// Runs the machine over a table that is held in memory.
fn run_table(capacity: usize, data: &[u8], replies: &[&[u8]]) -> (Vec<Vec<PendingOperation>>, Action) {
    let admin = AdminLookup::new();
    let mut table = Table::open(data);
    let mut pipeline = Pipeline::new(capacity);
    let mut requests = Vec::new();
    let mut action = pipeline.step(Event::IndexChecked { status: 200 });
    loop {
        action = match action {
            Action::Continue { .. } => pipeline.fill(&mut table, &admin, &admin),
            Action::SendBulk { operations, .. } => {
                let reply = replies.get(requests.len()).copied().unwrap_or(ACCEPTED);
                requests.push(operations);
                pipeline.feed_reply(reply)
            }
            end => return (requests, end),
        };
    }
}

#[test]
fn a_table_is_sent_in_batches_in_file_order() {
    let (requests, end) = run_table(2, &tsv(&rows(5)), &[]);
    let sizes: Vec<usize> = requests.iter().map(|r| r.len()).collect();
    assert_eq!(sizes, vec![2, 2, 1]);
    assert_eq!(ids(&requests[0]), vec!["1", "2"]);
    assert_eq!(ids(&requests[1]), vec!["3", "4"]);
    assert_eq!(ids(&requests[2]), vec!["5"]);
    assert!(matches!(end, Action::Finish { inserted: 5 }));
}

#[test]
fn filling_stops_where_a_request_is_due_and_leaves_the_rest_in_the_table() {
    let admin = AdminLookup::new();
    let data = tsv(&rows(5));
    let mut table = Table::open(&data);
    let mut pipeline = Pipeline::new(3);
    pipeline.step(Event::IndexChecked { status: 200 });
    match pipeline.fill(&mut table, &admin, &admin) {
        Action::SendBulk { operations, loaded } => {
            assert_eq!(ids(&operations), vec!["1", "2", "3"]);
            assert_eq!(loaded, 3);
        }
        other => panic!("{:?}", other),
    }
    assert_eq!(table.next_row().unwrap().unwrap()[0], "4");
    pipeline.feed_reply(ACCEPTED);
    match pipeline.fill(&mut table, &admin, &admin) {
        Action::SendBulk { operations, loaded } => {
            assert_eq!(ids(&operations), vec!["5"]);
            assert_eq!(loaded, 4);
        }
        other => panic!("{:?}", other),
    }
    assert!(matches!(pipeline.feed_reply(ACCEPTED), Action::Finish { inserted: 4 }));
}

#[test]
fn a_table_with_a_rejected_request_is_given_up() {
    let (requests, end) = run_table(2, &tsv(&rows(5)), &[ACCEPTED, REJECTED]);
    assert_eq!(requests.len(), 2);
    assert!(matches!(
        end,
        Action::Abort {
            error: SeedError::BulkOperation(BulkOperationError::ErrorsReported),
            diagnostic: true
        }
    ));
}

#[test]
fn a_row_that_cannot_be_read_ends_the_run() {
    let mut data = tsv(&rows(3));
    data.extend_from_slice(b"4\tshort\n");
    data.extend_from_slice(&tsv(&rows(1)));
    let (requests, end) = run_table(2, &data, &[]);
    assert_eq!(requests.len(), 1);
    assert!(matches!(
        end,
        Action::Abort { error: SeedError::Unreadable { row: 3 }, diagnostic: false }
    ));
    let mut p = Pipeline::new(2);
    p.step(Event::IndexChecked { status: 200 });
    assert!(matches!(
        p.step(Event::Unreadable),
        Action::Abort { error: SeedError::Unreadable { row: 0 }, diagnostic: false }
    ));
}

#[test]
fn a_row_at_fault_in_a_table_ends_the_run() {
    let mut input = rows(4);
    input[3][18] = "tomorrow".to_string();
    let (requests, end) = run_table(3, &tsv(&input), &[]);
    assert_eq!(requests.len(), 1);
    assert!(matches!(
        end,
        Action::Abort {
            error: SeedError::Schema { row: 3, error: SchemaError { column: 18, fault: Fault::Date } },
            diagnostic: false
        }
    ));
}

#[test]
fn an_empty_table_sends_nothing() {
    let (requests, end) = run_table(2, b"", &[]);
    assert!(requests.is_empty());
    assert!(matches!(end, Action::Finish { inserted: 0 }));
}

#[test]
fn what_the_operator_leaves_open_has_its_default() {
    assert_eq!(DEFAULT_CAPACITY, 100000);
    assert_eq!(DEFAULT_INDEX, "geolocations");
    assert_eq!(DEFAULT_ENDPOINT, "http://localhost:9200");
    let seen = run(DEFAULT_CAPACITY, 200, 200, 200, &rows(3), &[]);
    assert_eq!(sizes(&seen), vec![3]);
}
