use media_worker::decode::{decode_event, DecodeError};
use media_worker::json::{Json, JsonNumber, Member};
use media_worker::protocol::parse_worker_event;

fn text(value: &str) -> Json {
    Json::Text(value.to_string())
}

fn object(members: Vec<(&str, Json)>) -> Json {
    Json::Object(
        members
            .into_iter()
            .map(|(key, value)| Member { key: key.to_string(), value })
            .collect(),
    )
}

#[test]
fn a_line_that_is_no_json_gives_a_syntax_error() {
    match parse_worker_event("{not-json") {
        Err(DecodeError::Syntax(message)) => assert!(!message.is_empty()),
        other => panic!("expected a syntax error, got {:?}", other),
    }
}

#[test]
fn a_document_that_is_no_object_is_rejected() {
    assert_eq!(parse_worker_event("42"), Err(DecodeError::NotAnObject));
    assert_eq!(parse_worker_event("[1,2]"), Err(DecodeError::NotAnObject));
    assert_eq!(decode_event(&Json::Null), Err(DecodeError::NotAnObject));
}

#[test]
fn an_unknown_type_is_named_in_the_error() {
    assert_eq!(
        parse_worker_event(r#"{"type":"unknown_event"}"#),
        Err(DecodeError::UnknownType("unknown_event".to_string()))
    );
}

#[test]
fn a_missing_type_is_a_missing_field() {
    assert_eq!(
        parse_worker_event(r#"{"jobId":"j"}"#),
        Err(DecodeError::MissingField("type".to_string()))
    );
    assert_eq!(
        parse_worker_event(r#"{"type":7}"#),
        Err(DecodeError::InvalidField("type".to_string()))
    );
}

#[test]
fn a_missing_required_field_is_named_in_the_error() {
    assert_eq!(
        parse_worker_event(r#"{"type":"job_progress","batchId":"batch-1"}"#),
        Err(DecodeError::MissingField("jobId".to_string()))
    );
    assert_eq!(
        parse_worker_event(r#"{"type":"job_progress","jobId":"j"}"#),
        Err(DecodeError::MissingField("progressPct".to_string()))
    );
    assert_eq!(
        parse_worker_event(r#"{"type":"job_error","jobId":"j"}"#),
        Err(DecodeError::MissingField("error".to_string()))
    );
    assert_eq!(
        parse_worker_event(r#"{"type":"batch_done","batchId":"b"}"#),
        Err(DecodeError::MissingField("summary".to_string()))
    );
    assert_eq!(
        parse_worker_event(r#"{"type":"task_done","taskId":"t","summary":{"ok":1,"failed":0,"cancelled":0}}"#),
        Err(DecodeError::MissingField("taskKind".to_string()))
    );
    assert_eq!(
        parse_worker_event(r#"{"type":"job_log","jobId":"j"}"#),
        Err(DecodeError::MissingField("message".to_string()))
    );
    assert_eq!(
        parse_worker_event(r#"{"type":"worker_status","status":"ready"}"#),
        Err(DecodeError::MissingField("message".to_string()))
    );
    assert_eq!(
        parse_worker_event(r#"{"type":"batch_done","batchId":"b","summary":{"ok":1,"failed":0}}"#),
        Err(DecodeError::MissingField("cancelled".to_string()))
    );
}

#[test]
fn a_field_of_the_wrong_kind_is_named_in_the_error() {
    assert_eq!(
        parse_worker_event(r#"{"type":"job_progress","jobId":"j","progressPct":"half"}"#),
        Err(DecodeError::InvalidField("progressPct".to_string()))
    );
    assert_eq!(
        parse_worker_event(r#"{"type":"job_progress","batchId":5,"jobId":"j","progressPct":1}"#),
        Err(DecodeError::InvalidField("batchId".to_string()))
    );
    assert_eq!(
        parse_worker_event(r#"{"type":"job_done","jobId":null}"#),
        Err(DecodeError::InvalidField("jobId".to_string()))
    );
    assert_eq!(
        parse_worker_event(r#"{"type":"batch_done","batchId":"b","summary":{"ok":-1,"failed":0,"cancelled":0}}"#),
        Err(DecodeError::InvalidField("ok".to_string()))
    );
    assert_eq!(
        parse_worker_event(r#"{"type":"batch_done","batchId":"b","summary":{"ok":1.5,"failed":0,"cancelled":0}}"#),
        Err(DecodeError::InvalidField("ok".to_string()))
    );
    assert_eq!(
        parse_worker_event(r#"{"type":"batch_done","batchId":"b","summary":[1,0,0]}"#),
        Err(DecodeError::InvalidField("summary".to_string()))
    );
}

#[test]
fn members_that_the_event_does_not_know_are_passed_over() {
    let event = parse_worker_event(
        r#"{"type":"worker_status","status":"ready","message":"up","extra":[1,2,3]}"#,
    );
    assert!(event.is_ok());
}

#[test]
fn an_event_is_decoded_from_a_document_built_by_hand() {
    let doc = object(vec![
        ("type", text("job_error")),
        ("taskId", text("t")),
        ("taskKind", text("flag")),
        ("jobId", text("j")),
        ("error", text("boom")),
        ("batchId", Json::Null),
    ]);
    match decode_event(&doc) {
        Ok(media_worker::protocol::WorkerEvent::JobError { batch_id, task_id, task_kind, job_id, error }) => {
            assert_eq!(batch_id, None);
            assert_eq!(task_id, Some("t".to_string()));
            assert_eq!(task_kind, Some("flag".to_string()));
            assert_eq!(job_id, "j");
            assert_eq!(error, "boom");
        }
        other => panic!("expected a job error, got {:?}", other),
    }
}

#[test]
fn the_message_of_an_error_starts_with_the_failure() {
    assert_eq!(
        DecodeError::MissingField("jobId".to_string()).message(),
        "Failed to parse worker event: missing field `jobId`"
    );
    assert_eq!(
        DecodeError::InvalidField("ok".to_string()).message(),
        "Failed to parse worker event: invalid value for field `ok`"
    );
    assert_eq!(
        DecodeError::UnknownType("x".to_string()).message(),
        "Failed to parse worker event: unknown event type `x`"
    );
    assert_eq!(
        DecodeError::NotAnObject.message(),
        "Failed to parse worker event: expected a JSON object"
    );
    assert_eq!(
        DecodeError::Syntax("bad".to_string()).message(),
        "Failed to parse worker event: bad"
    );
}

#[test]
fn the_first_member_with_a_key_is_the_one_that_is_found() {
    let doc = object(vec![("a", text("one")), ("b", text("two")), ("a", text("three"))]);
    assert_eq!(doc.get("a"), Some(&text("one")));
    assert_eq!(doc.get("b"), Some(&text("two")));
    assert_eq!(doc.get("c"), None);
    assert_eq!(text("x").get("a"), None);
    assert_eq!(text("x").as_text(), Some("x"));
    assert_eq!(Json::Null.as_text(), None);
}

#[test]
fn a_parsed_document_keeps_the_order_of_its_members() {
    let doc = Json::parse(r#"{"z":1,"a":"x","m":[true,null]}"#).expect("document should parse");
    match &doc {
        Json::Object(members) => {
            let keys: Vec<&str> = members.iter().map(|member| member.key.as_str()).collect();
            assert_eq!(keys, vec!["z", "a", "m"]);
            assert_eq!(members[1].value, text("x"));
            assert_eq!(members[2].value, Json::Array(vec![Json::Bool(true), Json::Null]));
        }
        _ => panic!("expected an object"),
    }
    assert_eq!(doc.clone(), doc);
}

#[test]
fn a_string_is_quoted_as_json() {
    assert_eq!(Json::quote("plain"), "\"plain\"");
    assert_eq!(Json::quote("a\"b\\c\n"), "\"a\\\"b\\\\c\\n\"");
    assert_eq!(Json::quote(""), "\"\"");
    assert_eq!(Json::quote("\u{7f} \u{e9}/~"), "\"\u{7f} \u{e9}/~\"");
    assert_eq!(Json::quote("\u{1f}"), "\"\\u001f\"");
}

fn number(unsigned: Option<u64>, signed: Option<i64>, value: f64) -> Json {
    Json::Number(JsonNumber { unsigned, signed, bits: Some(value.to_bits()) })
}

#[test]
fn a_number_is_read_in_its_three_ways() {
    assert_eq!(Json::parse("5"), Ok(number(Some(5), Some(5), 5.0)));
    assert_eq!(Json::parse("-3"), Ok(number(None, Some(-3), -3.0)));
    assert_eq!(Json::parse("1.5"), Ok(number(None, None, 1.5)));
    assert_eq!(Json::parse("200.8"), Ok(number(None, None, 200.8)));
    assert_eq!(
        Json::parse("18446744073709551615"),
        Ok(number(Some(u64::MAX), None, 18446744073709551615.0))
    );
    assert_eq!(Json::parse("1e3"), Ok(number(None, None, 1000.0)));
}

#[test]
fn counts_and_readings_are_taken_from_numbers_built_by_hand() {
    let summary = object(vec![
        ("ok", number(Some(2), Some(2), 2.0)),
        ("failed", number(Some(0), Some(0), 0.0)),
        ("cancelled", number(Some(1), Some(1), 1.0)),
    ]);
    let doc = object(vec![
        ("type", text("batch_done")),
        ("batchId", text("b")),
        ("summary", summary),
    ]);
    match decode_event(&doc) {
        Ok(media_worker::protocol::WorkerEvent::BatchDone { batch_id, summary }) => {
            assert_eq!(batch_id, "b");
            assert_eq!((summary.ok, summary.failed, summary.cancelled), (2, 0, 1));
        }
        other => panic!("expected a batch done event, got {:?}", other),
    }
    let doc = object(vec![
        ("type", text("job_progress")),
        ("jobId", text("j")),
        ("progressPct", number(None, None, 12.5)),
    ]);
    match decode_event(&doc) {
        Ok(media_worker::protocol::WorkerEvent::JobProgress { progress_pct, .. }) => {
            assert_eq!(progress_pct.percent(), 13);
        }
        other => panic!("expected a job progress event, got {:?}", other),
    }
    let doc = object(vec![
        ("type", text("job_progress")),
        ("jobId", text("j")),
        ("progressPct", Json::Number(JsonNumber { unsigned: Some(1), signed: Some(1), bits: None })),
    ]);
    assert_eq!(decode_event(&doc), Err(DecodeError::InvalidField("progressPct".to_string())));
    let doc = object(vec![
        ("type", text("batch_done")),
        ("batchId", text("b")),
        ("summary", object(vec![("ok", number(None, Some(-1), -1.0))])),
    ]);
    assert_eq!(decode_event(&doc), Err(DecodeError::InvalidField("ok".to_string())));
}
