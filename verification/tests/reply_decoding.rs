use search_gateway::error::Error;
use search_gateway::query::{SearchQuery, SearchRequest};
use search_gateway::reply::{
    candidate_payloads, decode, encode_as_reply, keep_json, total_hits, ReplyValue,
    PLAIN_PAYLOAD_INDEX, SORTED_PAYLOAD_INDEX,
};
use search_gateway::search::search_result;

fn text(bytes: &str) -> ReplyValue {
    ReplyValue::Text(bytes.as_bytes().to_vec())
}

fn sorted_fields(sort_value: &str, json: &str) -> ReplyValue {
    ReplyValue::List(vec![text("post_timestamp"), text(sort_value), text("$"), text(json)])
}

fn plain_fields(json: &str) -> ReplyValue {
    ReplyValue::List(vec![text("$"), text(json)])
}

fn bytes_of(items: &[&str]) -> Vec<Vec<u8>> {
    items.iter().map(|item| item.as_bytes().to_vec()).collect()
}

fn query_with_window(offset: i64, limit: i64) -> SearchQuery {
    SearchQuery::from_request(SearchRequest {
        index: Some("idx".to_string()),
        source: None,
        q: Some("rust".to_string()),
        offset: Some(offset),
        limit: Some(limit),
        start_time: None,
        end_time: None,
        language: None,
        filter_date_by: None,
        sort_by: None,
        sort_order: None,
    })
    .unwrap()
}

#[test]
fn documents_stand_at_the_even_positions() {
    let raw = vec![
        ReplyValue::Integer(2),
        text("doc:1"),
        sorted_fields("10", r#"{"a":1}"#),
        text("doc:2"),
        sorted_fields("9", r#"{"b":[true,null]}"#),
    ];
    let hits = decode(&raw, SORTED_PAYLOAD_INDEX);
    assert_eq!(hits.total_hits, 2);
    assert_eq!(hits.documents, bytes_of(&[r#"{"a":1}"#, r#"{"b":[true,null]}"#]));
}

#[test]
fn the_payload_offset_follows_the_command() {
    let raw = vec![ReplyValue::Integer(1), text("doc:1"), plain_fields(r#"{"a":1}"#)];
    assert_eq!(decode(&raw, PLAIN_PAYLOAD_INDEX).documents, bytes_of(&[r#"{"a":1}"#]));
    assert!(decode(&raw, SORTED_PAYLOAD_INDEX).documents.is_empty());
    assert_eq!(decode(&raw, SORTED_PAYLOAD_INDEX).total_hits, 1);
}

#[test]
fn a_field_array_at_an_odd_position_is_a_key_and_is_skipped() {
    let raw = vec![
        ReplyValue::Integer(2),
        plain_fields(r#"{"skipped":1}"#),
        plain_fields(r#"{"kept":1}"#),
        plain_fields(r#"{"skipped":2}"#),
        plain_fields(r#"{"kept":2}"#),
    ];
    assert_eq!(decode(&raw, 1).documents, bytes_of(&[r#"{"kept":1}"#, r#"{"kept":2}"#]));
}

#[test]
fn malformed_elements_are_dropped_and_the_count_stays() {
    let raw = vec![
        ReplyValue::Integer(7),
        text("doc:1"),
        ReplyValue::List(vec![text("$"), ReplyValue::Integer(5)]),
        text("doc:2"),
        plain_fields("{not json"),
        text("doc:3"),
        ReplyValue::Absent,
        text("doc:4"),
        ReplyValue::List(vec![text("$")]),
        text("doc:5"),
        text(r#"{"bare":"text, no list"}"#),
        text("doc:6"),
        ReplyValue::Status("OK".to_string()),
        text("doc:7"),
        plain_fields(r#"{"good":true}"#),
    ];
    let hits = decode(&raw, 1);
    assert_eq!(hits.total_hits, 7);
    assert_eq!(hits.documents, bytes_of(&[r#"{"good":true}"#]));
}

#[test]
fn every_json_value_is_a_document() {
    let raw = vec![
        ReplyValue::Integer(4),
        text("k"),
        plain_fields("[1,2]"),
        text("k"),
        plain_fields("\"text\""),
        text("k"),
        plain_fields(" 12.5 "),
        text("k"),
        plain_fields("null"),
        text("k"),
        plain_fields(""),
        text("k"),
        plain_fields("{} trailing"),
    ];
    assert_eq!(decode(&raw, 1).documents, bytes_of(&["[1,2]", "\"text\"", " 12.5 ", "null"]));
}

#[test]
fn no_hits_means_no_documents_whatever_follows() {
    let raw = vec![ReplyValue::Integer(0), text("doc:1"), plain_fields(r#"{"a":1}"#)];
    let hits = decode(&raw, 1);
    assert_eq!(hits.total_hits, 0);
    assert!(hits.documents.is_empty());
}

#[test]
fn a_count_that_is_no_integer_counts_as_zero() {
    for head in [text("3"), ReplyValue::Status("3".to_string()), ReplyValue::Absent,
        ReplyValue::List(vec![ReplyValue::Integer(3)])]
    {
        let raw = vec![head, text("doc:1"), plain_fields(r#"{"a":1}"#)];
        let hits = decode(&raw, 1);
        assert_eq!(hits.total_hits, 0);
        assert!(hits.documents.is_empty());
    }
    let empty: Vec<ReplyValue> = Vec::new();
    assert_eq!(decode(&empty, 1).total_hits, 0);
    assert!(decode(&empty, 1).documents.is_empty());
}

#[test]
fn the_count_is_the_low_word_of_the_integer() {
    assert_eq!(total_hits(&vec![ReplyValue::Integer(5)]), 5);
    assert_eq!(total_hits(&vec![ReplyValue::Integer(u32::MAX as i64)]), u32::MAX);
    assert_eq!(total_hits(&vec![ReplyValue::Integer((1i64 << 32) + 5)]), 5);
    assert_eq!(total_hits(&vec![ReplyValue::Integer(1i64 << 32)]), 0);
    assert_eq!(total_hits(&vec![ReplyValue::Integer(-1)]), u32::MAX);
    assert_eq!(total_hits(&vec![ReplyValue::Integer(i64::MIN)]), 0);
}

#[test]
fn candidates_are_taken_before_json_is_checked() {
    let raw = vec![
        ReplyValue::Integer(2),
        text("doc:1"),
        plain_fields("{not json"),
        text("doc:2"),
        plain_fields("{}"),
    ];
    let candidates = candidate_payloads(&raw, 1);
    assert_eq!(candidates, bytes_of(&["{not json", "{}"]));
    assert_eq!(keep_json(candidates), bytes_of(&["{}"]));
}

#[test]
fn decoding_recovers_what_was_laid_out() {
    let documents = bytes_of(&[r#"{"a":1}"#, "[]", r#"{"nested":{"deep":[1,2,{"x":null}]}}"#, "3"]);
    for index in [0usize, 1, 3, 7] {
        let raw = encode_as_reply(&documents, index);
        assert_eq!(raw.len(), 1 + 2 * documents.len());
        let hits = decode(&raw, index);
        assert_eq!(hits.total_hits, 4);
        assert_eq!(hits.documents, documents);
    }
    let none: Vec<Vec<u8>> = Vec::new();
    let raw = encode_as_reply(&none, 3);
    assert_eq!(raw.len(), 1);
    assert_eq!(decode(&raw, 3).total_hits, 0);
    assert!(decode(&raw, 3).documents.is_empty());
}

#[test]
fn a_laid_out_reply_read_at_another_offset_yields_nothing() {
    let documents = bytes_of(&[r#"{"a":1}"#]);
    let raw = encode_as_reply(&documents, 3);
    assert!(decode(&raw, 1).documents.is_empty());
    assert_eq!(decode(&raw, 1).total_hits, 1);
}

#[test]
fn the_result_carries_window_and_pages() {
    let raw = vec![
        ReplyValue::Integer(45),
        text("doc:1"),
        sorted_fields("10", r#"{"a":1}"#),
        text("doc:2"),
        sorted_fields("9", "broken"),
    ];
    let result = search_result(&query_with_window(40, 20), &raw, 12).unwrap();
    assert_eq!(result.documents, bytes_of(&[r#"{"a":1}"#]));
    assert_eq!(result.query, "rust");
    assert_eq!(result.total_hits, 45);
    assert_eq!(result.offset, 40);
    assert_eq!(result.limit, 20);
    assert_eq!(result.page, 3);
    assert_eq!(result.total_pages, 3);
    assert_eq!(result.processing_time_ms, 12);
}

#[test]
fn a_result_needs_a_positive_page_size() {
    let raw = vec![ReplyValue::Integer(1)];
    assert!(matches!(search_result(&query_with_window(0, 0), &raw, 0), Err(Error::InvalidLimit)));
    assert!(matches!(search_result(&query_with_window(0, -1), &raw, 0), Err(Error::InvalidLimit)));
}
