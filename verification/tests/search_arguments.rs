use search_gateway::error::Error;
use search_gateway::query::{
    build, resolve_range, search_arguments, SearchQuery, SearchRequest, SortOrder,
};
use search_gateway::search::search_command;
use search_gateway::time::Instant;

fn empty_request() -> SearchRequest {
    SearchRequest {
        index: None,
        source: None,
        q: None,
        offset: None,
        limit: None,
        start_time: None,
        end_time: None,
        language: None,
        filter_date_by: None,
        sort_by: None,
        sort_order: None,
    }
}

fn request_for(index: &str) -> SearchRequest {
    let mut request = empty_request();
    request.index = Some(index.to_string());
    request
}

fn words(items: &[&str]) -> Vec<String> {
    items.iter().map(|item| item.to_string()).collect()
}

#[test]
fn a_search_without_an_index_is_refused() {
    assert!(matches!(SearchQuery::from_request(empty_request()), Err(Error::MissingIndex)));
    assert!(matches!(SearchQuery::from_request(request_for("")), Err(Error::MissingIndex)));
}

#[test]
fn defaults_are_filled_in() {
    let query = SearchQuery::from_request(request_for("idx")).unwrap();
    assert_eq!(query.index_name, "idx");
    assert_eq!(query.free_text, "*");
    assert_eq!(query.offset, 0);
    assert_eq!(query.limit, 20);
    assert_eq!(query.language, None);
    assert_eq!(query.sort_field, "post_timestamp");
    assert_eq!(query.sort_order, SortOrder::Desc);
    assert_eq!(query.start_time, None);
    assert_eq!(query.end_time, None);
    assert_eq!(query.filter_field, "post_timestamp");
}

#[test]
fn what_the_request_gives_is_kept() {
    let mut request = request_for("news");
    request.q = Some("rust verification".to_string());
    request.offset = Some(40);
    request.limit = Some(10);
    request.language = Some("chinese".to_string());
    request.sort_by = Some("score".to_string());
    request.sort_order = Some("ASC".to_string());
    request.start_time = Some("2024-01-01 00:00:00".to_string());
    request.end_time = Some("2024-01-02 00:00:00".to_string());
    request.filter_date_by = Some("created_ts".to_string());
    let query = SearchQuery::from_request(request).unwrap();
    assert_eq!(query.index_name, "news");
    assert_eq!(query.free_text, "rust verification");
    assert_eq!(query.offset, 40);
    assert_eq!(query.limit, 10);
    assert_eq!(query.language.as_deref(), Some("chinese"));
    assert_eq!(query.sort_field, "score");
    assert_eq!(query.sort_order, SortOrder::Asc);
    assert_eq!(query.start_time.as_deref(), Some("2024-01-01 00:00:00"));
    assert_eq!(query.end_time.as_deref(), Some("2024-01-02 00:00:00"));
    assert_eq!(query.filter_field, "created_ts");
}

#[test]
fn only_the_word_asc_sorts_upward() {
    for (word, order) in [("ASC", SortOrder::Asc), ("DESC", SortOrder::Desc), ("asc", SortOrder::Desc),
        ("", SortOrder::Desc), ("upward", SortOrder::Desc)]
    {
        let mut request = request_for("idx");
        request.sort_order = Some(word.to_string());
        assert_eq!(SearchQuery::from_request(request).unwrap().sort_order, order);
    }
}

#[test]
fn arguments_of_the_plainest_search() {
    let query = SearchQuery::from_request(request_for("idx")).unwrap();
    assert_eq!(
        build(&query).unwrap(),
        words(&["idx", "*", "LIMIT", "0", "20", "SORTBY", "post_timestamp", "DESC"])
    );
}

#[test]
fn empty_free_text_matches_all() {
    let mut request = request_for("idx");
    request.q = Some(String::new());
    let query = SearchQuery::from_request(request).unwrap();
    assert_eq!(build(&query).unwrap()[1], "*");
}

#[test]
fn free_text_is_one_argument_whatever_it_holds() {
    let mut request = request_for("idx");
    request.q = Some("hello world @title:x".to_string());
    let query = SearchQuery::from_request(request).unwrap();
    let arguments = build(&query).unwrap();
    assert_eq!(arguments[1], "hello world @title:x");
    assert_eq!(arguments.len(), 8);
}

#[test]
fn language_and_range_take_their_places() {
    let mut request = request_for("news");
    request.q = Some("rust".to_string());
    request.offset = Some(40);
    request.limit = Some(10);
    request.language = Some("english".to_string());
    request.sort_by = Some("score".to_string());
    request.sort_order = Some("ASC".to_string());
    request.start_time = Some("2024-01-01 00:00:00".to_string());
    request.end_time = Some("2024-01-02 00:00:00".to_string());
    let query = SearchQuery::from_request(request).unwrap();
    assert_eq!(
        build(&query).unwrap(),
        words(&[
            "news", "rust", "LIMIT", "40", "10", "LANGUAGE", "english", "SORTBY", "score", "ASC",
            "FILTER", "post_timestamp", "1704038400", "1704124800",
        ])
    );
}

#[test]
fn a_single_bound_is_no_range() {
    let mut only_start = request_for("idx");
    only_start.start_time = Some("2024-01-01 00:00:00".to_string());
    let query = SearchQuery::from_request(only_start).unwrap();
    assert_eq!(build(&query).unwrap().len(), 8);

    let mut only_end = request_for("idx");
    only_end.end_time = Some("this is no timestamp".to_string());
    let query = SearchQuery::from_request(only_end).unwrap();
    assert_eq!(build(&query).unwrap().len(), 8);
}

#[test]
fn a_range_with_a_bad_bound_is_refused() {
    let mut bad_start = request_for("idx");
    bad_start.start_time = Some("2024/01/01".to_string());
    bad_start.end_time = Some("2024-01-02 00:00:00".to_string());
    let query = SearchQuery::from_request(bad_start).unwrap();
    assert!(matches!(build(&query), Err(Error::MalformedTimestamp)));

    let mut bad_end = request_for("idx");
    bad_end.start_time = Some("2024-01-01 00:00:00".to_string());
    bad_end.end_time = Some("".to_string());
    let query = SearchQuery::from_request(bad_end).unwrap();
    assert!(matches!(build(&query), Err(Error::MalformedTimestamp)));
}

#[test]
fn a_query_with_an_empty_index_is_refused_before_its_range_is_read() {
    let mut query = SearchQuery::from_request(request_for("idx")).unwrap();
    query.index_name = String::new();
    query.start_time = Some("bad".to_string());
    query.end_time = Some("bad".to_string());
    assert!(matches!(build(&query), Err(Error::MissingIndex)));
}

#[test]
fn negative_numbers_are_written_with_their_sign() {
    let mut request = request_for("idx");
    request.offset = Some(-3);
    request.limit = Some(i64::MIN);
    let query = SearchQuery::from_request(request).unwrap();
    let arguments = build(&query).unwrap();
    assert_eq!(arguments[3], "-3");
    assert_eq!(arguments[4], "-9223372036854775808");
}

#[test]
fn resolved_range_is_written_in_seconds() {
    let query = SearchQuery::from_request(request_for("idx")).unwrap();
    let range = Some((Instant { epoch_seconds: -1 }, Instant { epoch_seconds: i64::MAX }));
    let arguments = search_arguments(&query, range);
    assert_eq!(
        arguments[8..].to_vec(),
        words(&["FILTER", "post_timestamp", "-1", "9223372036854775807"])
    );
}

#[test]
fn the_command_starts_with_its_name() {
    let query = SearchQuery::from_request(request_for("idx")).unwrap();
    let command = search_command(&build(&query).unwrap());
    assert_eq!(
        command,
        words(&["FT.SEARCH", "idx", "*", "LIMIT", "0", "20", "SORTBY", "post_timestamp", "DESC"])
    );
}

#[test]
fn a_range_is_resolved_end_by_end() {
    let mut request = request_for("idx");
    request.start_time = Some("2024-01-01 00:00:00".to_string());
    request.end_time = Some("2024-01-01 08:00:01".to_string());
    let query = SearchQuery::from_request(request).unwrap();
    let (start, end) = resolve_range(&query).unwrap().unwrap();
    assert_eq!(start.epoch_seconds, 1_704_038_400);
    assert_eq!(end.epoch_seconds, 1_704_067_201);
    let plain = SearchQuery::from_request(request_for("idx")).unwrap();
    assert_eq!(resolve_range(&plain).unwrap(), None);
}
