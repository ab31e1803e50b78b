//! Search requests, the queries they stand for, and the arguments of the
//! search command.
//!
//! Of the two ways to restrict a search to a range of dates this module uses
//! one: sorting is always asked for, and the range follows as a trailing
//! `FILTER` argument. The query clause itself never holds the range.

use vstd::prelude::*;
use crate::error::Error;
use crate::text::{decimal, decimal_string, push_string, push_text, same_text, strings};
use crate::time::{
    local_pattern,
    naive_seconds,
    parse_date_time_with_timezone,
    resolved,
    Instant,
    RANGE_OFFSET_HOURS,
};

verus! {

/// A search as it arrives: every part is optional.
#[derive(Debug)]
pub struct SearchRequest {
    pub index: Option<String>,
    pub source: Option<String>,
    pub q: Option<String>,
    pub offset: Option<i64>,
    pub limit: Option<i64>,
    pub start_time: Option<String>,
    pub end_time: Option<String>,
    pub language: Option<String>,
    pub filter_date_by: Option<String>,
    pub sort_by: Option<String>,
    pub sort_order: Option<String>,
}

/// A request to delete documents, by their source or by their keys.
#[derive(Debug)]
pub struct DeleteRequest {
    pub source: Option<String>,
    pub keys: Option<Vec<String>>,
}

/// The direction of a sort.
#[derive(Clone, Copy, Debug, PartialEq, Eq, Structural)]
pub enum SortOrder {
    Asc,
    Desc,
}

/// A search with every default filled in.
#[derive(Debug)]
pub struct SearchQuery {
    pub index_name: String,
    pub free_text: String,
    pub offset: i64,
    pub limit: i64,
    pub language: Option<String>,
    pub sort_field: String,
    pub sort_order: SortOrder,
    pub start_time: Option<String>,
    pub end_time: Option<String>,
    pub filter_field: String,
}

/// The page size of a request that names none.
pub const DEFAULT_LIMIT: i64 = 20;

/// The text of an optional string, or `fallback` where there is none.
pub open spec fn text_or(given: Option<String>, fallback: Seq<char>) -> Seq<char> {
    match given {
        Some(text) => text@,
        None => fallback,
    }
}

/// The text of an optional string, if there is one.
pub open spec fn text_of(given: Option<String>) -> Option<Seq<char>> {
    match given {
        Some(text) => Some(text@),
        None => None,
    }
}

/// The direction that a request asks for: ascending for the word `ASC`,
/// descending for anything else and where nothing is said.
pub open spec fn order_of(given: Option<String>) -> SortOrder {
    match given {
        Some(word) => if word@ == "ASC"@ {
            SortOrder::Asc
        } else {
            SortOrder::Desc
        },
        None => SortOrder::Desc,
    }
}

/// The word that the command uses for a direction.
pub open spec fn order_word(order: SortOrder) -> Seq<char> {
    match order {
        SortOrder::Asc => "ASC"@,
        SortOrder::Desc => "DESC"@,
    }
}

/// The query clause for a free text: the match-all clause `*` for an empty
/// text and for `*` itself, else the text as it stands.
pub open spec fn clause_of(free_text: Seq<char>) -> Seq<char> {
    if free_text.len() == 0 || free_text == "*"@ {
        "*"@
    } else {
        free_text
    }
}

/// Whether a query restricts its results to a range of dates: only where it
/// gives both ends. A single end is no restriction.
pub open spec fn has_range(query: SearchQuery) -> bool {
    query.start_time is Some && query.end_time is Some
}

/// The instant, in seconds since the epoch, that one end of a range names,
/// or `None` where its text is no local timestamp.
pub open spec fn range_bound(text: Seq<char>) -> Option<int> {
    resolved(naive_seconds(text, local_pattern()), RANGE_OFFSET_HOURS as int)
}

/// The arguments of the search command, in the order that the store asks
/// for: index, query clause, window, language where one is given, sorting,
/// and the range where there is one, as a pair of seconds since the epoch.
pub open spec fn arguments_of(query: SearchQuery, range: Option<(int, int)>) -> Seq<Seq<char>> {
    seq![
        query.index_name@,
        clause_of(query.free_text@),
        "LIMIT"@,
        decimal(query.offset as int),
        decimal(query.limit as int),
    ] + (match query.language {
        Some(language) => seq!["LANGUAGE"@, language@],
        None => Seq::empty(),
    }) + seq!["SORTBY"@, query.sort_field@, order_word(query.sort_order)] + (match range {
        Some((start, end)) => seq!["FILTER"@, query.filter_field@, decimal(start), decimal(end)],
        None => Seq::empty(),
    })
}

impl SearchQuery {
    /// Fills in the defaults of a request: match-all text, the first page of
    /// twenty, descending order by `post_timestamp`, which is also the field
    /// that a range of dates restricts. A request without an index, or with
    /// an empty one, is refused.
    pub fn from_request(req: SearchRequest) -> (r: Result<SearchQuery, Error>)
        ensures
            r is Err <==> (req.index is None || req.index->Some_0@.len() == 0),
            r is Err ==> r->Err_0 is MissingIndex,
            r is Ok ==> ({
                let query = r->Ok_0;
                &&& query.index_name@ == req.index->Some_0@
                &&& query.free_text@ == text_or(req.q, "*"@)
                &&& query.offset == (match req.offset {
                    Some(offset) => offset,
                    None => 0,
                })
                &&& query.limit == (match req.limit {
                    Some(limit) => limit,
                    None => DEFAULT_LIMIT,
                })
                &&& text_of(query.language) == text_of(req.language)
                &&& query.sort_field@ == text_or(req.sort_by, "post_timestamp"@)
                &&& query.sort_order == order_of(req.sort_order)
                &&& text_of(query.start_time) == text_of(req.start_time)
                &&& text_of(query.end_time) == text_of(req.end_time)
                &&& query.filter_field@ == text_or(req.filter_date_by, "post_timestamp"@)
            }),
    {
        let index_name = match req.index {
            Some(name) => name,
            None => {
                return Err(Error::MissingIndex);
            },
        };
        if index_name.as_str().is_empty() {
            return Err(Error::MissingIndex);
        }
        let free_text = match req.q {
            Some(text) => text,
            None => String::from_str("*"),
        };
        let offset: i64 = match req.offset {
            Some(offset) => offset,
            None => 0,
        };
        let limit: i64 = match req.limit {
            Some(limit) => limit,
            None => DEFAULT_LIMIT,
        };
        let sort_field = match req.sort_by {
            Some(field) => field,
            None => String::from_str("post_timestamp"),
        };
        let sort_order = match &req.sort_order {
            Some(word) => if same_text(word.as_str(), "ASC") {
                SortOrder::Asc
            } else {
                SortOrder::Desc
            },
            None => SortOrder::Desc,
        };
        let filter_field = match req.filter_date_by {
            Some(field) => field,
            None => String::from_str("post_timestamp"),
        };
        Ok(
            SearchQuery {
                index_name,
                free_text,
                offset,
                limit,
                language: req.language,
                sort_field,
                sort_order,
                start_time: req.start_time,
                end_time: req.end_time,
                filter_field,
            },
        )
    }
}

/// Lists the arguments of the search command for a query whose range, if it
/// has one, is already resolved to two instants.
pub fn search_arguments(query: &SearchQuery, range: Option<(Instant, Instant)>) -> (out: Vec<String>)
    ensures
        strings(out@) == arguments_of(*query, seconds_of(range)),
{
    let mut out: Vec<String> = Vec::new();
    push_string(&mut out, query.index_name.clone());
    if query.free_text.as_str().is_empty() || same_text(query.free_text.as_str(), "*") {
        push_text(&mut out, "*");
    } else {
        push_string(&mut out, query.free_text.clone());
    }
    push_text(&mut out, "LIMIT");
    push_string(&mut out, decimal_string(query.offset));
    push_string(&mut out, decimal_string(query.limit));
    if let Some(language) = &query.language {
        push_text(&mut out, "LANGUAGE");
        push_string(&mut out, language.clone());
    }
    push_text(&mut out, "SORTBY");
    push_string(&mut out, query.sort_field.clone());
    match query.sort_order {
        SortOrder::Asc => {
            push_text(&mut out, "ASC");
        },
        SortOrder::Desc => {
            push_text(&mut out, "DESC");
        },
    }
    if let Some((start, end)) = range {
        push_text(&mut out, "FILTER");
        push_string(&mut out, query.filter_field.clone());
        push_string(&mut out, decimal_string(start.epoch_seconds));
        push_string(&mut out, decimal_string(end.epoch_seconds));
    }
    out
}

/// The range of a query, resolved: `Some(None)` where the query has no
/// range, `Some(Some(..))` with the seconds of both ends where it has one,
/// and `None` where an end of it is no local timestamp.
pub open spec fn range_of(query: SearchQuery) -> Option<Option<(int, int)>> {
    if has_range(query) {
        match (range_bound(query.start_time->Some_0@), range_bound(query.end_time->Some_0@)) {
            (Some(start), Some(end)) => Some(Some((start, end))),
            _ => None,
        }
    } else {
        Some(None)
    }
}

/// The seconds of both ends of a resolved range.
pub open spec fn seconds_of(range: Option<(Instant, Instant)>) -> Option<(int, int)> {
    match range {
        Some((start, end)) => Some((start.epoch_seconds as int, end.epoch_seconds as int)),
        None => None,
    }
}

/// Resolves the range of a query: both ends are read as local timestamps
/// eight hours east of UTC. A query that gives one end only has no range.
pub fn resolve_range(query: &SearchQuery) -> (r: Result<Option<(Instant, Instant)>, Error>)
    ensures
        r is Ok <==> range_of(*query) is Some,
        r is Ok ==> seconds_of(r->Ok_0) == range_of(*query)->Some_0,
        r is Err ==> r->Err_0 is MalformedTimestamp,
{
    match (&query.start_time, &query.end_time) {
        (Some(start_text), Some(end_text)) => {
            let start = match parse_date_time_with_timezone(
                start_text.as_str(),
                RANGE_OFFSET_HOURS,
            ) {
                Ok(instant) => instant,
                Err(_) => {
                    return Err(Error::MalformedTimestamp);
                },
            };
            let end = match parse_date_time_with_timezone(end_text.as_str(), RANGE_OFFSET_HOURS) {
                Ok(instant) => instant,
                Err(_) => {
                    return Err(Error::MalformedTimestamp);
                },
            };
            Ok(Some((start, end)))
        },
        _ => Ok(None),
    }
}

/// Builds the arguments of the search command for a query.
///
/// A query without an index is refused, and so is one whose range has an
/// end that is no local timestamp.
pub fn build(query: &SearchQuery) -> (r: Result<Vec<String>, Error>)
    ensures
        r is Ok <==> query.index_name@.len() > 0 && range_of(*query) is Some,
        r is Ok ==> strings(r->Ok_0@) == arguments_of(*query, range_of(*query)->Some_0),
        r is Err && query.index_name@.len() == 0 ==> r->Err_0 is MissingIndex,
        r is Err && query.index_name@.len() > 0 ==> r->Err_0 is MalformedTimestamp,
{
    if query.index_name.as_str().is_empty() {
        return Err(Error::MissingIndex);
    }
    match resolve_range(query) {
        Ok(range) => Ok(search_arguments(query, range)),
        Err(error) => Err(error),
    }
}

} // verus!
