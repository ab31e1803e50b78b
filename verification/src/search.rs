//! The result of a search: the documents of the reply with their place in
//! the whole of what matched.

use vstd::prelude::*;
use crate::error::Error;
use crate::page::{page_of, pages_for, paginate};
use crate::query::SearchQuery;
use crate::reply::{decode, documents_of, hit_count, texts, ReplyValue, SORTED_PAYLOAD_INDEX};
use crate::text::{push_string, push_text, strings};

verus! {

/// What a search hands back.
#[derive(Debug)]
pub struct SearchResult {
    /// The JSON text of each document found, in the order of the reply.
    pub documents: Vec<Vec<u8>>,
    /// The free text that was searched for, as the query gave it.
    pub query: String,
    pub total_hits: u32,
    pub offset: i64,
    pub limit: i64,
    pub page: i128,
    pub total_pages: u32,
    pub processing_time_ms: u128,
}

/// The whole search command for a list of arguments: its name, then they.
pub fn search_command(arguments: &Vec<String>) -> (out: Vec<String>)
    ensures
        strings(out@) == seq!["FT.SEARCH"@] + strings(arguments@),
{
    let mut out: Vec<String> = Vec::new();
    push_text(&mut out, "FT.SEARCH");
    let ghost head = strings(out@);
    let mut i: usize = 0;
    while i < arguments.len()
        invariant
            i <= arguments.len(),
            strings(out@) == head + strings(arguments@).take(i as int),
        decreases arguments.len() - i,
    {
        push_string(&mut out, arguments[i].clone());
        i += 1;
    }
    out
}

/// Makes the result of a search out of the store's reply to it.
///
/// The reply is decoded as one to a sorted search. The page and the page
/// count follow from the window of the query and the hit count of the
/// reply; a query whose page size is zero or less is refused.
pub fn search_result(query: &SearchQuery, raw: &Vec<ReplyValue>, processing_time_ms: u128) -> (r:
    Result<SearchResult, Error>)
    ensures
        r is Err <==> query.limit <= 0,
        r is Err ==> r->Err_0 is InvalidLimit,
        r is Ok ==> ({
            let result = r->Ok_0;
            &&& texts(result.documents@) == documents_of(raw@, SORTED_PAYLOAD_INDEX as int)
            &&& result.query@ == query.free_text@
            &&& result.total_hits == hit_count(raw@)
            &&& result.offset == query.offset
            &&& result.limit == query.limit
            &&& result.page == page_of(query.offset as int, query.limit as int)
            &&& result.total_pages == pages_for(hit_count(raw@) as int, query.limit as int)
            &&& result.processing_time_ms == processing_time_ms
        }),
{
    let hits = decode(raw, SORTED_PAYLOAD_INDEX);
    match paginate(query.offset, query.limit, hits.total_hits) {
        Ok(pagination) => Ok(
            SearchResult {
                documents: hits.documents,
                query: query.free_text.clone(),
                total_hits: hits.total_hits,
                offset: query.offset,
                limit: query.limit,
                page: pagination.page,
                total_pages: pagination.total_pages,
                processing_time_ms,
            },
        ),
        Err(error) => Err(error),
    }
}

} // verus!
