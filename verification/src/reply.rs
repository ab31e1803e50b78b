//! The values that the store answers with, and the decoding of a search
//! reply into documents and a hit count.

use vstd::prelude::*;

verus! {

/// One value of a reply. A reply is positional: what a value means follows
/// from where it stands.
#[derive(Debug)]
pub enum ReplyValue {
    /// A signed integer.
    Integer(i64),
    /// A byte string.
    Text(Vec<u8>),
    /// A nested reply.
    List(Vec<ReplyValue>),
    /// A status line.
    Status(String),
    /// No value.
    Absent,
}

/// The documents and the hit count that a search reply carries.
#[derive(Debug)]
pub struct SearchHits {
    /// The JSON text of each document, in the order of the reply.
    pub documents: Vec<Vec<u8>>,
    /// How many documents matched in all, on every page together.
    pub total_hits: u32,
}

/// The position of the JSON payload in a field array when the search asked
/// for sorted results: the sort field and its value come first, then the
/// payload's path.
pub const SORTED_PAYLOAD_INDEX: usize = 3;

/// The position of the JSON payload in a field array that holds only the
/// payload's path and the payload.
pub const PLAIN_PAYLOAD_INDEX: usize = 1;

/// Whether `bytes` is the text of one JSON value, as `serde_json` reads it.
pub uninterp spec fn json_parses(bytes: Seq<u8>) -> bool;

/// Calls `serde_json::from_slice` for a `serde_json::Value` and reports
/// whether it succeeded. The contract claims only that the outcome is
/// determined by the bytes.
#[verifier::external_body]
fn parses_as_json(bytes: &[u8]) -> (ok: bool)
    ensures
        ok == json_parses(bytes@),
{
    serde_json::from_slice::<serde_json::Value>(bytes).is_ok()
}

/// The byte strings of a sequence of byte vectors.
pub open spec fn texts(items: Seq<Vec<u8>>) -> Seq<Seq<u8>> {
    items.map_values(|item: Vec<u8>| item@)
}

/// The low 32 bits of `n`, read as an unsigned number.
pub open spec fn low_word(n: i64) -> u32 {
    (n & 0xffff_ffff) as u32
}

/// The hit count of a reply: the low 32 bits of its first element where that
/// is an integer, and zero for anything else or for an empty reply.
pub open spec fn hit_count(raw: Seq<ReplyValue>) -> u32 {
    if raw.len() > 0 {
        match raw[0] {
            ReplyValue::Integer(n) => low_word(n),
            _ => 0,
        }
    } else {
        0
    }
}

/// The byte string at position `at` of a field array, if `item` is a list
/// that long and holds a byte string there.
pub open spec fn payload_at(item: ReplyValue, at: int) -> Option<Seq<u8>> {
    match item {
        ReplyValue::List(fields) => if 0 <= at < fields@.len() {
            match fields@[at] {
                ReplyValue::Text(bytes) => Some(bytes@),
                _ => None,
            }
        } else {
            None
        },
        _ => None,
    }
}

/// Whether position `i` of a reply is one where a field array stands: the
/// even positions from the third element on. The odd ones hold keys.
pub open spec fn is_payload_position(i: int) -> bool {
    i >= 2 && i % 2 == 0
}

/// The payloads found among the first `n` elements of a reply, in order.
pub open spec fn payloads_in(raw: Seq<ReplyValue>, at: int, n: nat) -> Seq<Seq<u8>>
    decreases n,
{
    if n == 0 {
        Seq::empty()
    } else {
        let before = payloads_in(raw, at, (n - 1) as nat);
        let i = n - 1;
        if is_payload_position(i) && payload_at(raw[i], at) is Some {
            before.push(payload_at(raw[i], at)->Some_0)
        } else {
            before
        }
    }
}

/// The payloads among the first `n` of `payloads` that are JSON texts.
pub open spec fn json_among(payloads: Seq<Seq<u8>>, n: nat) -> Seq<Seq<u8>>
    decreases n,
{
    if n == 0 {
        Seq::empty()
    } else {
        let before = json_among(payloads, (n - 1) as nat);
        if json_parses(payloads[n - 1]) {
            before.push(payloads[n - 1])
        } else {
            before
        }
    }
}

/// The documents of a search reply: nothing where the hit count is zero,
/// else every payload that is a JSON text, in order.
pub open spec fn documents_of(raw: Seq<ReplyValue>, at: int) -> Seq<Seq<u8>> {
    if hit_count(raw) == 0 {
        Seq::empty()
    } else {
        let payloads = payloads_in(raw, at, raw.len());
        json_among(payloads, payloads.len())
    }
}

/// Reads the hit count off the head of a reply.
pub fn total_hits(raw: &Vec<ReplyValue>) -> (total: u32)
    ensures
        total == hit_count(raw@),
{
    if raw.len() == 0 {
        return 0;
    }
    match &raw[0] {
        ReplyValue::Integer(n) => {
            let n: i64 = *n;
            let low: i64 = n & 0xffff_ffff;
            assert(0 <= n & 0xffff_ffff <= 0xffff_ffff) by (bit_vector);
            low as u32
        },
        _ => 0,
    }
}

/// Collects the byte strings that stand at position `document_value_index`
/// of the field arrays of a reply, in order. Elements that are no list, too
/// short, or hold something else there are passed over.
pub fn candidate_payloads(raw: &Vec<ReplyValue>, document_value_index: usize) -> (out: Vec<Vec<u8>>)
    ensures
        texts(out@) == payloads_in(raw@, document_value_index as int, raw@.len()),
{
    let mut out: Vec<Vec<u8>> = Vec::new();
    let mut i: usize = 0;
    while i < raw.len()
        invariant
            i <= raw.len(),
            texts(out@) == payloads_in(raw@, document_value_index as int, i as nat),
        decreases raw.len() - i,
    {
        if i >= 2 && i % 2 == 0 {
            match &raw[i] {
                ReplyValue::List(fields) => {
                    if document_value_index < fields.len() {
                        match &fields[document_value_index] {
                            ReplyValue::Text(bytes) => {
                                out.push(bytes.clone());
                            },
                            _ => {},
                        }
                    }
                },
                _ => {},
            }
        }
        i += 1;
    }
    out
}

/// Keeps the payloads that are JSON texts, in order.
pub fn keep_json(payloads: Vec<Vec<u8>>) -> (out: Vec<Vec<u8>>)
    ensures
        texts(out@) == json_among(texts(payloads@), payloads@.len()),
{
    let mut out: Vec<Vec<u8>> = Vec::new();
    let mut i: usize = 0;
    while i < payloads.len()
        invariant
            i <= payloads.len(),
            texts(out@) == json_among(texts(payloads@), i as nat),
        decreases payloads.len() - i,
    {
        if parses_as_json(payloads[i].as_slice()) {
            out.push(payloads[i].clone());
        }
        i += 1;
    }
    out
}

/// Decodes a search reply.
///
/// The first element is the hit count. After it keys and field arrays
/// alternate; the JSON payload of a document stands at position
/// `document_value_index` of its field array. A field array without a byte
/// string there, or with one that is no JSON text, yields no document and
/// leaves the hit count as it is. A hit count of zero yields no documents.
pub fn decode(raw: &Vec<ReplyValue>, document_value_index: usize) -> (hits: SearchHits)
    ensures
        hits.total_hits == hit_count(raw@),
        texts(hits.documents@) == documents_of(raw@, document_value_index as int),
{
    let total = total_hits(raw);
    if total == 0 {
        let documents: Vec<Vec<u8>> = Vec::new();
        return SearchHits { documents, total_hits: total };
    }
    let payloads = candidate_payloads(raw, document_value_index);
    let documents = keep_json(payloads);
    SearchHits { documents, total_hits: total }
}

/// Whether `raw` is a search reply that carries exactly `docs`: the count,
/// then for each document a key and a field array with the document at
/// position `at`.
pub open spec fn is_reply_of(raw: Seq<ReplyValue>, docs: Seq<Seq<u8>>, at: int) -> bool {
    &&& raw.len() == 1 + 2 * docs.len()
    &&& raw[0] matches ReplyValue::Integer(n) && n == docs.len()
    &&& forall|k: int|
        0 <= k < docs.len() ==> payload_at(raw[2 + 2 * k], at) == Some(#[trigger] docs[k])
}

/// Whether `key` and `fields` are how one document is laid out: an empty
/// key, and a field array of `at` absent values and then the document.
pub open spec fn is_laid_out(key: ReplyValue, fields: ReplyValue, document: Seq<u8>, at: int) -> bool {
    &&& key matches ReplyValue::Text(bytes) && bytes@.len() == 0
    &&& fields matches ReplyValue::List(items) && items@.len() == at + 1 && (forall|j: int|
        0 <= j < at ==> #[trigger] items@[j] is Absent) && (items@[at] matches ReplyValue::Text(
        bytes,
    ) && bytes@ == document)
}

/// Lays documents out as the store would answer a search that found exactly
/// them: the count, then for each document an empty key and a field array
/// that holds the document at position `document_value_index`, after that
/// many absent values.
pub fn encode_as_reply(documents: &Vec<Vec<u8>>, document_value_index: usize) -> (raw: Vec<
    ReplyValue,
>)
    requires
        documents@.len() <= u32::MAX,
    ensures
        is_reply_of(raw@, texts(documents@), document_value_index as int),
        forall|k: int|
            0 <= k < documents@.len() ==> is_laid_out(
                raw@[1 + 2 * k],
                raw@[2 + 2 * k],
                #[trigger] documents@[k]@,
                document_value_index as int,
            ),
{
    let mut raw: Vec<ReplyValue> = Vec::new();
    raw.push(ReplyValue::Integer(documents.len() as i64));
    let mut i: usize = 0;
    while i < documents.len()
        invariant
            i <= documents.len(),
            documents@.len() <= u32::MAX,
            raw@.len() == 1 + 2 * i,
            raw@[0] matches ReplyValue::Integer(n) && n == documents@.len(),
            forall|k: int|
                0 <= k < i ==> payload_at(raw@[2 + 2 * k], document_value_index as int) == Some(
                    #[trigger] texts(documents@)[k],
                ),
            forall|k: int|
                0 <= k < i ==> is_laid_out(
                    raw@[1 + 2 * k],
                    raw@[2 + 2 * k],
                    #[trigger] documents@[k]@,
                    document_value_index as int,
                ),
        decreases documents.len() - i,
    {
        let mut fields: Vec<ReplyValue> = Vec::new();
        let mut j: usize = 0;
        while j < document_value_index
            invariant
                j <= document_value_index,
                fields@.len() == j,
                forall|m: int| 0 <= m < j ==> #[trigger] fields@[m] is Absent,
            decreases document_value_index - j,
        {
            fields.push(ReplyValue::Absent);
            j += 1;
        }
        fields.push(ReplyValue::Text(documents[i].clone()));
        raw.push(ReplyValue::Text(Vec::new()));
        raw.push(ReplyValue::List(fields));
        i += 1;
    }
    raw
}

proof fn lemma_payloads_of_reply(raw: Seq<ReplyValue>, docs: Seq<Seq<u8>>, at: int, k: nat)
    requires
        is_reply_of(raw, docs, at),
        k <= docs.len(),
    ensures
        payloads_in(raw, at, 1 + 2 * k) == docs.take(k as int),
    decreases k,
{
    if k == 0 {
        assert(payloads_in(raw, at, 0) =~= Seq::<Seq<u8>>::empty());
    } else {
        let j: int = k - 1;
        lemma_payloads_of_reply(raw, docs, at, j as nat);
        assert(payloads_in(raw, at, (2 + 2 * j) as nat) == payloads_in(raw, at, (1 + 2 * j) as nat));
        assert(payload_at(raw[2 + 2 * j], at) == Some(docs[j]));
    }
}

proof fn lemma_json_among_all(payloads: Seq<Seq<u8>>, n: nat)
    requires
        n <= payloads.len(),
        forall|k: int| 0 <= k < payloads.len() ==> json_parses(#[trigger] payloads[k]),
    ensures
        json_among(payloads, n) == payloads.take(n as int),
    decreases n,
{
    if n > 0 {
        lemma_json_among_all(payloads, (n - 1) as nat);
    }
}

/// Decoding recovers what was laid out: a reply that carries a sequence of
/// JSON texts, no more of them than a hit count can number, decodes to that
/// sequence and to its length as the hit count.
pub proof fn lemma_decode_recovers_documents(raw: Seq<ReplyValue>, docs: Seq<Seq<u8>>, at: int)
    requires
        is_reply_of(raw, docs, at),
        docs.len() <= u32::MAX,
        forall|k: int| 0 <= k < docs.len() ==> json_parses(#[trigger] docs[k]),
    ensures
        hit_count(raw) == docs.len(),
        documents_of(raw, at) == docs,
{
    lemma_low_word_of_count(raw[0]->Integer_0);
    if docs.len() > 0 {
        lemma_payloads_of_reply(raw, docs, at, docs.len());
        assert(docs.take(docs.len() as int) =~= docs);
        lemma_json_among_all(docs, docs.len());
    }
}

/// A count that fits in 32 bits is its own low word.
pub proof fn lemma_low_word_of_count(n: i64)
    requires
        0 <= n <= u32::MAX,
    ensures
        low_word(n) == n,
{
    assert(n & 0xffff_ffff == n) by (bit_vector)
        requires
            0 <= n <= 0xffff_ffff,
    ;
}

/// Dropped payloads leave the hit count alone: two replies with the same
/// first element have the same hit count, whatever follows it.
pub proof fn lemma_hit_count_ignores_payloads(a: Seq<ReplyValue>, b: Seq<ReplyValue>)
    requires
        a.len() > 0,
        b.len() > 0,
        a[0] == b[0],
    ensures
        hit_count(a) == hit_count(b),
{
}

} // verus!
