//! The store's reports on itself: the positional reply that describes an
//! index, and the text block that describes the server.

use vstd::prelude::*;
use vstd::utf8::{decode_utf8, valid_utf8};
use crate::reply::ReplyValue;
use crate::text::{chars_of, push_text, string_of_range, strings};

verus! {

/// One element of the description of an index, by its kind.
#[derive(Debug)]
pub enum InfoValue {
    /// An integer.
    Number(i64),
    /// A byte string or a status line, as text. `None` stands for a byte
    /// string that is no UTF-8.
    Text(Option<String>),
    /// The byte strings of a nested reply, each as `Text` holds one.
    Texts(Vec<Option<String>>),
}

/// `String::from_utf8` turns bytes into the text that they encode, and
/// refuses bytes that are no UTF-8.
#[verifier::external_body]
fn utf8_text(bytes: &Vec<u8>) -> (text: Option<String>)
    ensures
        text is Some <==> valid_utf8(bytes@),
        text is Some ==> text->Some_0@ == decode_utf8(bytes@),
{
    String::from_utf8(bytes.clone()).ok()
}

/// The text that bytes encode, or `None` where they are no UTF-8.
pub open spec fn text_in(bytes: Seq<u8>) -> Option<Seq<char>> {
    if valid_utf8(bytes) {
        Some(decode_utf8(bytes))
    } else {
        None
    }
}

/// The text of an optional string.
pub open spec fn shown(text: Option<String>) -> Option<Seq<char>> {
    match text {
        Some(text) => Some(text@),
        None => None,
    }
}

/// The texts of a sequence of optional strings.
pub open spec fn all_shown(items: Seq<Option<String>>) -> Seq<Option<Seq<char>>> {
    items.map_values(|item: Option<String>| shown(item))
}

/// The texts of the byte strings among the first `n` of `items`, in order.
/// Whatever is no byte string is passed over.
pub open spec fn inner_texts(items: Seq<ReplyValue>, n: nat) -> Seq<Option<Seq<char>>>
    decreases n,
{
    if n == 0 {
        Seq::empty()
    } else {
        let before = inner_texts(items, (n - 1) as nat);
        match items[n - 1] {
            ReplyValue::Text(bytes) => before.push(text_in(bytes@)),
            _ => before,
        }
    }
}

/// What a normalized element looks like, with its strings as texts.
pub enum InfoShape {
    Number(int),
    Text(Option<Seq<char>>),
    Texts(Seq<Option<Seq<char>>>),
}

/// The shape of a normalized element.
pub open spec fn shape_of(value: InfoValue) -> InfoShape {
    match value {
        InfoValue::Number(n) => InfoShape::Number(n as int),
        InfoValue::Text(text) => InfoShape::Text(shown(text)),
        InfoValue::Texts(items) => InfoShape::Texts(all_shown(items@)),
    }
}

/// The shapes of a sequence of normalized elements.
pub open spec fn shapes(values: Seq<InfoValue>) -> Seq<InfoShape> {
    values.map_values(|value: InfoValue| shape_of(value))
}

/// What one element of the reply becomes: an integer a number, a byte string
/// and a status line a text, a nested reply the texts of its byte strings,
/// and an absent value nothing.
pub open spec fn normal_shape(item: ReplyValue) -> Option<InfoShape> {
    match item {
        ReplyValue::Integer(n) => Some(InfoShape::Number(n as int)),
        ReplyValue::Text(bytes) => Some(InfoShape::Text(text_in(bytes@))),
        ReplyValue::List(items) => Some(InfoShape::Texts(inner_texts(items@, items@.len()))),
        ReplyValue::Status(line) => Some(InfoShape::Text(Some(line@))),
        ReplyValue::Absent => None,
    }
}

/// The normalized form of the first `n` elements of a reply, in order.
pub open spec fn normal_shapes(raw: Seq<ReplyValue>, n: nat) -> Seq<InfoShape>
    decreases n,
{
    if n == 0 {
        Seq::empty()
    } else {
        let before = normal_shapes(raw, (n - 1) as nat);
        match normal_shape(raw[n - 1]) {
            Some(shape) => before.push(shape),
            None => before,
        }
    }
}

fn texts_within(items: &Vec<ReplyValue>) -> (out: Vec<Option<String>>)
    ensures
        all_shown(out@) == inner_texts(items@, items@.len()),
{
    let mut out: Vec<Option<String>> = Vec::new();
    let mut i: usize = 0;
    while i < items.len()
        invariant
            i <= items.len(),
            all_shown(out@) == inner_texts(items@, i as nat),
        decreases items.len() - i,
    {
        match &items[i] {
            ReplyValue::Text(bytes) => {
                let text = utf8_text(bytes);
                out.push(text);
            },
            _ => {},
        }
        i += 1;
    }
    out
}

/// Normalizes the description of an index, element by element.
///
/// Each element is tagged by its kind. Absent values are left out, at the
/// top and inside nested replies; inside a nested reply so is everything
/// that is no byte string.
pub fn normalize_info(raw: &Vec<ReplyValue>) -> (out: Vec<InfoValue>)
    ensures
        shapes(out@) == normal_shapes(raw@, raw@.len()),
{
    let mut out: Vec<InfoValue> = Vec::new();
    let mut i: usize = 0;
    while i < raw.len()
        invariant
            i <= raw.len(),
            shapes(out@) == normal_shapes(raw@, i as nat),
        decreases raw.len() - i,
    {
        match &raw[i] {
            ReplyValue::Integer(n) => {
                out.push(InfoValue::Number(*n));
            },
            ReplyValue::Text(bytes) => {
                let text = utf8_text(bytes);
                out.push(InfoValue::Text(text));
            },
            ReplyValue::List(items) => {
                let inner = texts_within(items);
                out.push(InfoValue::Texts(inner));
            },
            ReplyValue::Status(line) => {
                out.push(InfoValue::Text(Some(line.clone())));
            },
            ReplyValue::Absent => {},
        }
        i += 1;
    }
    out
}

/// The command that asks for the description of the server.
pub fn server_info_command() -> (out: Vec<String>)
    ensures
        strings(out@) == seq!["INFO"@],
{
    let mut out: Vec<String> = Vec::new();
    push_text(&mut out, "INFO");
    out
}

/// The command that asks for the description of an index.
pub fn index_info_command(index: &str) -> (out: Vec<String>)
    ensures
        strings(out@) == seq!["FT.INFO"@, index@],
{
    let mut out: Vec<String> = Vec::new();
    push_text(&mut out, "FT.INFO");
    push_text(&mut out, index);
    out
}

/// One line of the server's description: a key and what it is set to.
#[derive(Debug)]
pub struct InfoEntry {
    pub key: String,
    pub value: String,
}

/// How many characters stand between position `from` and the next `stop`, or
/// the end of the text where none follows.
pub open spec fn run_length(text: Seq<char>, from: int, stop: char) -> nat
    decreases text.len() - from,
{
    if from < 0 || from >= text.len() || text[from] == stop {
        0
    } else {
        1 + run_length(text, from + 1, stop)
    }
}

/// A run ends within the text.
pub proof fn lemma_run_within(text: Seq<char>, from: int, stop: char)
    requires
        0 <= from <= text.len(),
    ensures
        from + run_length(text, from, stop) <= text.len(),
    decreases text.len() - from,
{
    if from < text.len() && text[from] != stop {
        lemma_run_within(text, from + 1, stop);
    }
}

/// The line that starts at position `from`: what stands before the next line
/// feed, without the carriage return that may precede it. A last line that
/// no line feed ends is taken as it stands.
pub open spec fn line_at(text: Seq<char>, from: int) -> Seq<char> {
    let end = from + run_length(text, from, '\n');
    if end < text.len() && from < end && text[end - 1] == '\r' {
        text.subrange(from, end - 1)
    } else {
        text.subrange(from, end)
    }
}

/// The key and the value that a line sets: what stands before its first
/// colon, and what stands after it. Empty lines, comments, which start with
/// `#`, and lines without a colon set nothing.
pub open spec fn entry_of(line: Seq<char>) -> Option<(Seq<char>, Seq<char>)> {
    if line.len() == 0 || line[0] == '#' {
        None
    } else {
        let colon = run_length(line, 0, ':') as int;
        if colon < line.len() {
            Some((line.subrange(0, colon), line.subrange(colon + 1, line.len() as int)))
        } else {
            None
        }
    }
}

/// What is known after the lines from position `from` on are read, where
/// `known` was known before. A key that is set again takes its last value.
pub open spec fn info_from(
    text: Seq<char>,
    from: int,
    known: Map<Seq<char>, Seq<char>>,
) -> Map<Seq<char>, Seq<char>>
    decreases text.len() + 1 - from,
{
    if from < 0 || from >= text.len() {
        known
    } else {
        let next = match entry_of(line_at(text, from)) {
            Some((key, value)) => known.insert(key, value),
            None => known,
        };
        proof {
            lemma_run_within(text, from, '\n');
        }
        info_from(text, from + run_length(text, from, '\n') + 1, next)
    }
}

/// The mapping that the server's description states.
pub open spec fn info_map(text: Seq<char>) -> Map<Seq<char>, Seq<char>> {
    info_from(text, 0, Map::empty())
}

/// Whether `entries` lists exactly what `known` maps, each key once.
pub open spec fn lists(entries: Seq<InfoEntry>, known: Map<Seq<char>, Seq<char>>) -> bool {
    &&& forall|j: int|
        0 <= j < entries.len() ==> known.contains_key((#[trigger] entries[j]).key@)
            && known[entries[j].key@] == entries[j].value@
    &&& forall|key: Seq<char>| #[trigger]
        known.contains_key(key) ==> exists|j: int|
            0 <= j < entries.len() && (#[trigger] entries[j]).key@ == key
    &&& forall|i: int, j: int|
        0 <= i < j < entries.len() ==> (#[trigger] entries[i]).key@ != (#[trigger] entries[j]).key@
}

fn run_end(chars: &Vec<char>, from: usize, stop: char) -> (end: usize)
    requires
        from <= chars.len(),
    ensures
        end == from + run_length(chars@, from as int, stop),
        end <= chars.len(),
{
    let mut i: usize = from;
    while i < chars.len() && chars[i] != stop
        invariant
            from <= i <= chars.len(),
            run_length(chars@, from as int, stop) == (i - from) + run_length(chars@, i as int, stop),
        decreases chars.len() - i,
    {
        i += 1;
    }
    i
}

fn record(out: &mut Vec<InfoEntry>, key: String, value: String, Ghost(known): Ghost<
    Map<Seq<char>, Seq<char>>,
>)
    requires
        lists(old(out)@, known),
    ensures
        lists(final(out)@, known.insert(key@, value@)),
{
    let mut j: usize = 0;
    while j < out.len()
        invariant
            j <= out.len(),
            out@ == old(out)@,
            lists(out@, known),
            forall|k: int| 0 <= k < j ==> (#[trigger] out@[k]).key@ != key@,
        decreases out.len() - j,
    {
        if out[j].key == key {
            let ghost before = out@;
            let ghost next = known.insert(key@, value@);
            out.set(j, InfoEntry { key, value });
            proof {
                assert forall|k: int| 0 <= k < out@.len() implies next.contains_key(
                    (#[trigger] out@[k]).key@,
                ) && next[out@[k].key@] == out@[k].value@ by {
                    if k != j {
                        assert(before[k].key@ != before[j as int].key@);
                        assert(out@[k] == before[k]);
                    }
                }
                assert forall|name: Seq<char>| #[trigger] next.contains_key(name) implies exists|
                    k: int,
                |
                    0 <= k < out@.len() && (#[trigger] out@[k]).key@ == name by {
                    if name == key@ {
                        assert(out@[j as int].key@ == name);
                    } else {
                        assert(known.contains_key(name));
                        let k = choose|k: int|
                            0 <= k < before.len() && (#[trigger] before[k]).key@ == name;
                        assert(out@[k] == before[k]);
                        assert(out@[k].key@ == name);
                    }
                }
                assert forall|a: int, b: int| 0 <= a < b < out@.len() implies (#[trigger] out@[a]).key@
                    != (#[trigger] out@[b]).key@ by {
                    assert(before[a].key@ != before[b].key@);
                    assert(out@[a].key@ == before[a].key@);
                    assert(out@[b].key@ == before[b].key@);
                }
            }
            return ;
        }
        j += 1;
    }
    let ghost before = out@;
    let ghost next = known.insert(key@, value@);
    out.push(InfoEntry { key, value });
    proof {
        let last = out@.len() - 1;
        assert forall|k: int| 0 <= k < out@.len() implies next.contains_key(
            (#[trigger] out@[k]).key@,
        ) && next[out@[k].key@] == out@[k].value@ by {
            if k < last {
                assert(out@[k] == before[k]);
                assert(before[k].key@ != key@);
            }
        }
        assert forall|name: Seq<char>| #[trigger] next.contains_key(name) implies exists|k: int|
            0 <= k < out@.len() && (#[trigger] out@[k]).key@ == name by {
            if name == key@ {
                assert(out@[last].key@ == name);
            } else {
                assert(known.contains_key(name));
                let k = choose|k: int| 0 <= k < before.len() && (#[trigger] before[k]).key@ == name;
                assert(out@[k] == before[k]);
                assert(out@[k].key@ == name);
            }
        }
        assert forall|a: int, b: int| 0 <= a < b < out@.len() implies (#[trigger] out@[a]).key@
            != (#[trigger] out@[b]).key@ by {
            assert(out@[a] == before[a]);
            if b < last {
                assert(out@[b] == before[b]);
            }
        }
    }
}

/// Reads the server's description: a block of lines, each `key:value`.
///
/// Lines end with a line feed, with or without a carriage return before it.
/// Empty lines, comments and lines without a colon are passed over. The
/// result lists each key once, with the value of its last line.
pub fn parse_info(text: &str) -> (out: Vec<InfoEntry>)
    ensures
        lists(out@, info_map(text@)),
{
    let chars = chars_of(text);
    let mut out: Vec<InfoEntry> = Vec::new();
    let ghost mut known: Map<Seq<char>, Seq<char>> = Map::empty();
    let mut start: usize = 0;
    while start < chars.len()
        invariant
            chars@ == text@,
            start <= chars.len(),
            lists(out@, known),
            info_from(text@, start as int, known) == info_map(text@),
        decreases chars.len() - start,
    {
        let end = run_end(&chars, start, '\n');
        let stop: usize = if end < chars.len() && start < end && chars[end - 1] == '\r' {
            end - 1
        } else {
            end
        };
        assert(chars@.subrange(start as int, stop as int) == line_at(text@, start as int));
        let ghost line = line_at(text@, start as int);
        let ghost before = known;
        if stop > start && chars[start] != '#' {
            let colon = run_end_within(&chars, start, stop, Ghost(line));
            if colon < stop {
                let key = string_of_range(&chars, start, colon);
                let value = string_of_range(&chars, colon + 1, stop);
                proof {
                    assert(key@ =~= line.subrange(0, colon - start));
                    assert(value@ =~= line.subrange(colon - start + 1, line.len() as int));
                }
                record(&mut out, key, value, Ghost(known));
                proof {
                    known = known.insert(key@, value@);
                }
            }
        }
        proof {
            assert(known == match entry_of(line) {
                Some((key, value)) => before.insert(key, value),
                None => before,
            });
        }
        proof {
            let after = info_from(text@, end + 1, known);
            assert(info_from(text@, start as int, before) == after);
            if end >= chars.len() {
                assert(after == known);
                assert(info_from(text@, end as int, known) == known);
            }
        }
        if end < chars.len() {
            start = end + 1;
        } else {
            start = end;
        }
    }
    out
}

fn run_end_within(chars: &Vec<char>, from: usize, to: usize, Ghost(line): Ghost<Seq<char>>) -> (end:
    usize)
    requires
        from <= to <= chars.len(),
        line == chars@.subrange(from as int, to as int),
    ensures
        from <= end <= to,
        end - from == run_length(line, 0, ':'),
{
    let mut i: usize = from;
    while i < to && chars[i] != ':'
        invariant
            from <= i <= to,
            to <= chars.len(),
            line == chars@.subrange(from as int, to as int),
            run_length(line, 0, ':') == (i - from) + run_length(line, i - from, ':'),
        decreases to - i,
    {
        i += 1;
    }
    i
}

} // verus!
