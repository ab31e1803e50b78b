//! Documents on their way into the store: the check of their source, the
//! key they are stored under, and the fields that the gateway adds.

use vstd::prelude::*;
use crate::error::Error;
use crate::text::{chars_of, push_text, same_text, string_of, strings};

verus! {

/// What a field of a document holds.
#[derive(Debug)]
pub enum FieldValue {
    /// A JSON string, as the text it stands for.
    Text(String),
    /// A JSON number that is a whole number of 64 bits.
    Integer(i64),
    /// Any other JSON value, as its JSON text.
    Json(String),
}

/// One member of a document.
#[derive(Debug)]
pub struct Field {
    pub name: String,
    pub value: FieldValue,
}

/// A JSON object, member by member.
#[derive(Debug)]
pub struct Document {
    pub fields: Vec<Field>,
}

/// A reading of the clock: one moment, written in two ways.
#[derive(Debug)]
pub struct Timestamp {
    /// The moment in UTC, in the form of RFC 3339.
    pub rfc3339: String,
    /// The moment in whole seconds since 1970-01-01T00:00:00Z.
    pub epoch_seconds: i64,
}

/// A document that is ready to be stored, and the key to store it under.
#[derive(Debug)]
pub struct Ingested {
    pub key: String,
    pub document: Document,
}

/// What a field holds, with its strings as texts.
pub enum ValueShape {
    Text(Seq<char>),
    Integer(int),
    Json(Seq<char>),
}

/// A member of a document, with its strings as texts.
pub struct FieldShape {
    pub name: Seq<char>,
    pub value: ValueShape,
}

/// The shape of a value.
pub open spec fn value_shape(value: FieldValue) -> ValueShape {
    match value {
        FieldValue::Text(text) => ValueShape::Text(text@),
        FieldValue::Integer(n) => ValueShape::Integer(n as int),
        FieldValue::Json(text) => ValueShape::Json(text@),
    }
}

/// The shape of a member.
pub open spec fn field_shape(field: Field) -> FieldShape {
    FieldShape { name: field.name@, value: value_shape(field.value) }
}

/// The shapes of the members of a document, in order.
pub open spec fn shape_of(fields: Seq<Field>) -> Seq<FieldShape> {
    fields.map_values(|field: Field| field_shape(field))
}

/// What the first member called `name` among the first `n` holds, if there is
/// one.
pub open spec fn lookup(fields: Seq<FieldShape>, name: Seq<char>) -> Option<ValueShape>
    decreases fields.len(),
{
    if fields.len() == 0 {
        None
    } else if fields[0].name == name {
        Some(fields[0].value)
    } else {
        lookup(fields.drop_first(), name)
    }
}

/// The members that are not called `name`, in order.
pub open spec fn without(fields: Seq<FieldShape>, name: Seq<char>) -> Seq<FieldShape>
    decreases fields.len(),
{
    if fields.len() == 0 {
        Seq::empty()
    } else if fields.last().name == name {
        without(fields.drop_last(), name)
    } else {
        without(fields.drop_last(), name).push(fields.last())
    }
}

/// The members after `name` is set to `value`: whatever was called `name` is
/// gone, and the new member stands last.
pub open spec fn with_field(fields: Seq<FieldShape>, name: Seq<char>, value: ValueShape) -> Seq<
    FieldShape,
> {
    without(fields, name).push(FieldShape { name, value })
}

/// `char::is_whitespace`: whether a character has the Unicode property
/// `White_Space`.
pub uninterp spec fn is_white_space(c: char) -> bool;

/// Calls `char::is_whitespace`. The contract claims only that the answer is
/// determined by the character.
#[verifier::external_body]
fn white_space(c: char) -> (yes: bool)
    ensures
        yes == is_white_space(c),
{
    c.is_whitespace()
}

/// `str::to_lowercase`: the lowercase form of a text.
pub uninterp spec fn lowercase_text(text: Seq<char>) -> Seq<char>;

/// Calls `str::to_lowercase`. The contract claims only that the result is
/// determined by the text.
#[verifier::external_body]
fn lowercased(text: &str) -> (lower: String)
    ensures
        lower@ == lowercase_text(text@),
{
    text.to_lowercase()
}

/// Whether a text is blank: nothing is left of it once white space is
/// trimmed from both ends.
pub open spec fn is_blank(text: Seq<char>) -> bool {
    forall|i: int| 0 <= i < text.len() ==> is_white_space(#[trigger] text[i])
}

/// The source of a document: what its first member called `source` holds,
/// where that is a string that is not blank.
pub open spec fn usable_source(fields: Seq<FieldShape>) -> Option<Seq<char>> {
    match lookup(fields, "source"@) {
        Some(ValueShape::Text(text)) => if is_blank(text) {
            None
        } else {
            Some(text)
        },
        _ => None,
    }
}

/// A text with each space replaced by an underscore.
pub open spec fn spaces_replaced(text: Seq<char>) -> Seq<char> {
    text.map_values(
        |c: char|
            if c == ' ' {
                '_'
            } else {
                c
            },
    )
}

/// The key of a document: its source with underscores for spaces, in
/// lowercase, then a colon and the identifier.
pub open spec fn key_text(source: Seq<char>, identifier: Seq<char>) -> Seq<char> {
    lowercase_text(spaces_replaced(source)) + ":"@ + identifier
}

/// Whether a character is a lowercase hexadecimal digit or a hyphen.
pub open spec fn is_identifier_char(c: char) -> bool {
    ('0' <= c <= '9') || ('a' <= c <= 'f') || c == '-'
}

/// Whether a text has the form of an identifier: 36 characters, each a
/// lowercase hexadecimal digit or a hyphen.
pub open spec fn is_identifier(text: Seq<char>) -> bool {
    &&& text.len() == 36
    &&& forall|i: int| 0 <= i < text.len() ==> is_identifier_char(#[trigger] text[i])
}

/// The members of a document after the gateway has added its own: the key,
/// the time of creation as text, and the same in seconds. Members of these
/// names that the document came with are gone.
pub open spec fn enriched(
    fields: Seq<FieldShape>,
    key: Seq<char>,
    created_at: Seq<char>,
    created_ts: int,
) -> Seq<FieldShape> {
    with_field(
        with_field(with_field(fields, "key"@, ValueShape::Text(key)), "created_at"@, ValueShape::Text(
            created_at,
        )),
        "created_ts"@,
        ValueShape::Integer(created_ts),
    )
}

/// Calls `uuid::Uuid::new_v4` and writes the identifier as its `Display`
/// does: hyphenated, in lowercase. The contract claims the form of the text
/// and nothing of its value, which is random.
#[verifier::external_body]
fn fresh_identifier() -> (identifier: String)
    ensures
        is_identifier(identifier@),
{
    uuid::Uuid::new_v4().to_string()
}

/// Calls `chrono::Utc::now` and writes the moment with `to_rfc3339` and
/// `timestamp`. Nothing is claimed of the result.
#[verifier::external_body]
fn utc_now() -> (now: Timestamp) {
    let now = chrono::Utc::now();
    Timestamp { rfc3339: now.to_rfc3339(), epoch_seconds: now.timestamp() }
}

fn copy_value(value: &FieldValue) -> (out: FieldValue)
    ensures
        value_shape(out) == value_shape(*value),
{
    match value {
        FieldValue::Text(text) => FieldValue::Text(text.clone()),
        FieldValue::Integer(n) => FieldValue::Integer(*n),
        FieldValue::Json(text) => FieldValue::Json(text.clone()),
    }
}

/// Whether nothing is left of `text` once white space is trimmed from it.
pub fn blank(text: &str) -> (yes: bool)
    ensures
        yes == is_blank(text@),
{
    let chars = chars_of(text);
    let mut i: usize = 0;
    while i < chars.len()
        invariant
            i <= chars.len(),
            chars@ == text@,
            forall|k: int| 0 <= k < i ==> is_white_space(#[trigger] text@[k]),
        decreases chars.len() - i,
    {
        if !white_space(chars[i]) {
            return false;
        }
        i += 1;
    }
    true
}

/// The text of the first member called `source`, where that member holds a
/// string.
pub fn source_text(doc: &Document) -> (source: Option<String>)
    ensures
        match lookup(shape_of(doc.fields@), "source"@) {
            Some(ValueShape::Text(text)) => source is Some && source->Some_0@ == text,
            _ => source is None,
        },
{
    let ghost shape = shape_of(doc.fields@);
    let mut i: usize = 0;
    assert(shape.skip(0) =~= shape);
    while i < doc.fields.len()
        invariant
            i <= doc.fields.len(),
            shape == shape_of(doc.fields@),
            lookup(shape, "source"@) == lookup(shape.skip(i as int), "source"@),
        decreases doc.fields.len() - i,
    {
        let field = &doc.fields[i];
        assert(shape.skip(i as int).drop_first() =~= shape.skip(i + 1));
        if same_text(field.name.as_str(), "source") {
            return match &field.value {
                FieldValue::Text(text) => Some(text.clone()),
                _ => None,
            };
        }
        i += 1;
    }
    None
}

/// Whether a document names a source that is a string and not blank.
pub fn has_usable_source(doc: &Document) -> (yes: bool)
    ensures
        yes == usable_source(shape_of(doc.fields@)) is Some,
{
    match source_text(doc) {
        Some(text) => !blank(text.as_str()),
        None => false,
    }
}

/// Sets the member `name` of a document to `value`, whatever it held
/// before. The member then stands last, and all others keep their order.
pub fn set_field(doc: &mut Document, name: &str, value: FieldValue)
    ensures
        shape_of(final(doc).fields@) == with_field(
            shape_of(old(doc).fields@),
            name@,
            value_shape(value),
        ),
{
    let ghost shape = shape_of(doc.fields@);
    let mut kept: Vec<Field> = Vec::new();
    let mut i: usize = 0;
    assert(shape.take(0) =~= Seq::<FieldShape>::empty());
    while i < doc.fields.len()
        invariant
            i <= doc.fields.len(),
            doc.fields@ == old(doc).fields@,
            shape == shape_of(doc.fields@),
            shape_of(kept@) == without(shape.take(i as int), name@),
        decreases doc.fields.len() - i,
    {
        let field = &doc.fields[i];
        assert(shape.take(i + 1).drop_last() =~= shape.take(i as int));
        if !same_text(field.name.as_str(), name) {
            kept.push(Field { name: field.name.clone(), value: copy_value(&field.value) });
        }
        i += 1;
    }
    assert(shape.take(shape.len() as int) =~= shape);
    kept.push(Field { name: String::from_str(name), value });
    doc.fields = kept;
}

/// Replaces each space of a text by an underscore.
pub fn replace_spaces(text: &str) -> (out: String)
    ensures
        out@ == spaces_replaced(text@),
{
    let chars = chars_of(text);
    let mut replaced: Vec<char> = Vec::new();
    let mut i: usize = 0;
    while i < chars.len()
        invariant
            i <= chars.len(),
            chars@ == text@,
            replaced@ == spaces_replaced(text@.take(i as int)),
        decreases chars.len() - i,
    {
        let c = chars[i];
        replaced.push(
            if c == ' ' {
                '_'
            } else {
                c
            },
        );
        i += 1;
    }
    string_of(&replaced)
}

/// The key under which a document of `source` is stored, given the
/// identifier that tells it from all others.
pub fn document_key(source: &str, identifier: &str) -> (key: String)
    ensures
        key@ == key_text(source@, identifier@),
{
    let replaced = replace_spaces(source);
    let mut key = lowercased(replaced.as_str());
    key.append(":");
    key.append(identifier);
    key
}

/// Prepares a document for the store, given an identifier and a reading of
/// the clock.
///
/// A document without a `source`, or with one that is no string or blank,
/// is refused. Else the document gets its key, derived from the source and
/// the identifier, and the moment of its creation, under the names `key`,
/// `created_at` and `created_ts`, whatever it held under these names.
pub fn encode_with(doc: Document, identifier: &str, now: &Timestamp) -> (r: Result<Ingested, Error>)
    ensures
        r is Err <==> usable_source(shape_of(doc.fields@)) is None,
        r is Err ==> r->Err_0 is MissingSource,
        r is Ok ==> r->Ok_0.key@ == key_text(
            usable_source(shape_of(doc.fields@))->Some_0,
            identifier@,
        ),
        r is Ok ==> shape_of(r->Ok_0.document.fields@) == enriched(
            shape_of(doc.fields@),
            r->Ok_0.key@,
            now.rfc3339@,
            now.epoch_seconds as int,
        ),
{
    let source = match source_text(&doc) {
        Some(text) => text,
        None => {
            return Err(Error::MissingSource);
        },
    };
    if blank(source.as_str()) {
        return Err(Error::MissingSource);
    }
    let key = document_key(source.as_str(), identifier);
    let mut document = doc;
    set_field(&mut document, "key", FieldValue::Text(key.clone()));
    set_field(&mut document, "created_at", FieldValue::Text(now.rfc3339.clone()));
    set_field(&mut document, "created_ts", FieldValue::Integer(now.epoch_seconds));
    Ok(Ingested { key, document })
}

/// Whether `out` is `doc` prepared for the store under `key`, for some
/// identifier of the right form and some reading of the clock.
pub open spec fn is_encoding(
    doc: Seq<FieldShape>,
    key: Seq<char>,
    out: Seq<FieldShape>,
    identifier: Seq<char>,
    created_at: Seq<char>,
    created_ts: int,
) -> bool {
    &&& is_identifier(identifier)
    &&& usable_source(doc) is Some
    &&& key == key_text(usable_source(doc)->Some_0, identifier)
    &&& out == enriched(doc, key, created_at, created_ts)
}

/// Prepares a document for the store, with a fresh random identifier and
/// the time of the call.
pub fn encode(doc: Document) -> (r: Result<Ingested, Error>)
    ensures
        r is Err <==> usable_source(shape_of(doc.fields@)) is None,
        r is Err ==> r->Err_0 is MissingSource,
        r is Ok ==> exists|identifier: Seq<char>, created_at: Seq<char>, created_ts: int|
            #[trigger] is_encoding(
                shape_of(doc.fields@),
                r->Ok_0.key@,
                shape_of(r->Ok_0.document.fields@),
                identifier,
                created_at,
                created_ts,
            ),
{
    if !has_usable_source(&doc) {
        return Err(Error::MissingSource);
    }
    let identifier = fresh_identifier();
    let now = utc_now();
    let r = encode_with(doc, identifier.as_str(), &now);
    proof {
        if r is Ok {
            assert(is_encoding(
                shape_of(doc.fields@),
                r->Ok_0.key@,
                shape_of(r->Ok_0.document.fields@),
                identifier@,
                now.rfc3339@,
                now.epoch_seconds as int,
            ));
        }
    }
    r
}

/// The command that stores the JSON text of a document under its key.
pub fn store_command(key: &str, json: &str) -> (out: Vec<String>)
    ensures
        strings(out@) == seq!["JSON.SET"@, key@, "$"@, json@],
{
    let mut out: Vec<String> = Vec::new();
    push_text(&mut out, "JSON.SET");
    push_text(&mut out, key);
    push_text(&mut out, "$");
    push_text(&mut out, json);
    out
}

/// A member that was set is found, with what it was set to.
pub proof fn lemma_set_then_found(fields: Seq<FieldShape>, name: Seq<char>, value: ValueShape)
    ensures
        lookup(with_field(fields, name, value), name) == Some(value),
{
    lemma_absent_without(fields, name);
    lemma_lookup_push(without(fields, name), FieldShape { name, value }, name);
}

/// Setting one member leaves what every other name holds as it was.
pub proof fn lemma_set_keeps_others(
    fields: Seq<FieldShape>,
    name: Seq<char>,
    value: ValueShape,
    other: Seq<char>,
)
    requires
        other != name,
    ensures
        lookup(with_field(fields, name, value), other) == lookup(fields, other),
{
    lemma_without_keeps_others(fields, name, other);
    lemma_lookup_push(without(fields, name), FieldShape { name, value }, other);
}

/// A document that was prepared for the store holds the key and the moment
/// of its creation under the three names that the gateway owns, whatever it
/// held there before, and under every other name what it held before.
pub proof fn lemma_enrichment_overwrites(
    fields: Seq<FieldShape>,
    key: Seq<char>,
    created_at: Seq<char>,
    created_ts: int,
    other: Seq<char>,
)
    ensures
        lookup(enriched(fields, key, created_at, created_ts), "key"@) == Some(
            ValueShape::Text(key),
        ),
        lookup(enriched(fields, key, created_at, created_ts), "created_at"@) == Some(
            ValueShape::Text(created_at),
        ),
        lookup(enriched(fields, key, created_at, created_ts), "created_ts"@) == Some(
            ValueShape::Integer(created_ts),
        ),
        other != "key"@ && other != "created_at"@ && other != "created_ts"@ ==> lookup(
            enriched(fields, key, created_at, created_ts),
            other,
        ) == lookup(fields, other),
{
    reveal_strlit("key");
    reveal_strlit("created_at");
    reveal_strlit("created_ts");
    assert("key"@ != "created_at"@) by {
        assert("key"@.len() != "created_at"@.len());
    }
    assert("key"@ != "created_ts"@) by {
        assert("key"@.len() != "created_ts"@.len());
    }
    assert("created_at"@ != "created_ts"@) by {
        assert("created_at"@[8] != "created_ts"@[8]);
    }
    let first = with_field(fields, "key"@, ValueShape::Text(key));
    let second = with_field(first, "created_at"@, ValueShape::Text(created_at));
    lemma_set_then_found(fields, "key"@, ValueShape::Text(key));
    lemma_set_then_found(first, "created_at"@, ValueShape::Text(created_at));
    lemma_set_then_found(second, "created_ts"@, ValueShape::Integer(created_ts));
    lemma_set_keeps_others(first, "created_at"@, ValueShape::Text(created_at), "key"@);
    lemma_set_keeps_others(second, "created_ts"@, ValueShape::Integer(created_ts), "key"@);
    lemma_set_keeps_others(second, "created_ts"@, ValueShape::Integer(created_ts), "created_at"@);
    if other != "key"@ && other != "created_at"@ && other != "created_ts"@ {
        lemma_set_keeps_others(fields, "key"@, ValueShape::Text(key), other);
        lemma_set_keeps_others(first, "created_at"@, ValueShape::Text(created_at), other);
        lemma_set_keeps_others(second, "created_ts"@, ValueShape::Integer(created_ts), other);
    }
}

proof fn lemma_lookup_push(fields: Seq<FieldShape>, added: FieldShape, name: Seq<char>)
    ensures
        lookup(fields.push(added), name) == (if lookup(fields, name) is Some {
            lookup(fields, name)
        } else if added.name == name {
            Some(added.value)
        } else {
            None
        }),
    decreases fields.len(),
{
    if fields.len() == 0 {
        assert(fields.push(added).drop_first() =~= Seq::<FieldShape>::empty());
    } else {
        assert(fields.push(added).drop_first() =~= fields.drop_first().push(added));
        if fields[0].name != name {
            lemma_lookup_push(fields.drop_first(), added, name);
        }
    }
}

proof fn lemma_absent_without(fields: Seq<FieldShape>, name: Seq<char>)
    ensures
        lookup(without(fields, name), name) is None,
    decreases fields.len(),
{
    if fields.len() > 0 {
        lemma_absent_without(fields.drop_last(), name);
        if fields.last().name != name {
            lemma_lookup_push(without(fields.drop_last(), name), fields.last(), name);
        }
    }
}

proof fn lemma_without_keeps_others(fields: Seq<FieldShape>, name: Seq<char>, other: Seq<char>)
    requires
        other != name,
    ensures
        lookup(without(fields, name), other) == lookup(fields, other),
    decreases fields.len(),
{
    if fields.len() > 0 {
        let front = fields.drop_last();
        lemma_without_keeps_others(front, name, other);
        assert(front.push(fields.last()) =~= fields);
        lemma_lookup_push(front, fields.last(), other);
        if fields.last().name != name {
            lemma_lookup_push(without(front, name), fields.last(), other);
        }
    }
}

} // verus!
