//! Index schemas and the commands that replace an index: drop what is
//! there, then create.

use vstd::prelude::*;
use crate::error::{Error, SchemaPart};
use crate::text::{count_string, decimal, push_string, push_text, same_text, strings};

verus! {

/// One field of an index.
#[derive(Debug)]
pub struct SchemaField {
    pub name: String,
    pub field_type: String,
    pub sortable: bool,
}

/// The description of an index: its name, the kind of storage it indexes,
/// the key prefixes that select its documents, and its fields.
#[derive(Debug)]
pub struct IndexSchema {
    pub index_name: String,
    pub storage_type: String,
    pub prefixes: Vec<String>,
    pub language: Option<String>,
    pub fields: Vec<SchemaField>,
}

/// The two commands that define an index anew, each with its name first.
#[derive(Debug)]
pub struct SchemaCommands {
    pub drop_command: Vec<String>,
    pub create_command: Vec<String>,
}

/// The first mandatory part of a schema that is empty, if any is: the index
/// name, then the storage type, then the prefixes, then the fields.
pub open spec fn missing_part(schema: IndexSchema) -> Option<SchemaPart> {
    if schema.index_name@.len() == 0 {
        Some(SchemaPart::IndexName)
    } else if schema.storage_type@.len() == 0 {
        Some(SchemaPart::StorageType)
    } else if schema.prefixes@.len() == 0 {
        Some(SchemaPart::Prefixes)
    } else if schema.fields@.len() == 0 {
        Some(SchemaPart::Fields)
    } else {
        None
    }
}

/// The words that declare one field: its name, its type, and `SORTABLE` if
/// and only if it is sortable.
pub open spec fn field_words(field: SchemaField) -> Seq<Seq<char>> {
    if field.sortable {
        seq![field.name@, field.field_type@, "SORTABLE"@]
    } else {
        seq![field.name@, field.field_type@]
    }
}

/// The words that declare the first `n` fields, in order.
pub open spec fn fields_words(fields: Seq<SchemaField>, n: nat) -> Seq<Seq<char>>
    decreases n,
{
    if n == 0 {
        Seq::empty()
    } else {
        fields_words(fields, (n - 1) as nat) + field_words(fields[n - 1])
    }
}

/// The command that drops the index of a schema.
pub open spec fn drop_words(schema: IndexSchema) -> Seq<Seq<char>> {
    seq!["FT.DROPINDEX"@, schema.index_name@]
}

/// The command that creates the index of a schema: name, storage type, the
/// number of prefixes and each prefix, the language where one is given, then
/// the fields.
pub open spec fn create_words(schema: IndexSchema) -> Seq<Seq<char>> {
    seq![
        "FT.CREATE"@,
        schema.index_name@,
        "ON"@,
        schema.storage_type@,
        "PREFIX"@,
        decimal(schema.prefixes@.len() as int),
    ] + strings(schema.prefixes@) + (match schema.language {
        Some(language) => seq!["LANGUAGE"@, language@],
        None => Seq::empty(),
    }) + seq!["SCHEMA"@] + fields_words(schema.fields@, schema.fields@.len())
}

/// Builds the commands that define the index of `schema`.
///
/// Every argument is a word of its own, whatever characters it holds. A
/// schema with an empty mandatory part is refused, and the error names the
/// first such part.
pub fn build(schema: &IndexSchema) -> (r: Result<SchemaCommands, Error>)
    ensures
        r is Err <==> missing_part(*schema) is Some,
        r is Err ==> (r->Err_0 matches Error::InvalidSchema(part) && part == missing_part(
            *schema,
        )->Some_0),
        r is Ok ==> strings(r->Ok_0.drop_command@) == drop_words(*schema),
        r is Ok ==> strings(r->Ok_0.create_command@) == create_words(*schema),
{
    if schema.index_name.as_str().is_empty() {
        return Err(Error::InvalidSchema(SchemaPart::IndexName));
    }
    if schema.storage_type.as_str().is_empty() {
        return Err(Error::InvalidSchema(SchemaPart::StorageType));
    }
    if schema.prefixes.len() == 0 {
        return Err(Error::InvalidSchema(SchemaPart::Prefixes));
    }
    if schema.fields.len() == 0 {
        return Err(Error::InvalidSchema(SchemaPart::Fields));
    }
    let mut drop_command: Vec<String> = Vec::new();
    push_text(&mut drop_command, "FT.DROPINDEX");
    push_string(&mut drop_command, schema.index_name.clone());

    let mut create: Vec<String> = Vec::new();
    push_text(&mut create, "FT.CREATE");
    push_string(&mut create, schema.index_name.clone());
    push_text(&mut create, "ON");
    push_string(&mut create, schema.storage_type.clone());
    push_text(&mut create, "PREFIX");
    push_string(&mut create, count_string(schema.prefixes.len()));
    let ghost head = strings(create@);
    let mut i: usize = 0;
    while i < schema.prefixes.len()
        invariant
            i <= schema.prefixes.len(),
            strings(create@) == head + strings(schema.prefixes@).take(i as int),
        decreases schema.prefixes.len() - i,
    {
        push_string(&mut create, schema.prefixes[i].clone());
        i += 1;
    }
    if let Some(language) = &schema.language {
        push_text(&mut create, "LANGUAGE");
        push_string(&mut create, language.clone());
    }
    push_text(&mut create, "SCHEMA");
    let ghost opened = strings(create@);
    let mut j: usize = 0;
    while j < schema.fields.len()
        invariant
            j <= schema.fields.len(),
            strings(create@) == opened + fields_words(schema.fields@, j as nat),
        decreases schema.fields.len() - j,
    {
        let field = &schema.fields[j];
        push_string(&mut create, field.name.clone());
        push_string(&mut create, field.field_type.clone());
        if field.sortable {
            push_text(&mut create, "SORTABLE");
        }
        j += 1;
    }
    Ok(SchemaCommands { drop_command, create_command: create })
}

/// The report of an index that was created.
#[derive(Debug)]
pub struct IndexCreated {
    pub status: String,
    pub message: String,
}

/// What came of one command that was sent to the store.
#[derive(Debug)]
pub enum RoundTrip {
    /// The store answered with this text.
    Reply(String),
    /// The command could not be sent, or the store answered with an error.
    Failure(String),
}

/// Where the definition of an index stands between two commands.
#[derive(Debug)]
pub enum DefineIndex {
    /// The drop command is on its way.
    AwaitingDrop { index_name: String, create_command: Vec<String> },
    /// The create command is on its way.
    AwaitingCreate { index_name: String },
}

/// What to do next while defining an index.
#[derive(Debug)]
pub enum NextMove {
    /// Send this command and come back with what came of it.
    Send { command: Vec<String>, then: DefineIndex },
    /// The index stands.
    Created(IndexCreated),
    /// The index could not be created.
    Failed(Error),
}

/// The message that reports the creation of the index `index_name`.
pub open spec fn created_message(index_name: Seq<char>) -> Seq<char> {
    "Index '"@ + index_name + "' created successfully."@
}

/// Judges the store's answer to a create command: only the reply `OK` is a
/// success, and any other reply is reported with the index and the reply.
pub fn creation_outcome(index_name: &str, reply: &str) -> (r: Result<IndexCreated, Error>)
    ensures
        r is Ok <==> reply@ == "OK"@,
        r is Ok ==> r->Ok_0.status@ == "success"@ && r->Ok_0.message@ == created_message(
            index_name@,
        ),
        r is Err ==> (r->Err_0 matches Error::IndexCreationFailed { index, reply: literal }
            && index@ == index_name@ && literal@ == reply@),
{
    if same_text(reply, "OK") {
        let mut message = String::from_str("Index '");
        message.append(index_name);
        message.append("' created successfully.");
        Ok(IndexCreated { status: String::from_str("success"), message })
    } else {
        Err(
            Error::IndexCreationFailed {
                index: String::from_str(index_name),
                reply: String::from_str(reply),
            },
        )
    }
}

/// Starts the definition of an index: hands out the drop command to send
/// first, and the state to come back with.
pub fn begin_define_index(schema: &IndexSchema) -> (r: Result<(Vec<String>, DefineIndex), Error>)
    ensures
        r is Err <==> missing_part(*schema) is Some,
        r is Err ==> (r->Err_0 matches Error::InvalidSchema(part) && part == missing_part(
            *schema,
        )->Some_0),
        r is Ok ==> strings(r->Ok_0.0@) == drop_words(*schema),
        r is Ok ==> (r->Ok_0.1 matches DefineIndex::AwaitingDrop { index_name, create_command }
            && index_name@ == schema.index_name@ && strings(create_command@) == create_words(
            *schema,
        )),
{
    match build(schema) {
        Ok(commands) => Ok(
            (
                commands.drop_command,
                DefineIndex::AwaitingDrop {
                    index_name: schema.index_name.clone(),
                    create_command: commands.create_command,
                },
            ),
        ),
        Err(error) => Err(error),
    }
}

/// Takes the definition of an index one step further.
///
/// Whatever came of the drop command, the create command follows: an index
/// that was not there to be dropped is no failure. What came of the create
/// command decides: the reply `OK` is success, any other reply and any
/// failure is reported.
pub fn advance_define_index(state: DefineIndex, outcome: RoundTrip) -> (next: NextMove)
    ensures
        match state {
            DefineIndex::AwaitingDrop { index_name, create_command } => {
                next matches NextMove::Send { command, then } && command@ == create_command@ && (then matches DefineIndex::AwaitingCreate {
                    index_name: name,
                } && name@ == index_name@)
            },
            DefineIndex::AwaitingCreate { index_name } => match outcome {
                RoundTrip::Reply(text) => if text@ == "OK"@ {
                    next matches NextMove::Created(report) && report.status@ == "success"@
                        && report.message@ == created_message(index_name@)
                } else {
                    next matches NextMove::Failed(Error::IndexCreationFailed { index, reply })
                        && index@ == index_name@ && reply@ == text@
                },
                RoundTrip::Failure(text) => {
                    next matches NextMove::Failed(Error::TransportError(message)) && message@ == text@
                },
            },
        },
{
    match state {
        DefineIndex::AwaitingDrop { index_name, create_command } => NextMove::Send {
            command: create_command,
            then: DefineIndex::AwaitingCreate { index_name },
        },
        DefineIndex::AwaitingCreate { index_name } => match outcome {
            RoundTrip::Reply(text) => match creation_outcome(index_name.as_str(), text.as_str()) {
                Ok(report) => NextMove::Created(report),
                Err(error) => NextMove::Failed(error),
            },
            RoundTrip::Failure(text) => NextMove::Failed(Error::TransportError(text)),
        },
    }
}

} // verus!
