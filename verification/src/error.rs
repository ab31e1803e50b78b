//! The failures that the gateway's core can report.

use vstd::prelude::*;

verus! {

/// The part of an index schema that was found empty.
#[derive(Clone, Copy, Debug, PartialEq, Eq, Structural)]
pub enum SchemaPart {
    IndexName,
    StorageType,
    Prefixes,
    Fields,
}

/// Every way in which a request can fail before or after the remote call.
#[derive(Debug)]
pub enum Error {
    /// The search request names no index.
    MissingIndex,
    /// The document has no usable `source` field.
    MissingSource,
    /// A mandatory part of the index schema is empty.
    InvalidSchema(SchemaPart),
    /// A range bound is not a local timestamp of the expected form.
    MalformedTimestamp,
    /// The store answered an index creation with something other than `OK`.
    IndexCreationFailed { index: String, reply: String },
    /// The page size is zero or negative.
    InvalidLimit,
    /// The store could not be reached, or answered with a protocol error.
    TransportError(String),
}

/// What to tell the caller about an empty part of a schema.
pub open spec fn part_message(part: SchemaPart) -> Seq<char> {
    match part {
        SchemaPart::IndexName => "index_name is missing"@,
        SchemaPart::StorageType => "index_type is missing"@,
        SchemaPart::Prefixes => "prefixes are missing"@,
        SchemaPart::Fields => "schema is missing"@,
    }
}

/// What to tell the caller about a failure.
pub open spec fn message_of(error: Error) -> Seq<char> {
    match error {
        Error::MissingIndex => "The 'index' field is required."@,
        Error::MissingSource => "The 'source' field is required."@,
        Error::InvalidSchema(part) => part_message(part),
        Error::MalformedTimestamp => "Failed to parse date and time"@,
        Error::IndexCreationFailed { index, reply } => "Failed to create index '"@ + index@
            + "': "@ + reply@,
        Error::InvalidLimit => "The 'limit' field must be greater than zero."@,
        Error::TransportError(message) => message@,
    }
}

/// The body of a failed request: the operation in brackets, then the
/// message.
pub open spec fn failure_of(operation: Seq<char>, error: Error) -> Seq<char> {
    "["@ + operation + "] "@ + message_of(error)
}

impl Error {
    /// The message of this failure.
    pub fn message(&self) -> (out: String)
        ensures
            out@ == message_of(*self),
    {
        match self {
            Error::MissingIndex => String::from_str("The 'index' field is required."),
            Error::MissingSource => String::from_str("The 'source' field is required."),
            Error::InvalidSchema(part) => match part {
                SchemaPart::IndexName => String::from_str("index_name is missing"),
                SchemaPart::StorageType => String::from_str("index_type is missing"),
                SchemaPart::Prefixes => String::from_str("prefixes are missing"),
                SchemaPart::Fields => String::from_str("schema is missing"),
            },
            Error::MalformedTimestamp => String::from_str("Failed to parse date and time"),
            Error::IndexCreationFailed { index, reply } => {
                let mut out = String::from_str("Failed to create index '");
                out.append(index.as_str());
                out.append("': ");
                out.append(reply.as_str());
                out
            },
            Error::InvalidLimit => String::from_str("The 'limit' field must be greater than zero."),
            Error::TransportError(message) => message.clone(),
        }
    }
}

/// Renders a failure for the caller of `operation`.
pub fn failure_text(operation: &str, error: &Error) -> (out: String)
    ensures
        out@ == failure_of(operation@, *error),
{
    let mut out = String::from_str("[");
    out.append(operation);
    out.append("] ");
    let message = error.message();
    out.append(message.as_str());
    out
}

} // verus!
