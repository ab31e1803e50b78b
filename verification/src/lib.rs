//! The core of a search gateway that speaks a textual command protocol to a
//! remote document store: the commands it sends, and how it reads replies.
//!
//! Nothing here performs input or output. Each function either says what to
//! send or makes sense of what came back.

pub mod error;
pub mod info;
pub mod ingest;
pub mod page;
pub mod query;
pub mod reply;
pub mod schema;
pub mod search;
pub mod text;
pub mod time;
