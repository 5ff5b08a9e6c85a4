//! Fetching mail from a mail service and laying it out for a search index.
//!
//! The library decides and computes; it sends nothing and stores nothing. A round of
//! requests is a sequence of steps: the caller hands in what has happened, and is told
//! what to do next. What each function returns is stated in its contract and proved.
//!
//! - `client`: the credentials, and the steps by which a request is sent and an access
//!   token is renewed.
//! - `runs`: what holds of every sequence of such steps.
//! - `request`: requests as plain data.
//! - `batch`: the body of a batch request, and the documents in the response to one.
//! - `gmail`: the messages of the mail service, the requests that fetch them, and their
//!   conversion into searchable mail.
//! - `search`: searchable mail and the collection that holds it.
//! - `text`: searching and cutting text.
//! - `codecs`: the decoders that other crates supply.

pub mod batch;
pub mod client;
pub mod codecs;
pub mod constants;
pub mod gmail;
pub mod request;
pub mod runs;
pub mod search;
pub mod text;
