//! A decoded model of the result set produced by a source-code completion
//! engine: a ranked collection of candidate completions, each described by a
//! structured, possibly recursive sequence of text and punctuation chunks
//! plus metadata (priority, availability, documentation, parent scope,
//! annotations).
//!
//! The engine itself is an external collaborator: it runs the query and
//! fills one native buffer per result set. A thin shim copies that buffer
//! into the plain [`raw::RawResults`] value, and everything after that —
//! the recursive template decoder, the chunk taxonomy, the context bitmask
//! decoder and the ordering used to rank candidates — is verified here.

pub mod completer;
pub mod context;
pub mod eq;
pub mod kinds;
pub mod order;
pub mod raw;
pub mod result;
pub mod results;
pub mod string;

pub use kinds::{Availability, DecodeError, Diagnostic, EntityKind, Usr};
pub use completer::{Completer, Unsaved};
pub use context::CompletionContext;
pub use result::CompletionResult;
pub use results::CompletionResults;
pub use string::{CompletionChunk, CompletionString};
