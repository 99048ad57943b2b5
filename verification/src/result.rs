//! Candidates: one entity kind paired with one template, ordered entirely
//! by the template.

use vstd::prelude::*;
use core::cmp::Ordering;
use crate::eq::chunk_seq_eq;
use crate::kinds::{DecodeError, EntityKind};
use crate::order::string_cmp;
use crate::raw::{RawResult, RawTemplate};
use crate::string::{decode_template, CompletionString, StringView};

verus! {

/// A code completion result: one candidate of a result set.
#[derive(Debug)]
pub struct CompletionResult {
    /// The categorization of the AST entity this candidate produces;
    /// informational only, it takes no part in comparison.
    pub kind: EntityKind,
    /// The completion template for this candidate.
    pub string: CompletionString,
}

impl CompletionResult {
    /// Decodes one raw candidate against the template arena: the entity
    /// kind is taken as is, and the candidate's template is decoded
    /// recursively.
    pub fn from_raw(arena: &Vec<RawTemplate>, raw: &RawResult) -> (r: Result<
        CompletionResult,
        DecodeError,
    >)
        ensures
            match r {
                Ok(cr) => decode_template(arena@, raw.template as int) == Ok::<
                    StringView,
                    DecodeError,
                >(cr.string@) && cr.kind.code == raw.kind,
                Err(e) => decode_template(arena@, raw.template as int) == Err::<
                    StringView,
                    DecodeError,
                >(e),
            },
    {
        match CompletionString::from_raw(arena, raw.template) {
            Ok(s) => Ok(CompletionResult { kind: EntityKind { code: raw.kind }, string: s }),
            Err(e) => Err(e),
        }
    }

    /// Compares two candidates for presentation ranking; the order is
    /// delegated entirely to the templates, the entity kinds take no part.
    pub fn cmp(&self, other: &CompletionResult) -> (r: Ordering)
        ensures
            r == string_cmp(self.string@, other.string@),
    {
        self.string.cmp(&other.string)
    }
}

impl PartialEq for CompletionResult {
    /// Two candidates are equal when their entity kinds agree and their
    /// templates are structurally equal.
    fn eq(&self, other: &CompletionResult) -> (r: bool) {
        self.kind.code == other.kind.code && self.string == other.string
    }
}

impl Eq for CompletionResult {

}

impl vstd::std_specs::cmp::PartialEqSpecImpl for CompletionResult {
    open spec fn obeys_eq_spec() -> bool {
        true
    }

    open spec fn eq_spec(&self, other: &CompletionResult) -> bool {
        self.kind == other.kind && chunk_seq_eq(self.string@.chunks, other.string@.chunks)
    }
}

impl PartialOrd for CompletionResult {
    /// The ranking order; always defined.
    fn partial_cmp(&self, other: &CompletionResult) -> (r: Option<Ordering>) {
        Some(self.cmp(other))
    }
}

impl vstd::std_specs::cmp::PartialOrdSpecImpl for CompletionResult {
    open spec fn obeys_partial_cmp_spec() -> bool {
        true
    }

    open spec fn partial_cmp_spec(&self, other: &CompletionResult) -> Option<Ordering> {
        Some(string_cmp(self.string@, other.string@))
    }
}

} // verus!
