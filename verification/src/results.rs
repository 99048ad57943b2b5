//! Result sets: the decoded form of everything one completion query
//! yields, with total accessors.

use vstd::prelude::*;
use crate::context::{spec_decode_context, CompletionContext, CONTEXT_UNKNOWN};
use crate::kinds::{DecodeError, Diagnostic, EntityKind, Usr};
use crate::raw::{RawResult, RawResults, RawTemplate, CURSOR_INVALID_CODE};
use crate::result::CompletionResult;
use crate::string::{decode_template, opt_text_view, string_view, StringView};

verus! {

/// The shapes of a list of candidates: the entity-kind code and the
/// template shape of each, in order.
pub open spec fn result_views(rs: Seq<CompletionResult>) -> Seq<(u32, StringView)>
    decreases rs,
{
    if rs.len() == 0 {
        Seq::empty()
    } else {
        seq![(rs[0].kind.code, string_view(rs[0].string))] + result_views(rs.drop_first())
    }
}

/// `result_views` maps each candidate to its shape and keeps the order.
pub proof fn lemma_result_views_index(rs: Seq<CompletionResult>)
    ensures
        result_views(rs).len() == rs.len(),
        forall|i: int| 0 <= i < rs.len() ==> result_views(rs)[i] == (
            rs[i].kind.code,
            string_view(rs[i].string),
        ),
    decreases rs,
{
    if rs.len() != 0 {
        lemma_result_views_index(rs.drop_first());
    }
}

/// What decoding every raw candidate of `rs` against `arena` yields: one
/// entity-kind code and template shape per candidate, in the engine's
/// order, or the first decode error encountered.
pub open spec fn decode_results(arena: Seq<RawTemplate>, rs: Seq<RawResult>) -> Result<
    Seq<(u32, StringView)>,
    DecodeError,
>
    decreases rs.len(),
{
    if rs.len() == 0 {
        Ok(Seq::empty())
    } else {
        match decode_template(arena, rs[0].template as int) {
            Err(e) => Err(e),
            Ok(sv) => match decode_results(arena, rs.drop_first()) {
                Err(e) => Err(e),
                Ok(rest) => Ok(seq![(rs[0].kind, sv)] + rest),
            },
        }
    }
}

/// A set of code completion results: everything one completion query
/// yields, decoded from the engine's raw buffer.
///
/// [`CompletionResults::from_raw`] validates and decodes the whole raw
/// buffer once; a query that found no candidates yields a valid, empty set,
/// and every accessor afterwards is total.
#[derive(Debug)]
pub struct CompletionResults {
    /// The raw context bitmask for the query site.
    pub context: u64,
    /// The cursor-kind code of the containing entity, or
    /// `CURSOR_INVALID_CODE` when there is none.
    pub container_kind: u32,
    /// Whether the member list of the containing entity was only partially
    /// known.
    pub container_incomplete: bool,
    /// The selector or partial selector typed so far, when the completion
    /// context is an Objective-C message send.
    pub selector: Option<String>,
    /// The USR of the containing entity, if resolvable.
    pub usr: Option<String>,
    /// Diagnostics raised while the completion context was prepared, in
    /// emission order.
    pub diagnostics: Vec<Diagnostic>,
    /// The decoded candidates, in the engine's native order.
    pub results: Vec<CompletionResult>,
}

} // verus!

verus! {

/// The texts of a list of diagnostics, in order.
pub open spec fn diagnostic_texts(ds: Seq<Diagnostic>) -> Seq<Seq<char>> {
    ds.map_values(|d: Diagnostic| d.text@)
}

impl CompletionResults {
    /// Decodes one raw result set.
    ///
    /// Returns `Ok` exactly when every candidate's template decodes (see
    /// [`CompletionString::from_raw`](crate::string::CompletionString::from_raw));
    /// the candidates then appear in the engine's native order, undecoded
    /// fields are taken over unchanged, and no accessor of the returned set
    /// can fail. Otherwise returns the error that `decode_results` assigns
    /// to the buffer.
    pub fn from_raw(raw: RawResults) -> (r: Result<CompletionResults, DecodeError>)
        ensures
            match r {
                Ok(c) => {
                    &&& decode_results(raw.templates@, raw.results@) == Ok::<
                        Seq<(u32, StringView)>,
                        DecodeError,
                    >(result_views(c.results@))
                    &&& c.context == raw.context
                    &&& c.container_kind == raw.container_kind
                    &&& c.container_incomplete == raw.container_incomplete
                    &&& c.selector == raw.selector
                    &&& c.usr == raw.usr
                    &&& c.diagnostics == raw.diagnostics
                },
                Err(e) => decode_results(raw.templates@, raw.results@) == Err::<
                    Seq<(u32, StringView)>,
                    DecodeError,
                >(e),
            },
    {
        proof {
            assert(raw.results@.skip(0) =~= raw.results@);
        }
        let results = match Self::decode_result_list(&raw.templates, &raw.results, 0) {
            Ok(v) => v,
            Err(e) => {
                return Err(e);
            },
        };
        Ok(
            CompletionResults {
                context: raw.context,
                container_kind: raw.container_kind,
                container_incomplete: raw.container_incomplete,
                selector: raw.selector,
                usr: raw.usr,
                diagnostics: raw.diagnostics,
                results,
            },
        )
    }

    /// Decodes the raw candidates of `rs`, starting at candidate `from`.
    fn decode_result_list(arena: &Vec<RawTemplate>, rs: &Vec<RawResult>, from: usize) -> (r: Result<
        Vec<CompletionResult>,
        DecodeError,
    >)
        requires
            from <= rs@.len(),
        ensures
            match r {
                Ok(v) => decode_results(arena@, rs@.skip(from as int)) == Ok::<
                    Seq<(u32, StringView)>,
                    DecodeError,
                >(result_views(v@)),
                Err(e) => decode_results(arena@, rs@.skip(from as int)) == Err::<
                    Seq<(u32, StringView)>,
                    DecodeError,
                >(e),
            },
        decreases rs@.len() - from,
    {
        let ghost cs = rs@.skip(from as int);
        if from == rs.len() {
            proof {
                assert(cs =~= Seq::<RawResult>::empty());
            }
            return Ok(Vec::new());
        }
        proof {
            assert(cs[0] == rs@[from as int]);
            assert(cs.drop_first() =~= rs@.skip(from as int + 1));
        }
        let cr = match CompletionResult::from_raw(arena, &rs[from]) {
            Ok(cr) => cr,
            Err(e) => {
                return Err(e);
            },
        };
        let ghost head = (cr.kind.code, string_view(cr.string));
        match Self::decode_result_list(arena, rs, from + 1) {
            Ok(rest) => {
                let ghost rv = rest@;
                let mut v = rest;
                v.insert(0, cr);
                proof {
                    assert(v@.drop_first() =~= rv);
                    assert(result_views(v@) == seq![head] + result_views(rv));
                }
                Ok(v)
            },
            Err(e) => Err(e),
        }
    }

    /// Returns the diagnostics the engine raised while preparing the
    /// completion context, in emission order.
    pub fn get_diagnostics(&self) -> (r: Vec<Diagnostic>)
        ensures
            diagnostic_texts(r@) == diagnostic_texts(self.diagnostics@),
    {
        let mut r: Vec<Diagnostic> = Vec::new();
        let mut i: usize = 0;
        while i < self.diagnostics.len()
            invariant
                i <= self.diagnostics@.len(),
                r@.len() == i,
                forall|j: int| 0 <= j < i ==> r@[j].text@ == self.diagnostics@[j].text@,
            decreases self.diagnostics@.len() - i,
        {
            r.push(Diagnostic { text: self.diagnostics[i].text.clone() });
            i += 1;
        }
        proof {
            assert(diagnostic_texts(r@) =~= diagnostic_texts(self.diagnostics@));
        }
        r
    }

    /// Returns the completion context for this result set: no context when
    /// no flag is set or the mask is the "unknown" sentinel, else the
    /// decoded flag record.
    pub fn get_context(&self) -> (r: Option<CompletionContext>)
        ensures
            r == spec_decode_context(self.context),
    {
        if self.context != 0 && self.context != CONTEXT_UNKNOWN {
            Some(CompletionContext::from_bits(self.context))
        } else {
            None
        }
    }

    /// Returns the categorization of the entity containing the completion
    /// point and whether that entity was only partially known, or nothing
    /// when the engine reported no container.
    pub fn get_container_kind(&self) -> (r: Option<(EntityKind, bool)>)
        ensures
            match r {
                Some(p) => self.container_kind != CURSOR_INVALID_CODE && p.0.code
                    == self.container_kind && p.1 == self.container_incomplete,
                None => self.container_kind == CURSOR_INVALID_CODE,
            },
    {
        if self.container_kind == CURSOR_INVALID_CODE {
            None
        } else {
            Some((EntityKind { code: self.container_kind }, self.container_incomplete))
        }
    }

    /// Returns the selector or partial selector entered so far for the
    /// Objective-C message send context, if that is the context.
    pub fn get_objc_selector(&self) -> (r: Option<String>)
        ensures
            opt_text_view(r) == opt_text_view(self.selector),
    {
        crate::string::copy_opt_text(&self.selector)
    }

    /// Returns the USR of the entity containing the completion point, if
    /// resolvable.
    pub fn get_usr(&self) -> (r: Option<Usr>)
        ensures
            match r {
                Some(u) => opt_text_view(self.usr) == Some(u.0@),
                None => self.usr is None,
            },
    {
        match &self.usr {
            Some(s) => Some(Usr(s.clone())),
            None => None,
        }
    }

    /// Returns one candidate per engine result, in the engine's native
    /// order; no ranking is applied here, sorting is the caller's choice.
    pub fn get_results(&self) -> (r: Vec<CompletionResult>)
        ensures
            result_views(r@) == result_views(self.results@),
    {
        let mut r: Vec<CompletionResult> = Vec::new();
        let mut i: usize = 0;
        while i < self.results.len()
            invariant
                i <= self.results@.len(),
                r@.len() == i,
                forall|j: int| 0 <= j < i ==> r@[j].kind == self.results@[j].kind
                    && r@[j].string@ == self.results@[j].string@,
            decreases self.results@.len() - i,
        {
            r.push(
                CompletionResult {
                    kind: self.results[i].kind,
                    string: self.results[i].string.duplicate(),
                },
            );
            i += 1;
        }
        proof {
            lemma_result_views_index(r@);
            lemma_result_views_index(self.results@);
            assert(result_views(r@) =~= result_views(self.results@));
        }
        r
    }
}

} // verus!
