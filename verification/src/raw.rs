//! The raw model: what one completion query yields, exactly as the engine
//! reports it, copied into plain values before any decoding.

use vstd::prelude::*;
use crate::kinds::Diagnostic;

verus! {

// Chunk kind tags, exactly as the engine writes them.

/// Tag of an optional chunk wrapping a nested template.
pub const CHUNK_OPTIONAL: u32 = 0;

/// Tag of the text the user is expected to type.
pub const CHUNK_TYPED_TEXT: u32 = 1;

/// Tag of text inserted verbatim.
pub const CHUNK_TEXT: u32 = 2;

/// Tag of placeholder text the user should replace.
pub const CHUNK_PLACEHOLDER: u32 = 3;

/// Tag of informative text that is displayed but never inserted.
pub const CHUNK_INFORMATIVE: u32 = 4;

/// Tag of the text describing the current parameter.
pub const CHUNK_CURRENT_PARAMETER: u32 = 5;

/// Tag of a left parenthesis.
pub const CHUNK_LEFT_PAREN: u32 = 6;

/// Tag of a right parenthesis.
pub const CHUNK_RIGHT_PAREN: u32 = 7;

/// Tag of a left square bracket.
pub const CHUNK_LEFT_BRACKET: u32 = 8;

/// Tag of a right square bracket.
pub const CHUNK_RIGHT_BRACKET: u32 = 9;

/// Tag of a left brace.
pub const CHUNK_LEFT_BRACE: u32 = 10;

/// Tag of a right brace.
pub const CHUNK_RIGHT_BRACE: u32 = 11;

/// Tag of a left angle bracket.
pub const CHUNK_LEFT_ANGLE: u32 = 12;

/// Tag of a right angle bracket.
pub const CHUNK_RIGHT_ANGLE: u32 = 13;

/// Tag of a comma.
pub const CHUNK_COMMA: u32 = 14;

/// Tag of the text naming the result type of the candidate.
pub const CHUNK_RESULT_TYPE: u32 = 15;

/// Tag of a colon.
pub const CHUNK_COLON: u32 = 16;

/// Tag of a semicolon.
pub const CHUNK_SEMICOLON: u32 = 17;

/// Tag of an equals sign.
pub const CHUNK_EQUALS: u32 = 18;

/// Tag of horizontal space.
pub const CHUNK_HORIZONTAL_SPACE: u32 = 19;

/// Tag of vertical space.
pub const CHUNK_VERTICAL_SPACE: u32 = 20;

/// The engine's cursor-kind code meaning "invalid / no container".
pub const CURSOR_INVALID_CODE: u32 = 73;

/// Request flag asking the engine to include macro names.
pub const OPTION_INCLUDE_MACROS: u32 = 1;

/// Request flag asking the engine to include code patterns.
pub const OPTION_INCLUDE_CODE_PATTERNS: u32 = 2;

/// Request flag asking the engine to attach documentation briefs.
pub const OPTION_INCLUDE_BRIEF_COMMENTS: u32 = 4;

/// One chunk of a template, as the engine reports it: a kind tag, the
/// chunk's text (empty when the kind carries none), and, for an optional
/// chunk, the arena index of the nested template.
#[derive(Clone, Debug)]
pub struct RawChunk {
    /// The engine's kind tag for this chunk.
    pub kind: u32,
    /// The text the engine associates with this chunk.
    pub text: String,
    /// For an optional chunk, the arena index of the nested template;
    /// ignored for every other kind.
    pub nested: usize,
}

/// One completion template, as the engine reports it, before decoding.
#[derive(Clone, Debug)]
pub struct RawTemplate {
    /// The engine's relevance value; smaller means higher rank.
    pub priority: u32,
    /// The engine's availability code.
    pub availability: u32,
    /// Annotations attached by the source declaration, in declaration order.
    pub annotations: Vec<String>,
    /// The name of the semantic parent of the candidate, if any.
    pub parent: Option<String>,
    /// The documentation brief of the candidate, if one was requested and
    /// exists.
    pub brief: Option<String>,
    /// The chunks of the template, in template order.
    pub chunks: Vec<RawChunk>,
}

/// One candidate, as the engine reports it: an entity-kind code and the
/// arena index of the candidate's template.
#[derive(Clone, Debug)]
pub struct RawResult {
    /// The engine's cursor-kind code for the produced entity.
    pub kind: u32,
    /// The arena index of the candidate's template.
    pub template: usize,
}

/// Everything one completion query yields, copied out of the engine's
/// native buffer into plain values.
///
/// All templates of the result set live in one arena, `templates`; a
/// nested template referenced by an optional chunk must lie strictly later
/// in the arena than the template that references it, so that templates
/// form a forest rather than a cycle.
#[derive(Clone, Debug)]
pub struct RawResults {
    /// The template arena for the whole result set.
    pub templates: Vec<RawTemplate>,
    /// The candidates, in the engine's native order.
    pub results: Vec<RawResult>,
    /// The raw context bitmask for the query site.
    pub context: u64,
    /// The cursor-kind code of the containing entity, or
    /// `CURSOR_INVALID_CODE` when there is none.
    pub container_kind: u32,
    /// Whether the member list of the containing entity was only partially
    /// known.
    pub container_incomplete: bool,
    /// The selector or partial selector typed so far, when the completion
    /// context is an Objective-C message send.
    pub selector: Option<String>,
    /// The USR of the containing entity, if resolvable.
    pub usr: Option<String>,
    /// Diagnostics raised while the completion context was prepared, in
    /// emission order.
    pub diagnostics: Vec<Diagnostic>,
}

} // verus!
