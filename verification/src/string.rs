//! Completion templates: the chunk taxonomy, the recursive decoder from
//! the raw template arena, and the template accessors.

use vstd::prelude::*;
use crate::kinds::{decode_availability, spec_decode_availability, Availability, DecodeError};
use crate::raw::{RawChunk, RawTemplate};
use crate::raw::{
    CHUNK_COLON, CHUNK_COMMA, CHUNK_CURRENT_PARAMETER, CHUNK_EQUALS, CHUNK_HORIZONTAL_SPACE,
    CHUNK_INFORMATIVE, CHUNK_LEFT_ANGLE, CHUNK_LEFT_BRACE, CHUNK_LEFT_BRACKET, CHUNK_LEFT_PAREN,
    CHUNK_OPTIONAL, CHUNK_PLACEHOLDER, CHUNK_RESULT_TYPE, CHUNK_RIGHT_ANGLE, CHUNK_RIGHT_BRACE,
    CHUNK_RIGHT_BRACKET, CHUNK_RIGHT_PAREN, CHUNK_SEMICOLON, CHUNK_TEXT, CHUNK_TYPED_TEXT,
    CHUNK_VERTICAL_SPACE,
};

verus! {

/// A piece of a completion template: a fixed punctuation marker, a block of
/// text, or a nested optional sub-template.
#[derive(Debug)]
pub enum CompletionChunk {
    /// A colon (`':'`).
    Colon,
    /// A comma (`','`).
    Comma,
    /// An equals sign (`'='`).
    Equals,
    /// A semicolon (`';'`).
    Semicolon,
    /// A left angle bracket (`'<'`).
    LeftAngleBracket,
    /// A right angle bracket (`'>'`).
    RightAngleBracket,
    /// A left brace (`'{'`).
    LeftBrace,
    /// A right brace (`'}'`).
    RightBrace,
    /// A left parenthesis (`'('`).
    LeftParenthesis,
    /// A right parenthesis (`')'`).
    RightParenthesis,
    /// A left square bracket (`'['`).
    LeftSquareBracket,
    /// A right square bracket (`']'`).
    RightSquareBracket,
    /// Horizontal space (e.g., `' '`).
    HorizontalSpace(String),
    /// Vertical space (e.g., `'\n'`).
    VerticalSpace(String),
    /// Text that describes the current parameter when completion was run on
    /// a function call, message send, or template specialization.
    CurrentParameter(String),
    /// Informative text that should be displayed but never inserted.
    Informative(String),
    /// Text that should be replaced by the user.
    Placeholder(String),
    /// Text that specifies the result type of the containing candidate.
    ResultType(String),
    /// Text that should be inserted.
    Text(String),
    /// Text the user is expected to type to get this candidate.
    TypedText(String),
    /// An optional sub-template that could be inserted but is not required.
    Optional(CompletionString),
}

/// A decoded completion template: the ordered chunks plus the metadata the
/// engine attaches to the template.
///
/// Values of this type are produced by [`CompletionString::from_raw`], which
/// decodes one template of a raw arena, recursively for the sub-templates of
/// optional chunks.
#[derive(Debug)]
pub struct CompletionString {
    /// The engine's relevance value; smaller means higher rank. The scale is
    /// engine-defined: the value is only a comparison key, never a score.
    pub priority: u32,
    /// The availability of the candidate.
    pub availability: Availability,
    /// Annotations attached by the source declaration, in declaration order.
    pub annotations: Vec<String>,
    /// The name of the semantic parent of the candidate, if any.
    pub parent: Option<String>,
    /// The documentation brief of the candidate, if one was requested and
    /// exists.
    pub brief: Option<String>,
    /// The chunks of the template, in template order.
    pub chunks: Vec<CompletionChunk>,
}

/// The mathematical shape of one chunk: as [`CompletionChunk`], with every
/// string replaced by its character sequence.
#[verifier::ext_equal]
pub enum ChunkView {
    /// A colon.
    Colon,
    /// A comma.
    Comma,
    /// An equals sign.
    Equals,
    /// A semicolon.
    Semicolon,
    /// A left angle bracket.
    LeftAngleBracket,
    /// A right angle bracket.
    RightAngleBracket,
    /// A left brace.
    LeftBrace,
    /// A right brace.
    RightBrace,
    /// A left parenthesis.
    LeftParenthesis,
    /// A right parenthesis.
    RightParenthesis,
    /// A left square bracket.
    LeftSquareBracket,
    /// A right square bracket.
    RightSquareBracket,
    /// Horizontal space.
    HorizontalSpace(Seq<char>),
    /// Vertical space.
    VerticalSpace(Seq<char>),
    /// Current-parameter text.
    CurrentParameter(Seq<char>),
    /// Informative text.
    Informative(Seq<char>),
    /// Placeholder text.
    Placeholder(Seq<char>),
    /// Result-type text.
    ResultType(Seq<char>),
    /// Plain text.
    Text(Seq<char>),
    /// Typed text.
    TypedText(Seq<char>),
    /// A nested optional sub-template.
    Optional(StringView),
}

/// The mathematical shape of one template: metadata plus the sequence of
/// chunk shapes.
#[verifier::ext_equal]
pub struct StringView {
    /// The engine's relevance value.
    pub priority: u32,
    /// The availability of the candidate.
    pub availability: Availability,
    /// The annotation texts, in declaration order.
    pub annotations: Seq<Seq<char>>,
    /// The parent name, if any.
    pub parent: Option<Seq<char>>,
    /// The documentation brief, if any.
    pub brief: Option<Seq<char>>,
    /// The chunk shapes, in template order.
    pub chunks: Seq<ChunkView>,
}

/// The shape of one chunk value.
pub open spec fn chunk_view(c: CompletionChunk) -> ChunkView
    decreases c,
{
    match c {
        CompletionChunk::Colon => ChunkView::Colon,
        CompletionChunk::Comma => ChunkView::Comma,
        CompletionChunk::Equals => ChunkView::Equals,
        CompletionChunk::Semicolon => ChunkView::Semicolon,
        CompletionChunk::LeftAngleBracket => ChunkView::LeftAngleBracket,
        CompletionChunk::RightAngleBracket => ChunkView::RightAngleBracket,
        CompletionChunk::LeftBrace => ChunkView::LeftBrace,
        CompletionChunk::RightBrace => ChunkView::RightBrace,
        CompletionChunk::LeftParenthesis => ChunkView::LeftParenthesis,
        CompletionChunk::RightParenthesis => ChunkView::RightParenthesis,
        CompletionChunk::LeftSquareBracket => ChunkView::LeftSquareBracket,
        CompletionChunk::RightSquareBracket => ChunkView::RightSquareBracket,
        CompletionChunk::HorizontalSpace(t) => ChunkView::HorizontalSpace(t@),
        CompletionChunk::VerticalSpace(t) => ChunkView::VerticalSpace(t@),
        CompletionChunk::CurrentParameter(t) => ChunkView::CurrentParameter(t@),
        CompletionChunk::Informative(t) => ChunkView::Informative(t@),
        CompletionChunk::Placeholder(t) => ChunkView::Placeholder(t@),
        CompletionChunk::ResultType(t) => ChunkView::ResultType(t@),
        CompletionChunk::Text(t) => ChunkView::Text(t@),
        CompletionChunk::TypedText(t) => ChunkView::TypedText(t@),
        CompletionChunk::Optional(s) => ChunkView::Optional(string_view(s)),
    }
}

/// The shapes of a sequence of chunk values, in order.
pub open spec fn chunks_view(cs: Seq<CompletionChunk>) -> Seq<ChunkView>
    decreases cs,
{
    if cs.len() == 0 {
        Seq::empty()
    } else {
        seq![chunk_view(cs[0])] + chunks_view(cs.drop_first())
    }
}

/// The view of an optional text.
pub open spec fn opt_text_view(t: Option<String>) -> Option<Seq<char>> {
    match t {
        Some(s) => Some(s@),
        None => None,
    }
}

/// The shape of one template value.
pub open spec fn string_view(s: CompletionString) -> StringView
    decreases s,
{
    StringView {
        priority: s.priority,
        availability: s.availability,
        annotations: s.annotations@.map_values(|a: String| a@),
        parent: opt_text_view(s.parent),
        brief: opt_text_view(s.brief),
        chunks: chunks_view(s.chunks@),
    }
}

impl View for CompletionChunk {
    type V = ChunkView;

    open spec fn view(&self) -> ChunkView {
        chunk_view(*self)
    }
}

impl View for CompletionString {
    type V = StringView;

    open spec fn view(&self) -> StringView {
        string_view(*self)
    }
}

/// `chunks_view` maps each element to its shape and keeps the order.
pub proof fn lemma_chunks_view_index(cs: Seq<CompletionChunk>)
    ensures
        chunks_view(cs).len() == cs.len(),
        forall|i: int| 0 <= i < cs.len() ==> chunks_view(cs)[i] == chunk_view(cs[i]),
    decreases cs,
{
    if cs.len() != 0 {
        lemma_chunks_view_index(cs.drop_first());
    }
}

} // verus!

verus! {

/// What decoding template `i` of `arena` yields: the template's shape, or
/// the decode error encountered.
///
/// A nested template referenced by an optional chunk must lie strictly
/// later in the arena, so decoding always terminates.
pub open spec fn decode_template(arena: Seq<RawTemplate>, i: int) -> Result<StringView, DecodeError>
    decreases arena.len() - i, 2int, 0int,
{
    if !(0 <= i < arena.len()) {
        Err(DecodeError::InvalidTemplateIndex)
    } else {
        match spec_decode_availability(arena[i].availability) {
            Err(e) => Err(e),
            Ok(av) => match decode_chunk_seq(arena, i, arena[i].chunks@) {
                Err(e) => Err(e),
                Ok(cvs) => Ok(StringView {
                    priority: arena[i].priority,
                    availability: av,
                    annotations: arena[i].annotations@.map_values(|a: String| a@),
                    parent: opt_text_view(arena[i].parent),
                    brief: opt_text_view(arena[i].brief),
                    chunks: cvs,
                }),
            },
        }
    }
}

/// What decoding the chunk list `cs` of template `i` yields.
pub open spec fn decode_chunk_seq(arena: Seq<RawTemplate>, i: int, cs: Seq<RawChunk>) -> Result<
    Seq<ChunkView>,
    DecodeError,
>
    decreases arena.len() - i, 1int, cs.len(),
{
    if cs.len() == 0 {
        Ok(Seq::empty())
    } else {
        match decode_chunk(arena, i, cs[0]) {
            Err(e) => Err(e),
            Ok(c) => match decode_chunk_seq(arena, i, cs.drop_first()) {
                Err(e) => Err(e),
                Ok(rest) => Ok(seq![c] + rest),
            },
        }
    }
}

/// What decoding one chunk of template `i` yields. An optional chunk
/// recursively decodes the nested template it points at, which must lie
/// strictly later in the arena; any unrecognized kind tag is an error.
pub open spec fn decode_chunk(arena: Seq<RawTemplate>, i: int, c: RawChunk) -> Result<
    ChunkView,
    DecodeError,
>
    decreases arena.len() - i, 0int, 0int,
{
    if c.kind == CHUNK_OPTIONAL {
        if !(i < c.nested < arena.len()) {
            Err(DecodeError::InvalidNestedTemplate)
        } else {
            match decode_template(arena, c.nested as int) {
                Err(e) => Err(e),
                Ok(sv) => Ok(ChunkView::Optional(sv)),
            }
        }
    } else if c.kind == CHUNK_TYPED_TEXT {
        Ok(ChunkView::TypedText(c.text@))
    } else if c.kind == CHUNK_TEXT {
        Ok(ChunkView::Text(c.text@))
    } else if c.kind == CHUNK_PLACEHOLDER {
        Ok(ChunkView::Placeholder(c.text@))
    } else if c.kind == CHUNK_INFORMATIVE {
        Ok(ChunkView::Informative(c.text@))
    } else if c.kind == CHUNK_CURRENT_PARAMETER {
        Ok(ChunkView::CurrentParameter(c.text@))
    } else if c.kind == CHUNK_LEFT_PAREN {
        Ok(ChunkView::LeftParenthesis)
    } else if c.kind == CHUNK_RIGHT_PAREN {
        Ok(ChunkView::RightParenthesis)
    } else if c.kind == CHUNK_LEFT_BRACKET {
        Ok(ChunkView::LeftSquareBracket)
    } else if c.kind == CHUNK_RIGHT_BRACKET {
        Ok(ChunkView::RightSquareBracket)
    } else if c.kind == CHUNK_LEFT_BRACE {
        Ok(ChunkView::LeftBrace)
    } else if c.kind == CHUNK_RIGHT_BRACE {
        Ok(ChunkView::RightBrace)
    } else if c.kind == CHUNK_LEFT_ANGLE {
        Ok(ChunkView::LeftAngleBracket)
    } else if c.kind == CHUNK_RIGHT_ANGLE {
        Ok(ChunkView::RightAngleBracket)
    } else if c.kind == CHUNK_COMMA {
        Ok(ChunkView::Comma)
    } else if c.kind == CHUNK_RESULT_TYPE {
        Ok(ChunkView::ResultType(c.text@))
    } else if c.kind == CHUNK_COLON {
        Ok(ChunkView::Colon)
    } else if c.kind == CHUNK_SEMICOLON {
        Ok(ChunkView::Semicolon)
    } else if c.kind == CHUNK_EQUALS {
        Ok(ChunkView::Equals)
    } else if c.kind == CHUNK_HORIZONTAL_SPACE {
        Ok(ChunkView::HorizontalSpace(c.text@))
    } else if c.kind == CHUNK_VERTICAL_SPACE {
        Ok(ChunkView::VerticalSpace(c.text@))
    } else {
        Err(DecodeError::UnknownChunkKind)
    }
}

/// Copies a list of texts.
pub(crate) fn copy_texts(v: &Vec<String>) -> (r: Vec<String>)
    ensures
        r@ == v@,
{
    let mut r: Vec<String> = Vec::new();
    let mut i: usize = 0;
    while i < v.len()
        invariant
            i <= v@.len(),
            r@ =~= v@.subrange(0, i as int),
        decreases v@.len() - i,
    {
        r.push(v[i].clone());
        i += 1;
    }
    proof {
        assert(r@ =~= v@);
    }
    r
}

/// Copies an optional text.
pub(crate) fn copy_opt_text(t: &Option<String>) -> (r: Option<String>)
    ensures
        r == *t,
{
    match t {
        Some(s) => Some(s.clone()),
        None => None,
    }
}

impl CompletionString {
    /// Decodes template `index` of the raw arena `arena`, recursively
    /// decoding the sub-template of every optional chunk.
    ///
    /// Returns `Ok` exactly when `index` lies in the arena, the template's
    /// availability code and every chunk kind tag (recursively) are
    /// recognized, and every optional chunk points strictly later into the
    /// arena; the result is then exactly the decoded shape. Otherwise
    /// returns the error that `decode_template` assigns to the arena.
    pub fn from_raw(arena: &Vec<RawTemplate>, index: usize) -> (r: Result<
        CompletionString,
        DecodeError,
    >)
        ensures
            match r {
                Ok(s) => decode_template(arena@, index as int) == Ok::<StringView, DecodeError>(
                    s@,
                ),
                Err(e) => decode_template(arena@, index as int) == Err::<StringView, DecodeError>(
                    e,
                ),
            },
        decreases arena@.len() - index, 2int, 0int,
    {
        if index >= arena.len() {
            return Err(DecodeError::InvalidTemplateIndex);
        }
        let availability = match decode_availability(arena[index].availability) {
            Ok(av) => av,
            Err(e) => {
                return Err(e);
            },
        };
        proof {
            assert(arena@[index as int].chunks@.skip(0) =~= arena@[index as int].chunks@);
        }
        let chunks = match Self::decode_chunk_list(arena, index, 0) {
            Ok(cs) => cs,
            Err(e) => {
                return Err(e);
            },
        };
        Ok(
            CompletionString {
                priority: arena[index].priority,
                availability,
                annotations: copy_texts(&arena[index].annotations),
                parent: copy_opt_text(&arena[index].parent),
                brief: copy_opt_text(&arena[index].brief),
                chunks,
            },
        )
    }

    /// Decodes the chunks of template `index`, starting at chunk `from`.
    fn decode_chunk_list(arena: &Vec<RawTemplate>, index: usize, from: usize) -> (r: Result<
        Vec<CompletionChunk>,
        DecodeError,
    >)
        requires
            index < arena@.len(),
            from <= arena@[index as int].chunks@.len(),
        ensures
            match r {
                Ok(v) => decode_chunk_seq(
                    arena@,
                    index as int,
                    arena@[index as int].chunks@.skip(from as int),
                ) == Ok::<Seq<ChunkView>, DecodeError>(chunks_view(v@)),
                Err(e) => decode_chunk_seq(
                    arena@,
                    index as int,
                    arena@[index as int].chunks@.skip(from as int),
                ) == Err::<Seq<ChunkView>, DecodeError>(e),
            },
        decreases arena@.len() - index, 1int, arena@[index as int].chunks@.len() - from,
    {
        let ghost cs = arena@[index as int].chunks@.skip(from as int);
        if from == arena[index].chunks.len() {
            proof {
                assert(cs =~= Seq::<RawChunk>::empty());
            }
            return Ok(Vec::new());
        }
        proof {
            assert(cs[0] == arena@[index as int].chunks@[from as int]);
            assert(cs.drop_first() =~= arena@[index as int].chunks@.skip(from as int + 1));
        }
        let c = match Self::decode_one_chunk(arena, index, from) {
            Ok(c) => c,
            Err(e) => {
                return Err(e);
            },
        };
        let ghost cv = c@;
        match Self::decode_chunk_list(arena, index, from + 1) {
            Ok(rest) => {
                let ghost rv = rest@;
                let mut v = rest;
                v.insert(0, c);
                proof {
                    assert(v@.drop_first() =~= rv);
                    assert(chunks_view(v@) == seq![cv] + chunks_view(rv));
                    assert(decode_chunk_seq(arena@, index as int, cs) == Ok::<
                        Seq<ChunkView>,
                        DecodeError,
                    >(chunks_view(v@)));
                }
                Ok(v)
            },
            Err(e) => Err(e),
        }
    }

    /// Decodes chunk `at` of template `index`.
    fn decode_one_chunk(arena: &Vec<RawTemplate>, index: usize, at: usize) -> (r: Result<
        CompletionChunk,
        DecodeError,
    >)
        requires
            index < arena@.len(),
            at < arena@[index as int].chunks@.len(),
        ensures
            match r {
                Ok(ch) => decode_chunk(
                    arena@,
                    index as int,
                    arena@[index as int].chunks@[at as int],
                ) == Ok::<ChunkView, DecodeError>(ch@),
                Err(e) => decode_chunk(
                    arena@,
                    index as int,
                    arena@[index as int].chunks@[at as int],
                ) == Err::<ChunkView, DecodeError>(e),
            },
        decreases arena@.len() - index, 0int, 0int,
    {
        let c = &arena[index].chunks[at];
        if c.kind == CHUNK_OPTIONAL {
            if c.nested <= index || c.nested >= arena.len() {
                return Err(DecodeError::InvalidNestedTemplate);
            }
            match CompletionString::from_raw(arena, c.nested) {
                Ok(s) => Ok(CompletionChunk::Optional(s)),
                Err(e) => Err(e),
            }
        } else if c.kind == CHUNK_TYPED_TEXT {
            Ok(CompletionChunk::TypedText(c.text.clone()))
        } else if c.kind == CHUNK_TEXT {
            Ok(CompletionChunk::Text(c.text.clone()))
        } else if c.kind == CHUNK_PLACEHOLDER {
            Ok(CompletionChunk::Placeholder(c.text.clone()))
        } else if c.kind == CHUNK_INFORMATIVE {
            Ok(CompletionChunk::Informative(c.text.clone()))
        } else if c.kind == CHUNK_CURRENT_PARAMETER {
            Ok(CompletionChunk::CurrentParameter(c.text.clone()))
        } else if c.kind == CHUNK_LEFT_PAREN {
            Ok(CompletionChunk::LeftParenthesis)
        } else if c.kind == CHUNK_RIGHT_PAREN {
            Ok(CompletionChunk::RightParenthesis)
        } else if c.kind == CHUNK_LEFT_BRACKET {
            Ok(CompletionChunk::LeftSquareBracket)
        } else if c.kind == CHUNK_RIGHT_BRACKET {
            Ok(CompletionChunk::RightSquareBracket)
        } else if c.kind == CHUNK_LEFT_BRACE {
            Ok(CompletionChunk::LeftBrace)
        } else if c.kind == CHUNK_RIGHT_BRACE {
            Ok(CompletionChunk::RightBrace)
        } else if c.kind == CHUNK_LEFT_ANGLE {
            Ok(CompletionChunk::LeftAngleBracket)
        } else if c.kind == CHUNK_RIGHT_ANGLE {
            Ok(CompletionChunk::RightAngleBracket)
        } else if c.kind == CHUNK_COMMA {
            Ok(CompletionChunk::Comma)
        } else if c.kind == CHUNK_RESULT_TYPE {
            Ok(CompletionChunk::ResultType(c.text.clone()))
        } else if c.kind == CHUNK_COLON {
            Ok(CompletionChunk::Colon)
        } else if c.kind == CHUNK_SEMICOLON {
            Ok(CompletionChunk::Semicolon)
        } else if c.kind == CHUNK_EQUALS {
            Ok(CompletionChunk::Equals)
        } else if c.kind == CHUNK_HORIZONTAL_SPACE {
            Ok(CompletionChunk::HorizontalSpace(c.text.clone()))
        } else if c.kind == CHUNK_VERTICAL_SPACE {
            Ok(CompletionChunk::VerticalSpace(c.text.clone()))
        } else {
            Err(DecodeError::UnknownChunkKind)
        }
    }
}

} // verus!

verus! {

/// The text one chunk yields: the fixed literal of a punctuation marker,
/// the carried text of a text-bearing chunk, and nothing for an optional
/// chunk, whose content is obtained by decoding the nested template.
pub open spec fn chunk_text(c: ChunkView) -> Option<Seq<char>> {
    match c {
        ChunkView::Colon => Some(":"@),
        ChunkView::Comma => Some(","@),
        ChunkView::Equals => Some("="@),
        ChunkView::Semicolon => Some(";"@),
        ChunkView::LeftAngleBracket => Some("<"@),
        ChunkView::RightAngleBracket => Some(">"@),
        ChunkView::LeftBrace => Some("{"@),
        ChunkView::RightBrace => Some("}"@),
        ChunkView::LeftParenthesis => Some("("@),
        ChunkView::RightParenthesis => Some(")"@),
        ChunkView::LeftSquareBracket => Some("["@),
        ChunkView::RightSquareBracket => Some("]"@),
        ChunkView::HorizontalSpace(t) => Some(t),
        ChunkView::VerticalSpace(t) => Some(t),
        ChunkView::CurrentParameter(t) => Some(t),
        ChunkView::Informative(t) => Some(t),
        ChunkView::Placeholder(t) => Some(t),
        ChunkView::ResultType(t) => Some(t),
        ChunkView::Text(t) => Some(t),
        ChunkView::TypedText(t) => Some(t),
        ChunkView::Optional(_) => None,
    }
}

/// The text of the first typed-text chunk of `cs`, in order, if any.
pub open spec fn first_typed_text(cs: Seq<ChunkView>) -> Option<Seq<char>>
    decreases cs.len(),
{
    if cs.len() == 0 {
        None
    } else {
        match cs[0] {
            ChunkView::TypedText(t) => Some(t),
            _ => first_typed_text(cs.drop_first()),
        }
    }
}

impl CompletionChunk {
    /// Returns the text associated with this chunk, unless the chunk is
    /// optional: every punctuation marker yields its fixed literal and every
    /// text-bearing chunk yields its carried text.
    pub fn get_text(&self) -> (r: Option<String>)
        ensures
            opt_text_view(r) == chunk_text(self@),
    {
        match self {
            CompletionChunk::Colon => Some(String::from_str(":")),
            CompletionChunk::Comma => Some(String::from_str(",")),
            CompletionChunk::Equals => Some(String::from_str("=")),
            CompletionChunk::Semicolon => Some(String::from_str(";")),
            CompletionChunk::LeftAngleBracket => Some(String::from_str("<")),
            CompletionChunk::RightAngleBracket => Some(String::from_str(">")),
            CompletionChunk::LeftBrace => Some(String::from_str("{")),
            CompletionChunk::RightBrace => Some(String::from_str("}")),
            CompletionChunk::LeftParenthesis => Some(String::from_str("(")),
            CompletionChunk::RightParenthesis => Some(String::from_str(")")),
            CompletionChunk::LeftSquareBracket => Some(String::from_str("[")),
            CompletionChunk::RightSquareBracket => Some(String::from_str("]")),
            CompletionChunk::HorizontalSpace(t) => Some(t.clone()),
            CompletionChunk::VerticalSpace(t) => Some(t.clone()),
            CompletionChunk::CurrentParameter(t) => Some(t.clone()),
            CompletionChunk::Informative(t) => Some(t.clone()),
            CompletionChunk::Placeholder(t) => Some(t.clone()),
            CompletionChunk::ResultType(t) => Some(t.clone()),
            CompletionChunk::Text(t) => Some(t.clone()),
            CompletionChunk::TypedText(t) => Some(t.clone()),
            CompletionChunk::Optional(_) => None,
        }
    }

    /// Returns whether this chunk is an optional sub-template.
    pub fn is_optional(&self) -> (r: bool)
        ensures
            r == (self@ is Optional),
    {
        match self {
            CompletionChunk::Optional(_) => true,
            _ => false,
        }
    }

    /// Returns a copy of this chunk with the same shape.
    pub fn duplicate(&self) -> (r: CompletionChunk)
        ensures
            r@ == self@,
        decreases *self,
    {
        match self {
            CompletionChunk::Colon => CompletionChunk::Colon,
            CompletionChunk::Comma => CompletionChunk::Comma,
            CompletionChunk::Equals => CompletionChunk::Equals,
            CompletionChunk::Semicolon => CompletionChunk::Semicolon,
            CompletionChunk::LeftAngleBracket => CompletionChunk::LeftAngleBracket,
            CompletionChunk::RightAngleBracket => CompletionChunk::RightAngleBracket,
            CompletionChunk::LeftBrace => CompletionChunk::LeftBrace,
            CompletionChunk::RightBrace => CompletionChunk::RightBrace,
            CompletionChunk::LeftParenthesis => CompletionChunk::LeftParenthesis,
            CompletionChunk::RightParenthesis => CompletionChunk::RightParenthesis,
            CompletionChunk::LeftSquareBracket => CompletionChunk::LeftSquareBracket,
            CompletionChunk::RightSquareBracket => CompletionChunk::RightSquareBracket,
            CompletionChunk::HorizontalSpace(t) => CompletionChunk::HorizontalSpace(t.clone()),
            CompletionChunk::VerticalSpace(t) => CompletionChunk::VerticalSpace(t.clone()),
            CompletionChunk::CurrentParameter(t) => CompletionChunk::CurrentParameter(t.clone()),
            CompletionChunk::Informative(t) => CompletionChunk::Informative(t.clone()),
            CompletionChunk::Placeholder(t) => CompletionChunk::Placeholder(t.clone()),
            CompletionChunk::ResultType(t) => CompletionChunk::ResultType(t.clone()),
            CompletionChunk::Text(t) => CompletionChunk::Text(t.clone()),
            CompletionChunk::TypedText(t) => CompletionChunk::TypedText(t.clone()),
            CompletionChunk::Optional(s) => CompletionChunk::Optional(s.duplicate()),
        }
    }
}

/// Copies a list of chunks, keeping every shape.
fn copy_chunks(v: &Vec<CompletionChunk>) -> (r: Vec<CompletionChunk>)
    ensures
        chunks_view(r@) == chunks_view(v@),
    decreases v@,
{
    let mut r: Vec<CompletionChunk> = Vec::new();
    let mut i: usize = 0;
    while i < v.len()
        invariant
            i <= v@.len(),
            r@.len() == i,
            forall|j: int| 0 <= j < i ==> chunk_view(r@[j]) == chunk_view(v@[j]),
        decreases v@.len() - i,
    {
        r.push(v[i].duplicate());
        i += 1;
    }
    proof {
        lemma_chunks_view_index(r@);
        lemma_chunks_view_index(v@);
        assert(chunks_view(r@) =~= chunks_view(v@));
    }
    r
}

impl CompletionString {
    /// Returns a copy of this template with the same shape.
    pub fn duplicate(&self) -> (r: CompletionString)
        ensures
            r@ == self@,
        decreases *self,
    {
        CompletionString {
            priority: self.priority,
            availability: self.availability,
            annotations: copy_texts(&self.annotations),
            parent: copy_opt_text(&self.parent),
            brief: copy_opt_text(&self.brief),
            chunks: copy_chunks(&self.chunks),
        }
    }

    /// Returns the engine's relevance value for this template. Smaller
    /// values indicate higher priorities; the scale is engine-defined, so
    /// the value is only a comparison key.
    pub fn get_priority(&self) -> (r: u32)
        ensures
            r == self@.priority,
    {
        self.priority
    }

    /// Returns the annotations attached to this template, in declaration
    /// order.
    pub fn get_annotations(&self) -> (r: Vec<String>)
        ensures
            r@.map_values(|a: String| a@) == self@.annotations,
    {
        copy_texts(&self.annotations)
    }

    /// Returns the availability of this template's candidate.
    pub fn get_availability(&self) -> (r: Availability)
        ensures
            r == self@.availability,
    {
        self.availability
    }

    /// Returns the documentation brief of this template's candidate, if one
    /// was requested and exists.
    pub fn get_comment_brief(&self) -> (r: Option<String>)
        ensures
            opt_text_view(r) == self@.brief,
    {
        copy_opt_text(&self.brief)
    }

    /// Returns the name of the semantic parent of this template's
    /// candidate, if it has one.
    pub fn get_parent_name(&self) -> (r: Option<String>)
        ensures
            opt_text_view(r) == self@.parent,
    {
        copy_opt_text(&self.parent)
    }

    /// Returns the text of the first typed-text chunk of this template, in
    /// template order, if any such chunk exists.
    pub fn get_typed_text(&self) -> (r: Option<String>)
        ensures
            opt_text_view(r) == first_typed_text(self@.chunks),
    {
        proof {
            lemma_chunks_view_index(self.chunks@);
            assert(self@.chunks.skip(0) =~= self@.chunks);
        }
        let mut i: usize = 0;
        while i < self.chunks.len()
            invariant
                i <= self.chunks@.len(),
                self@.chunks.len() == self.chunks@.len(),
                forall|j: int| 0 <= j < self.chunks@.len() ==> self@.chunks[j] == chunk_view(
                    self.chunks@[j],
                ),
                first_typed_text(self@.chunks) == first_typed_text(
                    self@.chunks.skip(i as int),
                ),
            decreases self.chunks@.len() - i,
        {
            proof {
                assert(self@.chunks.skip(i as int)[0] == self@.chunks[i as int]);
                assert(self@.chunks.skip(i as int).drop_first() =~= self@.chunks.skip(
                    i as int + 1,
                ));
            }
            if let CompletionChunk::TypedText(t) = &self.chunks[i] {
                return Some(t.clone());
            }
            i += 1;
        }
        proof {
            assert(self@.chunks.skip(i as int) =~= Seq::<ChunkView>::empty());
        }
        None
    }

    /// Returns the chunks of this template, in template order.
    pub fn get_chunks(&self) -> (r: Vec<CompletionChunk>)
        ensures
            chunks_view(r@) == self@.chunks,
    {
        copy_chunks(&self.chunks)
    }
}

} // verus!

verus! {

/// Law: exactly the optional chunk yields no text: every punctuation
/// marker yields its fixed literal and every text-bearing chunk its
/// carried text.
pub proof fn lemma_only_optional_has_no_text(c: ChunkView)
    ensures
        chunk_text(c) is None <==> c is Optional,
{
}

} // verus!
