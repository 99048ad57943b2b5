//! Structural equality of templates: two templates are equal exactly when
//! their fully decoded chunk sequences are equal, recursively through
//! optional chunks.

use vstd::prelude::*;
use crate::kinds::DecodeError;
use crate::raw::RawTemplate;
use crate::string::{chunk_view, chunks_view, decode_template, CompletionChunk, CompletionString,
    ChunkView, StringView};

verus! {

/// Structural equality of two chunk shapes: optional chunks are equal
/// exactly when their decoded chunk sequences are equal, element-wise and
/// recursively; every other pair is equal exactly when it is the same
/// chunk. Metadata of nested sub-templates takes no part in it.
pub open spec fn chunk_eq(a: ChunkView, b: ChunkView) -> bool
    decreases a,
{
    match (a, b) {
        (ChunkView::Optional(x), ChunkView::Optional(y)) => chunk_seq_eq(x.chunks, y.chunks),
        _ => a == b,
    }
}

/// Structural equality of two decoded chunk sequences: same length and
/// structurally equal element by element.
pub open spec fn chunk_seq_eq(a: Seq<ChunkView>, b: Seq<ChunkView>) -> bool
    decreases a,
{
    if a.len() != b.len() {
        false
    } else if a.len() == 0 {
        true
    } else {
        chunk_eq(a[0], b[0]) && chunk_seq_eq(a.drop_first(), b.drop_first())
    }
}

/// Structural equality of chunk sequences holds exactly when the lengths
/// agree and every pair of corresponding elements is structurally equal.
pub proof fn lemma_chunk_seq_eq_index(a: Seq<ChunkView>, b: Seq<ChunkView>)
    ensures
        chunk_seq_eq(a, b) <==> (a.len() == b.len() && forall|j: int|
            0 <= j < a.len() ==> chunk_eq(a[j], b[j])),
    decreases a,
{
    if a.len() == b.len() && a.len() != 0 {
        lemma_chunk_seq_eq_index(a.drop_first(), b.drop_first());
        assert forall|j: int| 1 <= j < a.len() implies a.drop_first()[j - 1] == a[j]
            && b.drop_first()[j - 1] == b[j] by {}
    }
}

/// Law: structural equality of chunks is reflexive.
pub proof fn lemma_chunk_eq_reflexive(a: ChunkView)
    ensures
        chunk_eq(a, a),
    decreases a,
{
    match a {
        ChunkView::Optional(x) => lemma_chunk_seq_eq_reflexive(x.chunks),
        _ => {},
    }
}

/// Law: structural equality of chunk sequences is reflexive.
pub proof fn lemma_chunk_seq_eq_reflexive(a: Seq<ChunkView>)
    ensures
        chunk_seq_eq(a, a),
    decreases a,
{
    if a.len() != 0 {
        lemma_chunk_eq_reflexive(a[0]);
        lemma_chunk_seq_eq_reflexive(a.drop_first());
    }
}

/// Law: structural equality of chunks is symmetric.
pub proof fn lemma_chunk_eq_symmetric(a: ChunkView, b: ChunkView)
    ensures
        chunk_eq(a, b) == chunk_eq(b, a),
    decreases a,
{
    match (a, b) {
        (ChunkView::Optional(x), ChunkView::Optional(y)) => {
            lemma_chunk_seq_eq_symmetric(x.chunks, y.chunks);
        },
        _ => {},
    }
}

/// Law: structural equality of chunk sequences is symmetric.
pub proof fn lemma_chunk_seq_eq_symmetric(a: Seq<ChunkView>, b: Seq<ChunkView>)
    ensures
        chunk_seq_eq(a, b) == chunk_seq_eq(b, a),
    decreases a,
{
    if a.len() == b.len() && a.len() != 0 {
        lemma_chunk_eq_symmetric(a[0], b[0]);
        lemma_chunk_seq_eq_symmetric(a.drop_first(), b.drop_first());
    }
}

/// Law: structural equality of chunks is transitive.
pub proof fn lemma_chunk_eq_transitive(a: ChunkView, b: ChunkView, c: ChunkView)
    requires
        chunk_eq(a, b),
        chunk_eq(b, c),
    ensures
        chunk_eq(a, c),
    decreases a,
{
    match (a, b, c) {
        (ChunkView::Optional(x), ChunkView::Optional(y), ChunkView::Optional(z)) => {
            lemma_chunk_seq_eq_transitive(x.chunks, y.chunks, z.chunks);
        },
        _ => {},
    }
}

/// Law: structural equality of chunk sequences is transitive.
pub proof fn lemma_chunk_seq_eq_transitive(a: Seq<ChunkView>, b: Seq<ChunkView>, c: Seq<ChunkView>)
    requires
        chunk_seq_eq(a, b),
        chunk_seq_eq(b, c),
    ensures
        chunk_seq_eq(a, c),
    decreases a,
{
    if a.len() != 0 {
        lemma_chunk_eq_transitive(a[0], b[0], c[0]);
        lemma_chunk_seq_eq_transitive(a.drop_first(), b.drop_first(), c.drop_first());
    }
}

/// Structural equality of two chunks.
fn eq_chunks(a: &CompletionChunk, b: &CompletionChunk) -> (r: bool)
    ensures
        r == chunk_eq(a@, b@),
    decreases *a,
{
    match (a, b) {
        (CompletionChunk::Colon, CompletionChunk::Colon) => true,
        (CompletionChunk::Comma, CompletionChunk::Comma) => true,
        (CompletionChunk::Equals, CompletionChunk::Equals) => true,
        (CompletionChunk::Semicolon, CompletionChunk::Semicolon) => true,
        (CompletionChunk::LeftAngleBracket, CompletionChunk::LeftAngleBracket) => true,
        (CompletionChunk::RightAngleBracket, CompletionChunk::RightAngleBracket) => true,
        (CompletionChunk::LeftBrace, CompletionChunk::LeftBrace) => true,
        (CompletionChunk::RightBrace, CompletionChunk::RightBrace) => true,
        (CompletionChunk::LeftParenthesis, CompletionChunk::LeftParenthesis) => true,
        (CompletionChunk::RightParenthesis, CompletionChunk::RightParenthesis) => true,
        (CompletionChunk::LeftSquareBracket, CompletionChunk::LeftSquareBracket) => true,
        (CompletionChunk::RightSquareBracket, CompletionChunk::RightSquareBracket) => true,
        (CompletionChunk::HorizontalSpace(x), CompletionChunk::HorizontalSpace(y)) => *x == *y,
        (CompletionChunk::VerticalSpace(x), CompletionChunk::VerticalSpace(y)) => *x == *y,
        (CompletionChunk::CurrentParameter(x), CompletionChunk::CurrentParameter(y)) => *x == *y,
        (CompletionChunk::Informative(x), CompletionChunk::Informative(y)) => *x == *y,
        (CompletionChunk::Placeholder(x), CompletionChunk::Placeholder(y)) => *x == *y,
        (CompletionChunk::ResultType(x), CompletionChunk::ResultType(y)) => *x == *y,
        (CompletionChunk::Text(x), CompletionChunk::Text(y)) => *x == *y,
        (CompletionChunk::TypedText(x), CompletionChunk::TypedText(y)) => *x == *y,
        (CompletionChunk::Optional(x), CompletionChunk::Optional(y)) => eq_strings(x, y),
        _ => false,
    }
}

/// Structural equality of two chunk lists.
fn eq_chunk_lists(a: &Vec<CompletionChunk>, b: &Vec<CompletionChunk>) -> (r: bool)
    ensures
        r == chunk_seq_eq(chunks_view(a@), chunks_view(b@)),
    decreases a@,
{
    proof {
        crate::string::lemma_chunks_view_index(a@);
        crate::string::lemma_chunks_view_index(b@);
        lemma_chunk_seq_eq_index(chunks_view(a@), chunks_view(b@));
    }
    if a.len() != b.len() {
        return false;
    }
    let mut i: usize = 0;
    while i < a.len()
        invariant
            i <= a@.len(),
            a@.len() == b@.len(),
            chunks_view(a@).len() == a@.len(),
            chunks_view(b@).len() == b@.len(),
            forall|j: int| 0 <= j < a@.len() ==> chunks_view(a@)[j] == chunk_view(a@[j]),
            forall|j: int| 0 <= j < b@.len() ==> chunks_view(b@)[j] == chunk_view(b@[j]),
            chunk_seq_eq(chunks_view(a@), chunks_view(b@)) <==> (forall|j: int|
                0 <= j < a@.len() ==> chunk_eq(chunks_view(a@)[j], chunks_view(b@)[j])),
            forall|j: int| 0 <= j < i ==> chunk_eq(chunks_view(a@)[j], chunks_view(b@)[j]),
        decreases a@.len() - i,
    {
        if !eq_chunks(&a[i], &b[i]) {
            proof {
                assert(!chunk_eq(chunks_view(a@)[i as int], chunks_view(b@)[i as int]));
            }
            return false;
        }
        i += 1;
    }
    true
}

/// Structural equality of two templates: equal exactly when the decoded
/// chunk sequences are equal.
fn eq_strings(a: &CompletionString, b: &CompletionString) -> (r: bool)
    ensures
        r == chunk_seq_eq(a@.chunks, b@.chunks),
    decreases *a,
{
    eq_chunk_lists(&a.chunks, &b.chunks)
}

impl PartialEq for CompletionString {
    /// Structural equality: two templates are equal exactly when their
    /// fully decoded chunk sequences are equal, recursively through
    /// optional chunks; metadata takes no part in it.
    fn eq(&self, other: &CompletionString) -> (r: bool) {
        eq_strings(self, other)
    }
}

impl Eq for CompletionString {

}

impl vstd::std_specs::cmp::PartialEqSpecImpl for CompletionString {
    open spec fn obeys_eq_spec() -> bool {
        true
    }

    open spec fn eq_spec(&self, other: &CompletionString) -> bool {
        chunk_seq_eq(self@.chunks, other@.chunks)
    }
}

} // verus!

verus! {

/// Law: decoding is deterministic and side-effect free: two decodes of the
/// same template of the same arena yield the same shape, and that shape's
/// chunk sequence is structurally equal to itself.
pub proof fn lemma_decoding_idempotent(arena: Seq<RawTemplate>, i: int, a: StringView, b: StringView)
    requires
        decode_template(arena, i) == Ok::<StringView, DecodeError>(a),
        decode_template(arena, i) == Ok::<StringView, DecodeError>(b),
    ensures
        a == b,
        chunk_seq_eq(a.chunks, b.chunks),
{
    lemma_chunk_seq_eq_reflexive(a.chunks);
}

} // verus!

verus! {

impl PartialEq for CompletionChunk {
    /// Structural equality of chunks: optional chunks compare by their
    /// decoded chunk sequences, every other pair by kind and text.
    fn eq(&self, other: &CompletionChunk) -> (r: bool) {
        eq_chunks(self, other)
    }
}

impl Eq for CompletionChunk {

}

impl vstd::std_specs::cmp::PartialEqSpecImpl for CompletionChunk {
    open spec fn obeys_eq_spec() -> bool {
        true
    }

    open spec fn eq_spec(&self, other: &CompletionChunk) -> bool {
        chunk_eq(self@, other@)
    }
}

} // verus!
