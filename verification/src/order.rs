//! The ranking order over templates: ascending priority, then typed text,
//! with the laws that make it usable for presentation sorting.

use vstd::prelude::*;
use core::cmp::Ordering;
use crate::string::{first_typed_text, CompletionString, StringView};
use vstd::string::StrSliceExecFns;

verus! {

/// Lexicographic comparison of two texts, code point by code point; a
/// proper prefix sorts before the longer text.
pub open spec fn lex_cmp(a: Seq<char>, b: Seq<char>) -> Ordering
    decreases a.len(),
{
    if a.len() == 0 && b.len() == 0 {
        Ordering::Equal
    } else if a.len() == 0 {
        Ordering::Less
    } else if b.len() == 0 {
        Ordering::Greater
    } else if (a[0] as u32) < (b[0] as u32) {
        Ordering::Less
    } else if (a[0] as u32) > (b[0] as u32) {
        Ordering::Greater
    } else {
        lex_cmp(a.drop_first(), b.drop_first())
    }
}

/// Comparison of two optional typed texts: "no typed text" sorts strictly
/// before "has typed text", and two present texts compare lexicographically.
pub open spec fn typed_text_cmp(a: Option<Seq<char>>, b: Option<Seq<char>>) -> Ordering {
    match (a, b) {
        (None, None) => Ordering::Equal,
        (None, Some(_)) => Ordering::Less,
        (Some(_), None) => Ordering::Greater,
        (Some(x), Some(y)) => lex_cmp(x, y),
    }
}

/// The ranking order of two templates: ascending priority first; on equal
/// priority, by the first typed text.
pub open spec fn string_cmp(a: StringView, b: StringView) -> Ordering {
    if a.priority < b.priority {
        Ordering::Less
    } else if a.priority > b.priority {
        Ordering::Greater
    } else {
        typed_text_cmp(first_typed_text(a.chunks), first_typed_text(b.chunks))
    }
}

/// The opposite outcome of a comparison.
pub open spec fn reversed(o: Ordering) -> Ordering {
    match o {
        Ordering::Less => Ordering::Greater,
        Ordering::Equal => Ordering::Equal,
        Ordering::Greater => Ordering::Less,
    }
}

/// Lexicographic comparison of two texts.
fn lex_cmp_texts(a: &String, b: &String) -> (r: Ordering)
    ensures
        r == lex_cmp(a@, b@),
{
    let alen = a.as_str().unicode_len();
    let blen = b.as_str().unicode_len();
    proof {
        assert(a@.skip(0) =~= a@);
        assert(b@.skip(0) =~= b@);
    }
    let mut i: usize = 0;
    while i < alen && i < blen
        invariant
            i <= alen,
            i <= blen,
            alen == a@.len(),
            blen == b@.len(),
            lex_cmp(a@, b@) == lex_cmp(a@.skip(i as int), b@.skip(i as int)),
        decreases alen - i,
    {
        proof {
            assert(a@.skip(i as int)[0] == a@[i as int]);
            assert(b@.skip(i as int)[0] == b@[i as int]);
            assert(a@.skip(i as int).drop_first() =~= a@.skip(i as int + 1));
            assert(b@.skip(i as int).drop_first() =~= b@.skip(i as int + 1));
        }
        let ca = a.as_str().get_char(i);
        let cb = b.as_str().get_char(i);
        if (ca as u32) < (cb as u32) {
            return Ordering::Less;
        }
        if (ca as u32) > (cb as u32) {
            return Ordering::Greater;
        }
        i += 1;
    }
    if alen < blen {
        Ordering::Less
    } else if alen > blen {
        Ordering::Greater
    } else {
        Ordering::Equal
    }
}

impl CompletionString {
    /// Compares two templates for presentation ranking: ascending priority
    /// first; on equal priority, a template without typed text sorts
    /// strictly before one with typed text, and two typed texts compare
    /// lexicographically by code point.
    pub fn cmp(&self, other: &CompletionString) -> (r: Ordering)
        ensures
            r == string_cmp(self@, other@),
    {
        if self.priority < other.priority {
            Ordering::Less
        } else if self.priority > other.priority {
            Ordering::Greater
        } else {
            let ta = self.get_typed_text();
            let tb = other.get_typed_text();
            match (ta, tb) {
                (None, None) => Ordering::Equal,
                (None, Some(_)) => Ordering::Less,
                (Some(_), None) => Ordering::Greater,
                (Some(x), Some(y)) => lex_cmp_texts(&x, &y),
            }
        }
    }
}

impl PartialOrd for CompletionString {
    /// The ranking order; always defined.
    fn partial_cmp(&self, other: &CompletionString) -> (r: Option<Ordering>) {
        Some(self.cmp(other))
    }
}

impl vstd::std_specs::cmp::PartialOrdSpecImpl for CompletionString {
    open spec fn obeys_partial_cmp_spec() -> bool {
        true
    }

    open spec fn partial_cmp_spec(&self, other: &CompletionString) -> Option<Ordering> {
        Some(string_cmp(self@, other@))
    }
}

/// Law: a template with strictly smaller priority ranks strictly before one
/// with larger priority, whatever typed text either carries.
pub proof fn lemma_priority_ranks_first(a: StringView, b: StringView)
    requires
        a.priority < b.priority,
    ensures
        string_cmp(a, b) == Ordering::Less,
        string_cmp(b, a) == Ordering::Greater,
{
}

/// Law: on equal priorities, a template without typed text ranks strictly
/// before one with typed text.
pub proof fn lemma_no_typed_text_ranks_first(a: StringView, b: StringView)
    requires
        a.priority == b.priority,
        first_typed_text(a.chunks) is None,
        first_typed_text(b.chunks) is Some,
    ensures
        string_cmp(a, b) == Ordering::Less,
        string_cmp(b, a) == Ordering::Greater,
{
}

/// Law: on equal priorities, two templates with typed text rank by the
/// lexicographic order of the texts.
pub proof fn lemma_typed_texts_rank_lexicographically(
    a: StringView,
    b: StringView,
    ta: Seq<char>,
    tb: Seq<char>,
)
    requires
        a.priority == b.priority,
        first_typed_text(a.chunks) == Some(ta),
        first_typed_text(b.chunks) == Some(tb),
    ensures
        string_cmp(a, b) == lex_cmp(ta, tb),
{
}

/// Law: lexicographic comparison read in the other direction gives the
/// opposite outcome.
pub proof fn lemma_lex_cmp_reversed(a: Seq<char>, b: Seq<char>)
    ensures
        lex_cmp(b, a) == reversed(lex_cmp(a, b)),
    decreases a.len(),
{
    if a.len() != 0 && b.len() != 0 && (a[0] as u32) == (b[0] as u32) {
        lemma_lex_cmp_reversed(a.drop_first(), b.drop_first());
    }
}

/// Law: the ranking order is antisymmetric: comparing in the other
/// direction gives the opposite outcome, so exactly one of "before",
/// "equal" and "after" holds of every pair.
pub proof fn lemma_string_cmp_reversed(a: StringView, b: StringView)
    ensures
        string_cmp(b, a) == reversed(string_cmp(a, b)),
{
    if a.priority == b.priority {
        match (first_typed_text(a.chunks), first_typed_text(b.chunks)) {
            (Some(x), Some(y)) => lemma_lex_cmp_reversed(x, y),
            _ => {},
        }
    }
}

} // verus!

verus! {

/// Law: lexicographic comparison is transitive: a text at-or-before a
/// second, which is at-or-before a third, is at-or-before the third, and
/// strictly before it when either step is strict.
pub proof fn lemma_lex_cmp_transitive(a: Seq<char>, b: Seq<char>, c: Seq<char>)
    requires
        lex_cmp(a, b) != Ordering::Greater,
        lex_cmp(b, c) != Ordering::Greater,
    ensures
        lex_cmp(a, c) != Ordering::Greater,
        (lex_cmp(a, b) == Ordering::Less || lex_cmp(b, c) == Ordering::Less) ==> lex_cmp(a, c)
            == Ordering::Less,
    decreases a.len(),
{
    if a.len() != 0 && b.len() != 0 && c.len() != 0 && (a[0] as u32) == (b[0] as u32) && (
    b[0] as u32) == (c[0] as u32) {
        lemma_lex_cmp_transitive(a.drop_first(), b.drop_first(), c.drop_first());
    }
}

/// Law: the ranking order is transitive: a template ranked at-or-before a
/// second, which is ranked at-or-before a third, is ranked at-or-before the
/// third, and strictly before it when either step is strict. Together with
/// antisymmetry this makes the ranking a total preorder, usable directly to
/// drive a presentation order.
pub proof fn lemma_string_cmp_transitive(a: StringView, b: StringView, c: StringView)
    requires
        string_cmp(a, b) != Ordering::Greater,
        string_cmp(b, c) != Ordering::Greater,
    ensures
        string_cmp(a, c) != Ordering::Greater,
        (string_cmp(a, b) == Ordering::Less || string_cmp(b, c) == Ordering::Less) ==> string_cmp(
            a,
            c,
        ) == Ordering::Less,
{
    if a.priority == c.priority {
        match (
            first_typed_text(a.chunks),
            first_typed_text(b.chunks),
            first_typed_text(c.chunks),
        ) {
            (Some(x), Some(y), Some(z)) => lemma_lex_cmp_transitive(x, y, z),
            _ => {},
        }
    }
}

} // verus!
