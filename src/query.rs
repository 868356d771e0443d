//! Normalizing and classifying a raw query.

use vstd::prelude::*;
use crate::model::ContentType;
use crate::text::{
    ascii_lowered, is_ascii_text, is_space,
    chars_of, collapse, collapse_spaces, count_words, is_upper, lower_of, lowercase, string_of,
    uppercase, word_count,
};

verus! {

/// The form a query is looked up under: collapsed, then lowercased.
pub open spec fn normalized(raw: Seq<char>) -> Seq<char> {
    lower_of(collapse(raw))
}

/// Kind of a query from whether its first letter is a capital and how
/// many words it has.
pub open spec fn content_type_of(first_upper: bool, words: nat) -> ContentType {
    if first_upper {
        ContentType::Entity
    } else if words > 2 {
        ContentType::Entity
    } else {
        ContentType::Word
    }
}

/// Whether the first non-whitespace character of `raw` is a capital.
pub open spec fn starts_upper(raw: Seq<char>) -> bool {
    collapse(raw).len() > 0 && uppercase(collapse(raw)[0])
}

/// Kind of a raw query, read from its casing as typed and its word count.
pub open spec fn classify(raw: Seq<char>) -> ContentType {
    content_type_of(starts_upper(raw), word_count(collapse(raw)))
}

pub fn content_type_for(first_upper: bool, words: usize) -> (r: ContentType)
    ensures
        r == content_type_of(first_upper, words as nat),
{
    if first_upper {
        ContentType::Entity
    } else if words > 2 {
        ContentType::Entity
    } else {
        ContentType::Word
    }
}

/// The normalized query: trimmed, inner whitespace runs collapsed to one
/// space, lowercased.
pub fn clean_query(query: &str) -> (r: String)
    ensures
        r@ == normalized(query@),
        r@.len() >= collapse(query@).len(),
        collapse(query@).len() == 0 ==> r@.len() == 0,
        is_ascii_text(collapse(query@)) ==> ascii_lowered(collapse(query@), r@),
{
    let chars = chars_of(query);
    let collapsed = collapse_spaces(&chars);
    let s = string_of(collapsed.as_slice());
    lowercase(s.as_str())
}

/// The kind of a raw query: `Entity` when its first letter is a capital or
/// it has more than two words, `Word` otherwise. `Mixed` never comes out.
pub fn classify_content(query: &str) -> (r: ContentType)
    ensures
        r == classify(query@),
        r != ContentType::Mixed,
{
    let chars = chars_of(query);
    let collapsed = collapse_spaces(&chars);
    let first_upper = collapsed.len() > 0 && is_upper(collapsed[0]);
    let words = count_words(&collapsed);
    content_type_for(first_upper, words)
}


/// A character with `A`..`Z` read as `a`..`z`.
pub open spec fn ascii_folded(c: char) -> int {
    if 65 <= (c as u32) <= 90 {
        (c as u32) + 32
    } else {
        (c as u32) as int
    }
}

/// Two texts that differ at most in the case of ASCII letters.
pub open spec fn same_but_ascii_case(x: Seq<char>, y: Seq<char>) -> bool {
    x.len() == y.len() && forall|i: int| 0 <= i < x.len() ==> ascii_folded(#[trigger] x[i]) == ascii_folded(y[i])
}

/// A query made only of whitespace collapses to nothing, so a lookup of it
/// is refused as empty.
pub proof fn lemma_blank_query_is_empty(raw: Seq<char>)
    requires
        forall|i: int| 0 <= i < raw.len() ==> is_space(#[trigger] raw[i]),
    ensures
        collapse(raw).len() == 0,
    decreases raw.len(),
{
    if raw.len() > 0 {
        lemma_blank_query_is_empty(raw.drop_last());
    }
}

/// Two queries that differ only in how they are spaced are looked up under
/// the same normalized query and get the same kind.
pub proof fn lemma_spacing_is_irrelevant(a: Seq<char>, b: Seq<char>)
    requires
        collapse(a) == collapse(b),
    ensures
        normalized(a) == normalized(b),
        classify(a) == classify(b),
{
}

proof fn lemma_word_count_same_spacing(x: Seq<char>, y: Seq<char>)
    requires
        x.len() == y.len(),
        forall|i: int| 0 <= i < x.len() ==> is_space(#[trigger] x[i]) == is_space(y[i]),
    ensures
        word_count(x) == word_count(y),
    decreases x.len(),
{
    if x.len() > 0 {
        lemma_word_count_same_spacing(x.drop_last(), y.drop_last());
        assert(is_space(x[x.len() - 1]) == is_space(y[y.len() - 1]));
        if x.len() > 1 {
            assert(is_space(x[x.len() - 2]) == is_space(y[y.len() - 2]));
        }
    }
}

/// Two ASCII queries that differ only in spacing and letter case: the
/// lowercased forms of their collapsed texts (what `LookupSession::begin`
/// gives as the query) are equal, they have as many words, and they get the
/// same kind when their first letters agree in being capitals.
pub proof fn lemma_case_is_irrelevant(a: Seq<char>, b: Seq<char>, qa: Seq<char>, qb: Seq<char>)
    requires
        is_ascii_text(collapse(a)),
        is_ascii_text(collapse(b)),
        same_but_ascii_case(collapse(a), collapse(b)),
        ascii_lowered(collapse(a), qa),
        ascii_lowered(collapse(b), qb),
    ensures
        qa == qb,
        word_count(collapse(a)) == word_count(collapse(b)),
        starts_upper(a) == starts_upper(b) ==> classify(a) == classify(b),
{
    let x = collapse(a);
    let y = collapse(b);
    assert forall|i: int| 0 <= i < qa.len() implies qa[i] == qb[i] by {
        assert(ascii_folded(x[i]) == ascii_folded(y[i]));
        assert((qa[i] as u32) == (qb[i] as u32));
        vstd::utf8::char_u32_cast(qa[i], qa[i] as u32);
        vstd::utf8::char_u32_cast(qb[i], qb[i] as u32);
    }
    assert(qa =~= qb);
    assert forall|i: int| 0 <= i < x.len() implies is_space(#[trigger] x[i]) == is_space(y[i]) by {
        assert(ascii_folded(x[i]) == ascii_folded(y[i]));
        if !(65 <= (x[i] as u32) <= 90) && !(65 <= (y[i] as u32) <= 90) {
            assert((x[i] as u32) == (y[i] as u32));
            vstd::utf8::char_u32_cast(x[i], x[i] as u32);
            vstd::utf8::char_u32_cast(y[i], y[i] as u32);
        }
    }
    lemma_word_count_same_spacing(x, y);
}

} // verus!
