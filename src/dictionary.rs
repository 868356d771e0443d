//! Dictionary entries and the definition sections made of them.

use vstd::prelude::*;
use crate::model::{Definition, DefinitionSection, Reply, SourceError, is_success};
use crate::text::{chars_of, concat_chars, copy_text, string_of};

verus! {

/// One sense of a meaning, as the dictionary service gives it.
#[derive(Debug, Clone, PartialEq, Eq)]
pub struct DefinitionEntry {
    pub definition: String,
    pub example: Option<String>,
}

/// The definitions of a word under one part of speech (empty when the
/// service names none).
#[derive(Debug, Clone, PartialEq, Eq)]
pub struct MeaningEntry {
    pub part_of_speech: String,
    pub definitions: Vec<DefinitionEntry>,
}

/// One entry of the dictionary service's answer.
#[derive(Debug, Clone, PartialEq, Eq)]
pub struct DictionaryEntry {
    pub word: String,
    pub meanings: Vec<MeaningEntry>,
}

/// The label of every section drawn from the dictionary service.
pub open spec fn dictionary_source() -> Seq<char> {
    "Free Dictionary API"@
}

/// The address of the dictionary service's entries.
pub open spec fn dictionary_base() -> Seq<char> {
    "https://api.dictionaryapi.dev/api/v2/entries/en/"@
}

pub open spec fn definition_of(word: String, pos: String, d: DefinitionEntry) -> Definition {
    Definition { word, part_of_speech: Some(pos), definition: d.definition, example: d.example }
}

/// The definitions of one meaning, tagged with the word and part of speech.
pub open spec fn meaning_definitions(word: String, m: MeaningEntry) -> Seq<Definition> {
    m.definitions@.map_values(|d: DefinitionEntry| definition_of(word, m.part_of_speech, d))
}

/// The definitions of all the meanings, in order.
pub open spec fn meanings_definitions(word: String, ms: Seq<MeaningEntry>) -> Seq<Definition>
    decreases ms.len(),
{
    if ms.len() == 0 {
        seq![]
    } else {
        meanings_definitions(word, ms.drop_last()) + meaning_definitions(word, ms.last())
    }
}

/// The flat list of definitions of an entry.
pub open spec fn entry_definitions(e: DictionaryEntry) -> Seq<Definition> {
    meanings_definitions(e.word, e.meanings@)
}

/// The section made of one entry.
pub open spec fn is_entry_section(s: DefinitionSection, e: DictionaryEntry) -> bool {
    s.source@ == dictionary_source() && s.definitions@ == entry_definitions(e)
}

/// One section per entry, in order.
pub open spec fn are_entry_sections(r: Seq<DefinitionSection>, es: Seq<DictionaryEntry>) -> bool {
    r.len() == es.len() && forall|i: int| 0 <= i < r.len() ==> is_entry_section(#[trigger] r[i], es[i])
}

fn push_meaning(defs: &mut Vec<Definition>, word: &String, m: &MeaningEntry)
    ensures
        final(defs)@ == old(defs)@ + meaning_definitions(*word, *m),
{
    let ghost start = defs@;
    let mut k: usize = 0;
    while k < m.definitions.len()
        invariant
            k <= m.definitions.len(),
            defs@ =~= start + meaning_definitions(*word, *m).subrange(0, k as int),
        decreases m.definitions.len() - k,
    {
        let d = &m.definitions[k];
        let def = Definition {
            word: word.clone(),
            part_of_speech: Some(m.part_of_speech.clone()),
            definition: d.definition.clone(),
            example: copy_text(&d.example),
        };
        defs.push(def);
        k += 1;
        assert(defs@ =~= start + meaning_definitions(*word, *m).subrange(0, k as int));
    }
    assert(meaning_definitions(*word, *m).subrange(0, k as int) =~= meaning_definitions(*word, *m));
}

/// The section of one entry: every definition of every meaning, tagged with
/// the entry's word and the meaning's part of speech.
pub fn entry_section(e: &DictionaryEntry) -> (r: DefinitionSection)
    ensures
        is_entry_section(r, *e),
{
    let mut defs: Vec<Definition> = Vec::new();
    let mut j: usize = 0;
    assert(e.meanings@.subrange(0, 0) =~= Seq::<MeaningEntry>::empty());
    while j < e.meanings.len()
        invariant
            j <= e.meanings.len(),
            defs@ == meanings_definitions(e.word, e.meanings@.subrange(0, j as int)),
        decreases e.meanings.len() - j,
    {
        push_meaning(&mut defs, &e.word, &e.meanings[j]);
        assert(e.meanings@.subrange(0, j + 1).drop_last() =~= e.meanings@.subrange(0, j as int));
        j += 1;
    }
    assert(e.meanings@.subrange(0, j as int) =~= e.meanings@);
    let label = chars_of("Free Dictionary API");
    DefinitionSection { source: string_of(label.as_slice()), definitions: defs }
}

/// One section per entry, in the order of the entries.
pub fn definitions_from_entries(entries: &Vec<DictionaryEntry>) -> (r: Vec<DefinitionSection>)
    ensures
        are_entry_sections(r@, entries@),
{
    let mut out: Vec<DefinitionSection> = Vec::new();
    let mut i: usize = 0;
    while i < entries.len()
        invariant
            i <= entries.len(),
            are_entry_sections(out@, entries@.subrange(0, i as int)),
        decreases entries.len() - i,
    {
        let s = entry_section(&entries[i]);
        out.push(s);
        i += 1;
        assert(are_entry_sections(out@, entries@.subrange(0, i as int)));
    }
    assert(entries@.subrange(0, i as int) =~= entries@);
    out
}

/// What the dictionary service's reply means: sections on success, none on
/// "not found" (404), an error on any other failure.
pub open spec fn dictionary_outcome_ok(reply: Reply<Vec<DictionaryEntry>>, r: Result<
    Vec<DefinitionSection>,
    SourceError,
>) -> bool {
    match reply {
        Reply::Unreachable => r == Err::<Vec<DefinitionSection>, SourceError>(
            SourceError::SourceUnavailable,
        ),
        Reply::Answered { status, body } => if is_success(status) {
            match body {
                Some(es) => r is Ok && are_entry_sections(r->Ok_0@, es@),
                None => r == Err::<Vec<DefinitionSection>, SourceError>(
                    SourceError::SourceParseError,
                ),
            }
        } else if status == 404 {
            r is Ok && r->Ok_0@.len() == 0
        } else {
            r == Err::<Vec<DefinitionSection>, SourceError>(SourceError::UnexpectedStatus(status))
        },
    }
}

pub fn dictionary_outcome(reply: &Reply<Vec<DictionaryEntry>>) -> (r: Result<
    Vec<DefinitionSection>,
    SourceError,
>)
    ensures
        dictionary_outcome_ok(*reply, r),
{
    match reply {
        Reply::Unreachable => Err(SourceError::SourceUnavailable),
        Reply::Answered { status, body } => {
            if 200 <= *status && *status <= 299 {
                match body {
                    Some(es) => Ok(definitions_from_entries(es)),
                    None => Err(SourceError::SourceParseError),
                }
            } else if *status == 404 {
                Ok(Vec::new())
            } else {
                Err(SourceError::UnexpectedStatus(*status))
            }
        },
    }
}

/// The address that the entries of `query` are fetched from.
pub fn dictionary_url(query: &str) -> (r: String)
    ensures
        r@ == dictionary_base() + query@,
{
    let base = chars_of("https://api.dictionaryapi.dev/api/v2/entries/en/");
    let q = chars_of(query);
    let all = concat_chars(&base, &q);
    string_of(all.as_slice())
}

} // verus!
