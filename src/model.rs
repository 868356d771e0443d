//! The lookup result and its sections.

use vstd::prelude::*;

verus! {

/// What kind of query a lookup deals with; decides which sources are asked.
#[derive(Debug, Clone, Copy, PartialEq, Eq, Structural)]
pub enum ContentType {
    Word,
    Entity,
    Mixed,
}

/// One definition of a word, with the part of speech of its meaning.
#[derive(Debug, Clone, PartialEq, Eq)]
pub struct Definition {
    pub word: String,
    pub part_of_speech: Option<String>,
    pub definition: String,
    pub example: Option<String>,
}

/// The definitions of one dictionary entry, labelled with their source.
#[derive(Debug, Clone, PartialEq, Eq)]
pub struct DefinitionSection {
    pub source: String,
    pub definitions: Vec<Definition>,
}

/// An encyclopedia summary of the query.
#[derive(Debug, Clone, PartialEq, Eq)]
pub struct WikipediaSection {
    pub title: String,
    pub summary: String,
    pub paragraphs: Vec<String>,
    pub image_url: Option<String>,
    pub url: String,
}

/// Related words; no source fills it yet.
#[derive(Debug, Clone, PartialEq, Eq)]
pub struct ThesaurusSection {
    pub synonyms: Vec<String>,
    pub antonyms: Vec<String>,
    pub related_terms: Vec<String>,
}

/// The parts of a result, each present only when its source gave usable data.
#[derive(Debug, Clone, PartialEq, Eq)]
pub struct Sections {
    pub definitions: Option<Vec<DefinitionSection>>,
    pub wikipedia: Option<WikipediaSection>,
    pub thesaurus: Option<ThesaurusSection>,
}

/// The merged answer to one lookup.
#[derive(Debug, Clone, PartialEq, Eq)]
pub struct LookupResult {
    pub query: String,
    pub content_type: ContentType,
    pub sections: Sections,
}

/// Why a whole lookup was refused.
#[derive(Debug, Clone, Copy, PartialEq, Eq, Structural)]
pub enum LookupError {
    /// The query is blank once whitespace is collapsed.
    EmptyQuery,
}

/// Why one source gave no section; never fatal to a lookup.
#[derive(Debug, Clone, Copy, PartialEq, Eq, Structural)]
pub enum SourceError {
    /// The service could not be reached.
    SourceUnavailable,
    /// The service answered with a failure status other than "not found".
    UnexpectedStatus(u16),
    /// The body did not have the expected shape.
    SourceParseError,
    /// The service has no such entry.
    NotFound,
    /// The page lists several meanings, or has no text.
    Disambiguation,
}

/// What a fetch brought back: no answer at all, or a status with the body
/// decoded (`None` where it could not be, or was not read).
#[derive(Debug, Clone, PartialEq, Eq)]
pub enum Reply<T> {
    Unreachable,
    Answered { status: u16, body: Option<T> },
}

/// A status in the success range.
pub open spec fn is_success(status: u16) -> bool {
    200 <= status <= 299
}

impl Sections {
    pub fn empty() -> (r: Sections)
        ensures
            r.definitions is None,
            r.wikipedia is None,
            r.thesaurus is None,
    {
        Sections { definitions: None, wikipedia: None, thesaurus: None }
    }
}

} // verus!
