//! One lookup as a state machine: it names the next fetch to perform, takes
//! each reply, and merges what the sources gave into one result.

use vstd::prelude::*;
use crate::dictionary::{
    DictionaryEntry, are_entry_sections, dictionary_base, dictionary_outcome, dictionary_url,
};
use crate::encyclopedia::{
    SummaryPage, is_page_section, lacks_content, summary_base, summary_url, wikipedia_outcome,
};
use crate::model::{
    ContentType, DefinitionSection, LookupError, LookupResult, Reply, Sections, SourceError,
    ThesaurusSection, WikipediaSection, is_success,
};
use crate::query::{classify, classify_content, clean_query, normalized};
use crate::encyclopedia::disambiguation_marker;
use crate::text::{ascii_lowered, collapse, contains, is_ascii_text, lower_of, underscored};

verus! {

/// Which reply a session waits for.
#[derive(Debug, Clone, Copy, PartialEq, Eq, Structural)]
pub enum Stage {
    AwaitDictionary,
    AwaitEncyclopedia,
    Done,
}

/// What the caller is to do next.
#[derive(Debug, Clone, PartialEq, Eq)]
pub enum Action {
    /// Fetch this address from the dictionary service, then call `on_dictionary`.
    FetchDictionary(String),
    /// Fetch this address from the encyclopedia service, then call `on_encyclopedia`.
    FetchEncyclopedia(String),
    /// All sources are in: call `finish`.
    Finish,
}

/// A lookup under way.
#[derive(Debug, Clone, PartialEq, Eq)]
pub struct LookupSession {
    pub query: String,
    pub content_type: ContentType,
    pub sections: Sections,
    pub stage: Stage,
}

/// Entities are looked up in the encyclopedia only; words, and mixed
/// queries, in the dictionary first.
pub open spec fn first_stage(ct: ContentType) -> Stage {
    if ct == ContentType::Entity {
        Stage::AwaitEncyclopedia
    } else {
        Stage::AwaitDictionary
    }
}

/// The definitions a dictionary reply leaves in the result: present only
/// for a successful reply with at least one entry.
pub open spec fn definitions_from_reply(
    reply: Reply<Vec<DictionaryEntry>>,
    d: Option<Vec<DefinitionSection>>,
) -> bool {
    match reply {
        Reply::Answered { status, body: Some(es) } => if is_success(status) && es@.len() > 0 {
            d is Some && are_entry_sections(d->0@, es@)
        } else {
            d is None
        },
        _ => d is None,
    }
}

/// The summary an encyclopedia reply leaves in the result: present only
/// for a successful reply whose page has usable text.
pub open spec fn wikipedia_from_reply(reply: Reply<SummaryPage>, w: Option<WikipediaSection>) -> bool {
    match reply {
        Reply::Answered { status, body: Some(p) } => if is_success(status) && !lacks_content(
            p.extract@,
            lower_of(p.extract@),
        ) {
            w is Some && is_page_section(w->0, p)
        } else {
            w is None
        },
        _ => w is None,
    }
}

impl LookupSession {
    /// No entity is ever sent to the dictionary, and no section is filled
    /// before its reply.
    pub open spec fn wf(&self) -> bool {
        &&& self.content_type == ContentType::Entity ==> self.stage != Stage::AwaitDictionary
            && self.sections.definitions is None
        &&& self.stage == Stage::AwaitDictionary ==> self.sections.definitions is None
        &&& self.stage != Stage::Done ==> self.sections.wikipedia is None
        &&& self.sections.thesaurus is None
    }

    /// A session for an already normalized query of a given kind.
    pub fn start(query: String, content_type: ContentType) -> (r: LookupSession)
        ensures
            r.query == query,
            r.content_type == content_type,
            r.stage == first_stage(content_type),
            r.sections.definitions is None,
            r.sections.wikipedia is None,
            r.sections.thesaurus is None,
            r.wf(),
    {
        let stage = if content_type == ContentType::Entity {
            Stage::AwaitEncyclopedia
        } else {
            Stage::AwaitDictionary
        };
        LookupSession { query, content_type, sections: Sections::empty(), stage }
    }

    /// A session for a raw query: refused when it is blank, else normalized
    /// and classified on its form as typed.
    pub fn begin(raw: &str) -> (r: Result<LookupSession, LookupError>)
        ensures
            r is Err <==> normalized(raw@).len() == 0,
            r is Err <==> collapse(raw@).len() == 0,
            is_ascii_text(collapse(raw@)) ==> r is Ok ==> ascii_lowered(collapse(raw@), r->Ok_0.query@),
            r is Err ==> r == Err::<LookupSession, LookupError>(LookupError::EmptyQuery),
            r is Ok ==> ({
                let s = r->Ok_0;
                &&& s.query@ == normalized(raw@)
                &&& s.content_type == classify(raw@)
                &&& s.stage == first_stage(classify(raw@))
                &&& s.sections.definitions is None
                &&& s.sections.wikipedia is None
                &&& s.sections.thesaurus is None
                &&& s.wf()
            }),
    {
        let query = clean_query(raw);
        if query.as_str().unicode_len() == 0 {
            return Err(LookupError::EmptyQuery);
        }
        let content_type = classify_content(raw);
        Ok(LookupSession::start(query, content_type))
    }

    /// The fetch the session waits for, or `Finish`.
    pub fn next_action(&self) -> (r: Action)
        ensures
            self.stage == Stage::AwaitDictionary ==> r is FetchDictionary && r->FetchDictionary_0@
                == dictionary_base() + self.query@,
            self.stage == Stage::AwaitEncyclopedia ==> r is FetchEncyclopedia
                && r->FetchEncyclopedia_0@ == summary_base() + underscored(self.query@),
            self.stage == Stage::Done ==> r == Action::Finish,
            self.wf() && self.content_type == ContentType::Entity ==> !(r is FetchDictionary),
    {
        match self.stage {
            Stage::AwaitDictionary => Action::FetchDictionary(dictionary_url(self.query.as_str())),
            Stage::AwaitEncyclopedia => Action::FetchEncyclopedia(
                summary_url(self.query.as_str()),
            ),
            Stage::Done => Action::Finish,
        }
    }

    /// Takes the dictionary's reply: its definitions are kept when there
    /// are any, and the encyclopedia is asked next. A failure only leaves
    /// the definitions out. Outside that stage nothing changes.
    pub fn on_dictionary(&mut self, reply: &Reply<Vec<DictionaryEntry>>)
        ensures
            old(self).stage != Stage::AwaitDictionary ==> *final(self) == *old(self),
            old(self).stage == Stage::AwaitDictionary ==> {
                &&& final(self).stage == Stage::AwaitEncyclopedia
                &&& final(self).query == old(self).query
                &&& final(self).content_type == old(self).content_type
                &&& final(self).sections.wikipedia == old(self).sections.wikipedia
                &&& final(self).sections.thesaurus == old(self).sections.thesaurus
                &&& definitions_from_reply(*reply, final(self).sections.definitions)
            },
            old(self).wf() ==> final(self).wf(),
    {
        if self.stage != Stage::AwaitDictionary {
            return ;
        }
        let outcome = dictionary_outcome(reply);
        let definitions = match outcome {
            Ok(v) => if v.len() > 0 {
                Some(v)
            } else {
                None
            },
            Err(_) => None,
        };
        self.sections.definitions = definitions;
        self.stage = Stage::AwaitEncyclopedia;
    }

    /// Takes the encyclopedia's reply: its summary is kept when the page has
    /// usable text, and the session is done. A failure only leaves the
    /// summary out. Outside that stage nothing changes.
    pub fn on_encyclopedia(&mut self, reply: &Reply<SummaryPage>)
        ensures
            old(self).stage != Stage::AwaitEncyclopedia ==> *final(self) == *old(self),
            old(self).stage == Stage::AwaitEncyclopedia ==> {
                &&& final(self).stage == Stage::Done
                &&& final(self).query == old(self).query
                &&& final(self).content_type == old(self).content_type
                &&& final(self).sections.definitions == old(self).sections.definitions
                &&& final(self).sections.thesaurus == old(self).sections.thesaurus
                &&& wikipedia_from_reply(*reply, final(self).sections.wikipedia)
            },
            old(self).wf() ==> final(self).wf(),
    {
        if self.stage != Stage::AwaitEncyclopedia {
            return ;
        }
        let outcome = wikipedia_outcome(reply);
        let wikipedia = match outcome {
            Ok(w) => Some(w),
            Err(_) => None,
        };
        self.sections.wikipedia = wikipedia;
        self.stage = Stage::Done;
    }

    /// The result gathered so far.
    pub fn finish(self) -> (r: LookupResult)
        ensures
            r.query == self.query,
            r.content_type == self.content_type,
            r.sections == self.sections,
    {
        LookupResult { query: self.query, content_type: self.content_type, sections: self.sections }
    }

    pub fn stage(&self) -> (r: Stage)
        ensures
            r == self.stage,
    {
        self.stage
    }
}

/// An entity is never looked up in the dictionary: a well-formed session
/// of an entity does not wait for it, and so never asks for it.
pub proof fn lemma_entity_skips_dictionary(s: LookupSession)
    requires
        s.wf(),
        s.content_type == ContentType::Entity,
    ensures
        s.stage != Stage::AwaitDictionary,
        s.sections.definitions is None,
{
}

/// A dictionary that has no entry (404) leaves the definitions out, while a
/// successful encyclopedia reply with usable text still gives its summary.
pub proof fn lemma_dictionary_miss_keeps_summary(
    dictionary: Reply<Vec<DictionaryEntry>>,
    d: Option<Vec<DefinitionSection>>,
    encyclopedia: Reply<SummaryPage>,
    w: Option<WikipediaSection>,
    page: SummaryPage,
    status: u16,
)
    requires
        dictionary matches Reply::Answered { status: 404, .. },
        encyclopedia == (Reply::<SummaryPage>::Answered { status, body: Some(page) }),
        is_success(status),
        !lacks_content(page.extract@, lower_of(page.extract@)),
        definitions_from_reply(dictionary, d),
        wikipedia_from_reply(encyclopedia, w),
    ensures
        d is None,
        w is Some && is_page_section(w->0, page),
{
}

/// A page whose lowercased text says "may refer to" leaves the summary out.
pub proof fn lemma_disambiguation_is_dropped(
    encyclopedia: Reply<SummaryPage>,
    w: Option<WikipediaSection>,
    page: SummaryPage,
    status: u16,
)
    requires
        encyclopedia == (Reply::<SummaryPage>::Answered { status, body: Some(page) }),
        contains(lower_of(page.extract@), disambiguation_marker()),
        wikipedia_from_reply(encyclopedia, w),
    ensures
        w is None,
{
}

/// The thesaurus source: none is integrated, so it always gives an empty
/// section.
pub fn get_thesaurus_data(query: &str) -> (r: Result<ThesaurusSection, SourceError>)
    ensures
        r is Ok,
        r->Ok_0.synonyms@.len() == 0,
        r->Ok_0.antonyms@.len() == 0,
        r->Ok_0.related_terms@.len() == 0,
{
    Ok(ThesaurusSection { synonyms: Vec::new(), antonyms: Vec::new(), related_terms: Vec::new() })
}

} // verus!
