//! Encyclopedia page summaries and the section made of them.

use vstd::prelude::*;
use crate::model::{Reply, SourceError, WikipediaSection, is_success};
use crate::text::{
    chars_of, concat_chars, contains, copy_text, contains_chars, lower_of, lowercase, paragraphs_of,
    split_paragraphs, string_of, underscore_spaces, underscored, views_of,
};

verus! {

/// A page summary, as the encyclopedia service gives it.
#[derive(Debug, Clone, PartialEq, Eq)]
pub struct SummaryPage {
    pub title: String,
    pub extract: String,
    /// The address of the page's thumbnail image, if it has one.
    pub thumbnail: Option<String>,
    /// The address of the page for desktop browsers.
    pub page_url: String,
}

/// The phrase that marks a page listing several meanings.
pub open spec fn disambiguation_marker() -> Seq<char> {
    "may refer to"@
}

/// The address of the encyclopedia service's page summaries.
pub open spec fn summary_base() -> Seq<char> {
    "https://en.wikipedia.org/api/rest_v1/page/summary/"@
}

/// A summary with no text, or whose lowercased text holds the marker.
pub open spec fn lacks_content(extract: Seq<char>, lowered: Seq<char>) -> bool {
    extract.len() == 0 || contains(lowered, disambiguation_marker())
}

/// The section carries the page's title, text, paragraphs, image and address.
pub open spec fn is_page_section(w: WikipediaSection, p: SummaryPage) -> bool {
    &&& w.title == p.title
    &&& w.summary == p.extract
    &&& views_of(w.paragraphs@) == paragraphs_of(p.extract@)
    &&& w.image_url == p.thumbnail
    &&& w.url == p.page_url
}

/// Whether a summary is to be dropped, given its text and that text
/// lowercased.
pub fn is_disambiguation(extract: &str, lowered: &str) -> (r: bool)
    ensures
        r == lacks_content(extract@, lowered@),
{
    let text = chars_of(extract);
    if text.len() == 0 {
        return true;
    }
    let hay = chars_of(lowered);
    let marker = chars_of("may refer to");
    contains_chars(&hay, &marker)
}

/// The section of a page: its text split into trimmed, non-blank lines.
pub fn page_section(page: &SummaryPage) -> (r: WikipediaSection)
    ensures
        is_page_section(r, *page),
{
    let text = chars_of(page.extract.as_str());
    WikipediaSection {
        title: page.title.clone(),
        summary: page.extract.clone(),
        paragraphs: split_paragraphs(&text),
        image_url: copy_text(&page.thumbnail),
        url: page.page_url.clone(),
    }
}

/// The section of a page given its lowercased text, unless the page is a
/// disambiguation page or empty.
pub fn summary_section(page: &SummaryPage, lowered: &str) -> (r: Result<
    WikipediaSection,
    SourceError,
>)
    ensures
        lacks_content(page.extract@, lowered@) ==> r == Err::<WikipediaSection, SourceError>(
            SourceError::Disambiguation,
        ),
        !lacks_content(page.extract@, lowered@) ==> r is Ok && is_page_section(r->Ok_0, *page),
{
    if is_disambiguation(page.extract.as_str(), lowered) {
        Err(SourceError::Disambiguation)
    } else {
        Ok(page_section(page))
    }
}

/// What the encyclopedia service's reply means: a section on success with
/// usable text, an error otherwise ("not found" on 404).
pub open spec fn wikipedia_outcome_ok(reply: Reply<SummaryPage>, r: Result<
    WikipediaSection,
    SourceError,
>) -> bool {
    match reply {
        Reply::Unreachable => r == Err::<WikipediaSection, SourceError>(
            SourceError::SourceUnavailable,
        ),
        Reply::Answered { status, body } => if is_success(status) {
            match body {
                Some(p) => if lacks_content(p.extract@, lower_of(p.extract@)) {
                    r == Err::<WikipediaSection, SourceError>(SourceError::Disambiguation)
                } else {
                    r is Ok && is_page_section(r->Ok_0, p)
                },
                None => r == Err::<WikipediaSection, SourceError>(SourceError::SourceParseError),
            }
        } else if status == 404 {
            r == Err::<WikipediaSection, SourceError>(SourceError::NotFound)
        } else {
            r == Err::<WikipediaSection, SourceError>(SourceError::UnexpectedStatus(status))
        },
    }
}

pub fn wikipedia_outcome(reply: &Reply<SummaryPage>) -> (r: Result<WikipediaSection, SourceError>)
    ensures
        wikipedia_outcome_ok(*reply, r),
{
    match reply {
        Reply::Unreachable => Err(SourceError::SourceUnavailable),
        Reply::Answered { status, body } => {
            if 200 <= *status && *status <= 299 {
                match body {
                    Some(page) => {
                        let lowered = lowercase(page.extract.as_str());
                        summary_section(page, lowered.as_str())
                    },
                    None => Err(SourceError::SourceParseError),
                }
            } else if *status == 404 {
                Err(SourceError::NotFound)
            } else {
                Err(SourceError::UnexpectedStatus(*status))
            }
        },
    }
}

/// The address that the summary of `query` is fetched from: spaces become
/// underscores.
pub fn summary_url(query: &str) -> (r: String)
    ensures
        r@ == summary_base() + underscored(query@),
{
    let base = chars_of("https://en.wikipedia.org/api/rest_v1/page/summary/");
    let q = chars_of(query);
    let title = underscore_spaces(&q);
    let all = concat_chars(&base, &title);
    string_of(all.as_slice())
}

} // verus!
