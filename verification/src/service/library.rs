//! What the planning service tells the model of the documents that it
//! has stored, and how much of a page it keeps.

use vstd::prelude::*;
use vstd::string::*;
use crate::service::knowledge::{Source, SourceView};
use crate::text::{prefix_chars, prefix_seq};

verus! {

/// How many characters of a fetched page are kept.
pub const PAGE_LIMIT: usize = 8000;

/// How many characters of a document are quoted when it was found by its
/// words.
pub const SNIPPET_LIMIT: usize = 2000;

/// How many characters of a document are quoted when it was found by
/// plain matching.
pub const FALLBACK_SNIPPET_LIMIT: usize = 1500;

/// A stored document.
#[derive(Debug, Clone, PartialEq, Eq)]
pub struct Document {
    pub source_url: String,
    pub topic: String,
    pub content: String,
}

/// The mathematical value of a [`Document`].
pub struct DocumentView {
    pub source_url: Seq<char>,
    pub topic: Seq<char>,
    pub content: Seq<char>,
}

impl View for Document {
    type V = DocumentView;

    open spec fn view(&self) -> DocumentView {
        DocumentView { source_url: self.source_url@, topic: self.topic@, content: self.content@ }
    }
}

impl DeepView for Document {
    type V = DocumentView;

    open spec fn deep_view(&self) -> DocumentView {
        self.view()
    }
}

/// The quote of a document that was found by its words.
pub open spec fn quote_of(document: DocumentView) -> Seq<char> {
    "\n--- SOURCE: "@ + document.source_url + " ("@ + document.topic + ") ---\n"@ + prefix_seq(
        document.content,
        SNIPPET_LIMIT as nat,
    ) + "\n"@
}

/// The quote of a document that was found by plain matching.
pub open spec fn fallback_quote_of(document: DocumentView) -> Seq<char> {
    "\n--- SOURCE (Fallback): "@ + document.topic + " ---\n"@ + prefix_seq(
        document.content,
        FALLBACK_SNIPPET_LIMIT as nat,
    ) + "\n"@
}

/// The quotes of the documents, in order.
pub open spec fn quotes_of(documents: Seq<DocumentView>, fallback: bool) -> Seq<char>
    decreases documents.len(),
{
    if documents.len() == 0 {
        Seq::empty()
    } else {
        quotes_of(documents.drop_last(), fallback) + (if fallback {
            fallback_quote_of(documents.last())
        } else {
            quote_of(documents.last())
        })
    }
}

/// What is told of the documents that a search found: nothing where
/// none was found, else their quotes under a heading.
pub open spec fn findings_of(documents: Seq<DocumentView>, fallback: bool) -> Seq<char> {
    if quotes_of(documents, fallback).len() == 0 {
        Seq::empty()
    } else if fallback {
        "RELEVANT DOCUMENTATION FOUND (FALLBACK):\n"@ + quotes_of(documents, fallback)
    } else {
        "RELEVANT DOCUMENTATION FOUND:\n"@ + quotes_of(documents, fallback)
    }
}

/// The pattern that finds a query anywhere in a text.
pub open spec fn anywhere_pattern_of(query: Seq<char>) -> Seq<char> {
    "%"@ + query + "%"@
}

/// The addresses of the sources, in order.
pub open spec fn urls_of(sources: Seq<SourceView>) -> Seq<Seq<char>> {
    Seq::new(sources.len(), |i: int| sources[i].url)
}

/// What is kept of a fetched page: its first [`PAGE_LIMIT`] characters.
pub fn clip_page(text: &str) -> (kept: String)
    ensures
        kept@ == prefix_seq(text@, PAGE_LIMIT as nat),
{
    prefix_chars(text, PAGE_LIMIT)
}

/// What is told of the documents that a search found. `fallback` says
/// that they were found by plain matching.
pub fn render_findings(documents: &Vec<Document>, fallback: bool) -> (told: String)
    ensures
        told@ == findings_of(documents.deep_view(), fallback),
{
    let ghost all = documents.deep_view();
    let mut quotes = String::new();
    let mut i: usize = 0;
    assert(all.take(0) =~= Seq::empty());
    while i < documents.len()
        invariant
            i <= documents.len(),
            all == documents.deep_view(),
            quotes@ == quotes_of(all.take(i as int), fallback),
        decreases documents.len() - i,
    {
        let document = &documents[i];
        let ghost before = quotes@;
        proof {
            assert(all.take(i + 1).drop_last() =~= all.take(i as int));
            assert(all.take(i + 1).last() == document@);
        }
        if fallback {
            let snippet = prefix_chars(document.content.as_str(), FALLBACK_SNIPPET_LIMIT);
            quotes.append("\n--- SOURCE (Fallback): ");
            quotes.append(document.topic.as_str());
            quotes.append(" ---\n");
            quotes.append(snippet.as_str());
            quotes.append("\n");
            assert(quotes@ =~= before + fallback_quote_of(document@));
        } else {
            let snippet = prefix_chars(document.content.as_str(), SNIPPET_LIMIT);
            quotes.append("\n--- SOURCE: ");
            quotes.append(document.source_url.as_str());
            quotes.append(" (");
            quotes.append(document.topic.as_str());
            quotes.append(") ---\n");
            quotes.append(snippet.as_str());
            quotes.append("\n");
            assert(quotes@ =~= before + quote_of(document@));
        }
        i += 1;
    }
    assert(all.take(documents.len() as int) =~= all);
    if quotes.as_str().is_empty() {
        return quotes;
    }
    let mut told = if fallback {
        String::from_str("RELEVANT DOCUMENTATION FOUND (FALLBACK):\n")
    } else {
        String::from_str("RELEVANT DOCUMENTATION FOUND:\n")
    };
    told.append(quotes.as_str());
    told
}

/// The pattern that finds a query anywhere in a text.
pub fn anywhere_pattern(query: &str) -> (pattern: String)
    ensures
        pattern@ == anywhere_pattern_of(query@),
{
    let mut pattern = String::from_str("%");
    pattern.append(query);
    pattern.append("%");
    pattern
}

/// The addresses of the sources that are still listed. Documents from
/// any other address are stale.
pub fn active_urls(sources: &Vec<Source>) -> (urls: Vec<String>)
    ensures
        urls.deep_view() == urls_of(sources.deep_view()),
{
    let mut urls: Vec<String> = Vec::new();
    let mut i: usize = 0;
    while i < sources.len()
        invariant
            i <= sources.len(),
            urls.len() == i,
            forall|k: int| 0 <= k < i ==> urls.deep_view()[k] == sources.deep_view()[k].url,
        decreases sources.len() - i,
    {
        let ghost before = urls.deep_view();
        urls.push(sources[i].url.clone());
        assert forall|k: int| 0 <= k < i + 1 implies urls.deep_view()[k] == sources.deep_view()[k].url by {
            if k < i {
                assert(urls.deep_view()[k] == before[k]);
            }
        }
        i += 1;
    }
    assert(urls.deep_view() =~= urls_of(sources.deep_view()));
    urls
}

} // verus!
