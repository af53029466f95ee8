//! What is kept of a fetched page: its text, clipped.

use vstd::prelude::*;
use vstd::string::*;
use crate::service::library::{clip_page, PAGE_LIMIT};
use crate::text::{
    ascii_lowered, ascii_lowered_chars, chars_of, occurs_at, prefix_seq, stands_at,
};

verus! {

/// The width in columns that the text of a page is wrapped to.
pub const PAGE_WIDTH: usize = 80;

/// White space between the parts of a tag.
pub open spec fn is_tag_space(c: char) -> bool {
    c == '\t' || c == '\n' || c == '\u{c}' || c == '\r' || c == ' '
}

/// The first position from `at` on that holds no white space of a tag.
pub open spec fn past_tag_space(s: Seq<char>, at: int) -> int
    decreases s.len() - at,
{
    if 0 <= at < s.len() && is_tag_space(s[at]) {
        past_tag_space(s, at + 1)
    } else {
        at
    }
}

/// Whether `name` stands in the text at `at` and an equals sign follows
/// it, with or without white space between the two.
pub open spec fn is_given_at(s: Seq<char>, name: Seq<char>, at: int) -> bool {
    &&& occurs_at(s, name, at)
    &&& 0 <= past_tag_space(s, at + name.len()) < s.len()
    &&& s[past_tag_space(s, at + name.len())] == '='
}

/// Whether the page writes `name`, in whatever case, and an equals sign
/// after it: the one way in which a page gives a value to an attribute
/// of that name. `name` is in lower case.
pub open spec fn gives_value_to(html: Seq<char>, name: Seq<char>) -> bool {
    exists|at: int| is_given_at(ascii_lowered(html), name, at)
}

/// Whether the page may give a number to the layout of its text: the
/// columns that a table cell spans, or the number that an ordered list
/// starts with.
pub open spec fn sets_span_or_start(html: Seq<char>) -> bool {
    gives_value_to(html, "colspan"@) || gives_value_to(html, "start"@)
}

/// The text that the `html2text` crate makes of an HTML page, wrapped to
/// `width` columns; or `None` where it makes none.
pub uninterp spec fn plain_text_of(html: Seq<char>, width: usize) -> Option<Seq<char>>;

/// Calls `html2text::config::plain` and `Config::string_from_read` on
/// the bytes of the page. An error of the crate gives `None`. The text
/// is named, not described: see [`plain_text_of`].
///
/// The crate reads two numbers from a page, the attribute `colspan` of a
/// table cell and the attribute `start` of an ordered list, and reckons
/// with them unchecked: it divides by a span, adds spans up, and adds
/// the number of a list's items to its start. On some values it panics.
/// Pages that may hold such a value are left out. The reader of the page
/// lowers the ASCII capitals of an attribute's name and changes the name
/// in no other way, and it takes a value for the attribute only from
/// behind an equals sign that follows the name, with or without white
/// space between them. So on a page that [`sets_span_or_start`] rules
/// out, every cell spans one column and every list starts with one.
///
/// Nothing is said of the memory and the stack that the crate needs for
/// a page that is very large or very deeply nested.
#[verifier::external_body]
pub(crate) fn html_to_text(html: &str, width: usize) -> (text: Option<String>)
    requires
        !sets_span_or_start(html@),
    ensures
        text.deep_view() == plain_text_of(html@, width),
{
    html2text::config::plain().string_from_read(html.as_bytes(), width).ok()
}

/// What is kept of a page: the first [`PAGE_LIMIT`] characters of its
/// text, wrapped to [`PAGE_WIDTH`] columns. Nothing is kept of a page
/// that may set a span or a start.
pub open spec fn page_text_of(html: Seq<char>) -> Option<Seq<char>> {
    if sets_span_or_start(html) {
        None
    } else {
        match plain_text_of(html, PAGE_WIDTH) {
            Some(text) => Some(prefix_seq(text, PAGE_LIMIT as nat)),
            None => None,
        }
    }
}

proof fn lemma_past_tag_space_goes_on(s: Seq<char>, at: int)
    ensures
        past_tag_space(s, at) >= at,
    decreases s.len() - at,
{
    if 0 <= at < s.len() && is_tag_space(s[at]) {
        lemma_past_tag_space_goes_on(s, at + 1);
    }
}

/// The first position from `at` on that holds no white space of a tag.
fn skip_tag_space(s: &Vec<char>, at: usize) -> (next: usize)
    requires
        at <= s.len(),
    ensures
        next == past_tag_space(s@, at as int),
        at <= next <= s.len(),
{
    let mut next: usize = at;
    while next < s.len() && (s[next] == '\t' || s[next] == '\n' || s[next] == '\u{c}' || s[next]
        == '\r' || s[next] == ' ')
        invariant
            at <= next <= s.len(),
            past_tag_space(s@, next as int) == past_tag_space(s@, at as int),
        decreases s.len() - next,
    {
        next += 1;
    }
    next
}

/// Whether `name` stands in the text at `at` with an equals sign after it.
fn is_given_here(s: &Vec<char>, name: &Vec<char>, at: usize) -> (given: bool)
    ensures
        given == is_given_at(s@, name@, at as int),
{
    if !stands_at(s, name, at) {
        return false;
    }
    assert(at + name.len() <= s.len());
    let next = skip_tag_space(s, at + name.len());
    next < s.len() && s[next] == '='
}

/// Whether the page writes `name`, in whatever case, and an equals sign
/// after it. `name` is in lower case.
pub fn gives_value(html: &str, name: &str) -> (given: bool)
    ensures
        given == gives_value_to(html@, name@),
{
    let page = ascii_lowered_chars(html);
    let wanted = chars_of(name);
    let mut at: usize = 0;
    while at < page.len()
        invariant
            at <= page.len(),
            page@ == ascii_lowered(html@),
            wanted@ == name@,
            forall|k: int| 0 <= k < at ==> !is_given_at(page@, wanted@, k),
        decreases page.len() - at,
    {
        if is_given_here(&page, &wanted, at) {
            return true;
        }
        at += 1;
    }
    assert forall|k: int| !is_given_at(page@, wanted@, k) by {
        if k >= page.len() {
            lemma_past_tag_space_goes_on(page@, k + wanted@.len());
        }
    }
    false
}

/// Whether the page may give a number to the layout of its text.
pub fn names_span_or_start(html: &str) -> (named: bool)
    ensures
        named == sets_span_or_start(html@),
{
    gives_value(html, "colspan") || gives_value(html, "start")
}

/// What is kept of a fetched page, or `None` where no text can be made
/// of it. A page that may set a span or a start is not read: see
/// [`sets_span_or_start`].
pub fn page_text(html: &str) -> (kept: Option<String>)
    ensures
        kept.deep_view() == page_text_of(html@),
{
    if names_span_or_start(html) {
        return None;
    }
    match html_to_text(html, PAGE_WIDTH) {
        Some(text) => Some(clip_page(text.as_str())),
        None => None,
    }
}

} // verus!
