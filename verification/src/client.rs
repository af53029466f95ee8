//! The address of the planning service, as the client accepts it.

use vstd::prelude::*;
use vstd::string::*;
use crate::text::{
    chars_of, contains_chars, contains_seq, ends_with_chars, ends_with_seq, find_chars,
    find_from, starts_with_chars, starts_with_seq, string_of_range, trim_text, trimmed,
};

verus! {

/// The address inside a link written as `[label](address)`; any other
/// text is the address itself.
pub open spec fn link_target(text: Seq<char>) -> Seq<char> {
    if starts_with_seq(text, "["@) && contains_seq(text, "]("@) {
        match find_from(text, "]("@, 0) {
            Some(start) => match find_from(text, ")"@, start) {
                Some(end) => if start + 2 <= end {
                    text.subrange(start + 2, end)
                } else {
                    text
                },
                None => text,
            },
            None => text,
        }
    } else {
        text
    }
}

/// The address with `http://` before it, unless it starts with `http`.
pub open spec fn with_scheme(address: Seq<char>) -> Seq<char> {
    if starts_with_seq(address, "http"@) {
        address
    } else {
        "http://"@ + address
    }
}

/// The address without the slash that it may end with.
pub open spec fn without_last_slash(address: Seq<char>) -> Seq<char> {
    if ends_with_seq(address, "/"@) {
        address.take(address.len() - "/"@.len())
    } else {
        address
    }
}

/// The base address that the client uses for a given one: trimmed, taken
/// out of a link, given a scheme, and freed of a slash at its end.
pub open spec fn clean_base_url_of(raw: Seq<char>) -> Seq<char> {
    without_last_slash(with_scheme(link_target(trimmed(raw))))
}

/// The address inside a link written as `[label](address)`.
fn target_of_link(text: &Vec<char>) -> (target: String)
    ensures
        target@ == link_target(text@),
{
    if starts_with_chars(text, &chars_of("[")) && contains_chars(text, &chars_of("](")) {
        match find_chars(text, &chars_of("]("), 0) {
            Some(start) => match find_chars(text, &chars_of(")"), start) {
                Some(end) => {
                    if start <= end && 2 <= end - start {
                        return string_of_range(text, start + 2, end);
                    }
                },
                None => {},
            },
            None => {},
        }
    }
    let whole = string_of_range(text, 0, text.len());
    assert(text@.subrange(0, text@.len() as int) =~= text@);
    whole
}

/// The base address that the client uses for a given one.
pub fn clean_base_url(raw: &str) -> (url: String)
    ensures
        url@ == clean_base_url_of(raw@),
{
    let trimmed_chars = chars_of(trim_text(raw).as_str());
    let target = target_of_link(&trimmed_chars);
    let address = if starts_with_chars(&chars_of(target.as_str()), &chars_of("http")) {
        target
    } else {
        let mut prefixed = String::from_str("http://");
        prefixed.append(target.as_str());
        prefixed
    };
    let chars = chars_of(address.as_str());
    let slash = chars_of("/");
    if ends_with_chars(&chars, &slash) {
        string_of_range(&chars, 0, chars.len() - slash.len())
    } else {
        address
    }
}

} // verus!
