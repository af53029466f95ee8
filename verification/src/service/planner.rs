//! Rules of the planner: which requests go to the large model, and how
//! the model's answer is cleaned before it is read as JSON.

use vstd::prelude::*;
use vstd::string::*;
use crate::text::{
    chars_of, contains_chars, contains_seq, occurs_at, push_char, starts_with_seq,
    string_of_range, trim_text, trimmed,
};

verus! {

/// The length in bytes above which a prompt counts as complex.
pub const LONG_PROMPT_BYTES: usize = 100;

/// Whether a request goes to the large model: its prompt is long or asks
/// to create, audit, refactor or fix something, or it comes with context.
pub open spec fn is_complex(prompt: Seq<char>, bytes: usize, has_context: bool) -> bool {
    ||| bytes > LONG_PROMPT_BYTES
    ||| contains_seq(prompt, "create"@)
    ||| contains_seq(prompt, "audit"@)
    ||| contains_seq(prompt, "refactor"@)
    ||| contains_seq(prompt, "fix"@)
    ||| has_context
}

/// Whether a request goes to the large model.
pub fn is_complex_request(prompt: &str, has_context: bool) -> (complex: bool)
    ensures
        complex == is_complex(prompt@, prompt.len(), has_context),
{
    if prompt.len() > LONG_PROMPT_BYTES || has_context {
        return true;
    }
    let chars = chars_of(prompt);
    contains_chars(&chars, &chars_of("create")) || contains_chars(&chars, &chars_of("audit"))
        || contains_chars(&chars, &chars_of("refactor")) || contains_chars(
        &chars,
        &chars_of("fix"),
    )
}

/// Where a reader of JSON text stands: inside a string or not, and right
/// after a backslash that escapes what follows or not.
pub struct ScanState {
    pub in_string: bool,
    pub escaped: bool,
}

/// Where the reader stands after one more character.
pub open spec fn state_after(state: ScanState, c: char) -> ScanState {
    if c == '"' {
        ScanState {
            in_string: if state.escaped {
                state.in_string
            } else {
                !state.in_string
            },
            escaped: false,
        }
    } else if c == '\\' {
        ScanState { in_string: state.in_string, escaped: !state.escaped }
    } else {
        ScanState { in_string: state.in_string, escaped: false }
    }
}

/// Where the reader stands after a text, starting outside any string.
pub open spec fn state_at_end(text: Seq<char>) -> ScanState
    decreases text.len(),
{
    if text.len() == 0 {
        ScanState { in_string: false, escaped: false }
    } else {
        state_after(state_at_end(text.drop_last()), text.last())
    }
}

/// What a character becomes: inside a string a line break becomes the two
/// characters `\n` and a tab the two characters `\t`; everything else is
/// kept.
pub open spec fn sanitized_char(state: ScanState, c: char) -> Seq<char> {
    if state.in_string && (c == '\n' || c == '\r') {
        seq!['\\', 'n']
    } else if state.in_string && c == '\t' {
        seq!['\\', 't']
    } else {
        seq![c]
    }
}

/// The text with the line breaks and tabs inside its strings escaped.
pub open spec fn sanitized(text: Seq<char>) -> Seq<char>
    decreases text.len(),
{
    if text.len() == 0 {
        Seq::empty()
    } else {
        sanitized(text.drop_last()) + sanitized_char(state_at_end(text.drop_last()), text.last())
    }
}

/// Escapes the line breaks and tabs that stand raw inside the strings of
/// a JSON text, which a strict reader would refuse.
pub fn sanitize_json_string(input: &str) -> (output: String)
    ensures
        output@ == sanitized(input@),
{
    let chars = chars_of(input);
    let mut output = String::new();
    let mut in_string = false;
    let mut escaped = false;
    let mut i: usize = 0;
    assert(chars@.take(0) =~= Seq::empty());
    while i < chars.len()
        invariant
            i <= chars.len(),
            chars@ == input@,
            output@ == sanitized(chars@.take(i as int)),
            state_at_end(chars@.take(i as int)) == (ScanState { in_string, escaped }),
        decreases chars.len() - i,
    {
        let c = chars[i];
        let ghost before = output@;
        proof {
            assert(chars@.take(i + 1).drop_last() =~= chars@.take(i as int));
            assert(chars@.take(i + 1).last() == c);
        }
        if c == '"' {
            if !escaped {
                in_string = !in_string;
            }
            push_char(&mut output, c);
            assert(output@ =~= before + seq![c]);
            escaped = false;
        } else if c == '\\' {
            push_char(&mut output, c);
            assert(output@ =~= before + seq![c]);
            escaped = !escaped;
        } else if c == '\n' || c == '\r' {
            if in_string {
                push_char(&mut output, '\\');
                push_char(&mut output, 'n');
                assert(output@ =~= before + seq!['\\', 'n']);
            } else {
                push_char(&mut output, c);
                assert(output@ =~= before + seq![c]);
            }
            escaped = false;
        } else if c == '\t' {
            if in_string {
                push_char(&mut output, '\\');
                push_char(&mut output, 't');
                assert(output@ =~= before + seq!['\\', 't']);
            } else {
                push_char(&mut output, c);
                assert(output@ =~= before + seq![c]);
            }
            escaped = false;
        } else {
            push_char(&mut output, c);
            assert(output@ =~= before + seq![c]);
            escaped = false;
        }
        i += 1;
    }
    assert(chars@.take(chars.len() as int) =~= chars@);
    output
}

/// The text without the copies of `mark` that it begins with.
pub open spec fn without_leading(text: Seq<char>, mark: Seq<char>) -> Seq<char>
    decreases text.len(),
{
    if mark.len() > 0 && starts_with_seq(text, mark) {
        without_leading(text.skip(mark.len() as int), mark)
    } else {
        text
    }
}

/// The text without the copies of `mark` that it ends with.
pub open spec fn without_trailing(text: Seq<char>, mark: Seq<char>) -> Seq<char>
    decreases text.len(),
{
    if mark.len() > 0 && occurs_at(text, mark, text.len() - mark.len()) {
        without_trailing(text.take(text.len() - mark.len()), mark)
    } else {
        text
    }
}

/// The answer of the model without the code fence that may surround it.
pub open spec fn unfenced(answer: Seq<char>) -> Seq<char> {
    trimmed(
        without_trailing(
            without_leading(without_leading(trimmed(answer), "```json"@), "```"@),
            "```"@,
        ),
    )
}

/// Whether `mark` stands in `text` at `at`.
fn stands_at(text: &Vec<char>, mark: &Vec<char>, at: usize, end: usize) -> (hit: bool)
    requires
        at <= end <= text.len(),
    ensures
        hit == occurs_at(text@.subrange(at as int, end as int), mark@, 0),
{
    let ghost part = text@.subrange(at as int, end as int);
    if mark.len() > end - at {
        return false;
    }
    let mut j: usize = 0;
    while j < mark.len()
        invariant
            j <= mark.len(),
            at <= end <= text.len(),
            mark.len() <= end - at,
            part == text@.subrange(at as int, end as int),
            forall|k: int| 0 <= k < j ==> part[k] == mark@[k],
        decreases mark.len() - j,
    {
        if text[at + j] != mark[j] {
            assert(part.subrange(0, mark@.len() as int)[j as int] == part[j as int]);
            return false;
        }
        j += 1;
    }
    assert(part.subrange(0, mark@.len() as int) =~= mark@);
    true
}

/// Whether `mark` stands in `text` right before `end`.
fn stands_before(text: &Vec<char>, mark: &Vec<char>, at: usize, end: usize) -> (hit: bool)
    requires
        at <= end <= text.len(),
    ensures
        hit == occurs_at(
            text@.subrange(at as int, end as int),
            mark@,
            (end - at) - mark@.len(),
        ),
{
    let ghost part = text@.subrange(at as int, end as int);
    if mark.len() > end - at {
        return false;
    }
    let from: usize = end - mark.len();
    let mut j: usize = 0;
    while j < mark.len()
        invariant
            j <= mark.len(),
            at <= end <= text.len(),
            mark.len() <= end - at,
            from == end - mark.len(),
            part == text@.subrange(at as int, end as int),
            forall|k: int| 0 <= k < j ==> part[(from - at) + k] == mark@[k],
        decreases mark.len() - j,
    {
        if text[from + j] != mark[j] {
            assert(part.subrange(from - at, (from - at) + mark@.len())[j as int] == part[(from
                - at) + j]);
            return false;
        }
        j += 1;
    }
    assert(part.subrange(from - at, (from - at) + mark@.len()) =~= mark@);
    true
}

/// The position behind the copies of `mark` that `text` begins with
/// from `at` on.
fn skip_leading(text: &Vec<char>, mark: &Vec<char>, at: usize, end: usize) -> (next: usize)
    requires
        at <= end <= text.len(),
    ensures
        at <= next <= end,
        text@.subrange(next as int, end as int) == without_leading(
            text@.subrange(at as int, end as int),
            mark@,
        ),
{
    let mut next = at;
    if mark.len() == 0 {
        return next;
    }
    while stands_at(text, mark, next, end)
        invariant
            at <= next <= end <= text.len(),
            mark.len() > 0,
            without_leading(text@.subrange(next as int, end as int), mark@) == without_leading(
                text@.subrange(at as int, end as int),
                mark@,
            ),
        decreases end - next,
    {
        assert(text@.subrange(next as int, end as int).skip(mark@.len() as int) =~= text@.subrange(
            next + mark@.len(),
            end as int,
        ));
        next = next + mark.len();
    }
    next
}

/// The position before the copies of `mark` that `text` ends with up to
/// `end`.
fn skip_trailing(text: &Vec<char>, mark: &Vec<char>, at: usize, end: usize) -> (last: usize)
    requires
        at <= end <= text.len(),
    ensures
        at <= last <= end,
        text@.subrange(at as int, last as int) == without_trailing(
            text@.subrange(at as int, end as int),
            mark@,
        ),
{
    let mut last = end;
    if mark.len() == 0 {
        return last;
    }
    while stands_before(text, mark, at, last)
        invariant
            at <= last <= end <= text.len(),
            mark.len() > 0,
            without_trailing(text@.subrange(at as int, last as int), mark@) == without_trailing(
                text@.subrange(at as int, end as int),
                mark@,
            ),
        decreases last - at,
    {
        assert(text@.subrange(at as int, last as int).take((last - at) - mark@.len())
            =~= text@.subrange(at as int, last - mark@.len()));
        last = last - mark.len();
    }
    last
}

/// Takes the code fence off the answer of the model: white space around
/// it, any opening fences, with or without the word `json`, any closing
/// fences, and the white space that is then left around the text.
pub fn clean_json_markdown(input: &str) -> (output: String)
    ensures
        output@ == unfenced(input@),
{
    let text = chars_of(trim_text(input).as_str());
    let end = text.len();
    assert(text@.subrange(0, end as int) =~= text@);
    let after_json = skip_leading(&text, &chars_of("```json"), 0, end);
    let after_fence = skip_leading(&text, &chars_of("```"), after_json, end);
    let before_fence = skip_trailing(&text, &chars_of("```"), after_fence, end);
    let inner = string_of_range(&text, after_fence, before_fence);
    trim_text(inner.as_str())
}

/// How often the model is asked before an answer that is no JSON is
/// given up on.
pub const MAX_ATTEMPTS: u32 = 3;

/// The model that complex requests go to unless another is configured.
pub const DEFAULT_THINKING_MODEL: &'static str = "openai/gpt-5.1-codex-max";

/// The model that simple requests go to unless another is configured.
pub const DEFAULT_FAST_MODEL: &'static str = "openai/gpt-5.1-codex-mini";

/// The model for a request: the configured one of its kind, or the
/// default of its kind.
pub open spec fn model_of(
    complex: bool,
    thinking: Option<Seq<char>>,
    fast: Option<Seq<char>>,
) -> Seq<char> {
    if complex {
        match thinking {
            Some(model) => model,
            None => DEFAULT_THINKING_MODEL@,
        }
    } else {
        match fast {
            Some(model) => model,
            None => DEFAULT_FAST_MODEL@,
        }
    }
}

/// What the model is told of the project: its context, if there is any,
/// and what the stored documents say.
pub open spec fn context_block_of(context: Option<Seq<char>>, documents: Seq<char>) -> Seq<char> {
    "--- PROJECT CONTEXT (READ ONLY) ---\n"@ + (match context {
        Some(text) => text,
        None => Seq::empty(),
    }) + "\n\n--- RAG KNOWLEDGE ---\n"@ + documents
}

/// What the model is told of the request.
pub open spec fn request_block_of(prompt: Seq<char>) -> Seq<char> {
    "--- USER REQUEST ---\n"@ + prompt + "\n\nGenerate the JSON execution plan."@
}

/// The model for a request. `thinking` and `fast` are the models that
/// are configured for complex and for simple requests.
pub fn pick_model(complex: bool, thinking: Option<String>, fast: Option<String>) -> (model: String)
    ensures
        model@ == model_of(complex, thinking.deep_view(), fast.deep_view()),
{
    if complex {
        match thinking {
            Some(model) => model,
            None => String::from_str(DEFAULT_THINKING_MODEL),
        }
    } else {
        match fast {
            Some(model) => model,
            None => String::from_str(DEFAULT_FAST_MODEL),
        }
    }
}

/// What the model is told of the project.
pub fn context_block(context: Option<&str>, documents: &str) -> (block: String)
    ensures
        block@ == context_block_of(context.deep_view(), documents@),
{
    let mut block = String::from_str("--- PROJECT CONTEXT (READ ONLY) ---\n");
    let ghost head = block@;
    match context {
        Some(text) => {
            block.append(text);
        },
        None => {
            assert(head + Seq::<char>::empty() =~= head);
        },
    }
    block.append("\n\n--- RAG KNOWLEDGE ---\n");
    block.append(documents);
    block
}

/// What the model is told of the request.
pub fn request_block(prompt: &str) -> (block: String)
    ensures
        block@ == request_block_of(prompt@),
{
    let mut block = String::from_str("--- USER REQUEST ---\n");
    block.append(prompt);
    block.append("\n\nGenerate the JSON execution plan.");
    block
}

/// Whether the model is asked once more after its answer to the
/// `attempt`-th request was no JSON. Attempts count from one.
pub fn asks_again(attempt: u32) -> (again: bool)
    ensures
        again == (attempt < MAX_ATTEMPTS),
{
    attempt < MAX_ATTEMPTS
}

/// What is reported when the last answer was no JSON either.
pub fn parse_failure(error: &str) -> (text: String)
    ensures
        text@ == "Failed to parse JSON. Error: "@ + error@,
{
    let mut text = String::from_str("Failed to parse JSON. Error: ");
    text.append(error);
    text
}

} // verus!
