//! The planning service's built-in notes and its list of trusted sources.
//!
//! A search matches a question against the keywords of the built-in notes
//! and against the topics of the trusted sources, and answers with the
//! notes that match and with links to read further.

use vstd::prelude::*;
use vstd::string::*;
use vstd::utf8::encode_utf8;
use crate::text::{
    chars_of, contains_chars, contains_seq, lowercase_text, lowercased, replace_char,
    replace_char_seq, starts_with_seq, starts_with_text,
};

verus! {

/// Program derived addresses.
pub const PDA_GUIDE: &'static str = r#"
### SOLANA PDA GUIDE (Program Derived Addresses)
- **Concept:** PDAs are accounts controlled by the program, not a private key.
- **Derivation:** Use `Pubkey::find_program_address(&[seeds], &program_id)`.
- **Anchor Implementation:** Use `#[account(seeds = [b"label", user.key().as_ref()], bump)]` in your struct.
  The `bump` must be stored in the account struct for future validation.
- **Security:** Always validate the `bump` when using the account.
"#;

/// Calls from one program into another.
pub const CPI_GUIDE: &'static str = r#"
### CPI SECURITY (Cross-Program Invocation)
- **Concept:** Calling another program (like the Token Program) from your program.
- **Validation:** Strictly validate the `program_id` of the external program.
- **Anchor Helper:** Use `CpiContext::new(program, accounts)`.
- **Signing:** For PDAs to sign, use `new_with_signer` and pass `&[&[seeds, &[bump]]]`.
"#;

/// How to deploy a program.
pub const DEPLOYMENT_GUIDE: &'static str = r#"
### DEPLOYMENT CHECKLIST
1. **Config:** Ensure `Anchor.toml` [programs.localnet] matches the cluster.
2. **Build:** Run `anchor build`. For production, use `anchor build --verifiable`.
3. **Deploy:** `solana program deploy ./target/deploy/your_program.so`.
4. **Buffer Error:** If program is too large, use:
   `solana program write-buffer ./target/deploy/program.so`
   `solana program set-buffer-authority <BUFFER_ADDRESS> --new-authority <YOUR_KEY>`
   `solana program deploy --buffer <BUFFER_ADDRESS>`
"#;

/// Tokens and their accounts.
pub const TOKEN_GUIDE: &'static str = r#"
### SPL TOKEN & TOKEN-2022
- **Token-2022:** Supports extensions like transfer fees, interest, and non-transferability.
- **Associated Token Account (ATA):** Deterministic address for holding tokens.
  Derive: `get_associated_token_address(wallet, mint)`.
- **Anchor:** Add `associated_token::AssociatedToken` to `#[derive(Accounts)]`.
"#;

/// Known build and tool errors with their remedies.
pub const ERROR_SOLUTIONS: &'static str = r#"
    --- KNOWLEDGE BASE: COMPREHENSIVE ERROR SOLUTIONS ---

    [STACK: ANCHOR / SOLANA (CRITICAL)]
    
    1. Error: "solana-install no longer supports installing by channel" OR "BPF SDK not found"
       - DIAGNOSIS: The local Solana version is outdated, or the 'init stable' command is deprecated.
       - FIX STRATEGY: Use the official install script to fetch the LATEST STABLE version dynamically.
       - ACTION PLAN:
         {"action": "run_cmd", "program": "sh", "args": ["-c", "curl -sSfL https://release.solana.com/stable/install | sh"]}
       - NOTE: This connects to Solana's release server directly.

    2. Error: "failed to select a version" OR "conflict with previously selected packages" OR "solana-zk-sdk"
       - DIAGNOSIS: Dependency Hell. Versions of 'anchor-spl' (newer) and 'solana-program' (older) are fighting.
       - FIX PLAN (Pinning Versions):
         1. {"action": "run_cmd", "program": "rm", "args": ["Cargo.lock"]}
         // Forcefully add solana-program 1.18.17 to resolve conflicts (This forces downgrades of other deps)
         2. {"action": "run_cmd", "program": "cargo", "args": ["add", "solana-program@=1.18.17"]}
         3. {"action": "run_cmd", "program": "cargo", "args": ["update"]}
         4. {"action": "run_cmd", "program": "anchor", "args": ["build"]}

    3. Error: "lock file version 4 requires" OR "resolver = 1" OR "virtual workspace defaulting to resolver"
       - DIAGNOSIS: Conflict between System Cargo (New) and Solana Toolchain (Old), or missing resolver setting.
       - FIX PLAN (Execute sequentially):
         1. {"action": "run_cmd", "program": "rm", "args": ["Cargo.lock"]} (Remove zombie file)
         2. {"action": "run_cmd", "program": "sh", "args": ["-c", "curl -sSfL https://release.solana.com/stable/install | sh"]} (Update Toolchain)
         3. {"action": "run_cmd", "program": "anchor", "args": ["clean"]}
         4. {"action": "create_file", "path": "Cargo.toml", "content": "[workspace]\nmembers = [\n    \"programs/*\"\n]\nresolver = \"2\"\n\n[profile.release]\noverflow-checks = true\nlto = \"fat\"\ncodegen-units = 1\n[profile.release.build-override]\nopt-level = 3\nincremental = false\ncodegen-units = 1"} 
         5. {"action": "run_cmd", "program": "anchor", "args": ["build"]}

    4. Error: "unresolved import `anchor_spl`" OR "use of unresolved module `anchor_spl`"
       - DIAGNOSIS: Missing `anchor-spl` dependency.
       - FIX: {"action": "run_cmd", "program": "cargo", "args": ["add", "anchor-spl"]}

    5. Error: "Program ID not declared" OR "declare_id!" missing
       - FIX: 
         1. {"action": "run_cmd", "program": "anchor", "args": ["keys", "list"]}
         2. Update `lib.rs` with `declare_id!("YOUR_KEY_HERE");`.

    [STACK: RUST / CARGO]
    1. Error: "linker `cc` not found"
       - FIX: {"action": "run_cmd", "program": "sudo", "args": ["apt", "update", "&&", "sudo", "apt", "install", "build-essential"]}
    
    2. Error: "no such subcommand"
       - FIX: Check spelling. If 'cargo expand' fails, run `cargo install cargo-expand`.

    [STACK: FRONTEND (REACT / NEXT.JS / VITE)]
    1. Error: "yarn: command not found" OR "yarn install failed"
       - FIX: Use `npm` instead. Rewrite command to `npm install` or `npm run dev`.
    
    2. Error: "Hydration failed" (Next.js)
       - FIX: Check for invalid HTML nesting (e.g., <div> inside <p>). Fix the component code.
    
    3. Error: "Module not found: Can't resolve 'fs'"
       - FIX: Add `nodePolyfills` to vite.config.ts.

    4. Error: "EADDRINUSE: address already in use"
       - FIX: Suggest running on port 3001 (e.g., `npm run dev -- --port 3001`).

    [HUMAN FALLBACK PROTOCOL]
    - RULE: If a command fails due to "Network Error", "Permission Denied", or "OS Error" (os error 13):
      1. DO NOT retry the same command blindly.
      2. GENERATE A MESSAGE to the user:
         "I encountered a system limitation (permission/network) while trying to execute a command. Please run this manually in your terminal:
          Command: `[THE_FAILED_COMMAND]`
          Once done, please ask me to continue."
    "#;

/// The known build and tool errors with their remedies, as one text.
pub fn get_error_solutions() -> (text: &'static str)
    ensures
        text@ == ERROR_SOLUTIONS@,
{
    ERROR_SOLUTIONS
}

/// One built-in note: it answers a question that holds any of its keywords.
pub struct KnowledgeEntry {
    pub keywords: Vec<&'static str>,
    pub content: &'static str,
}

/// The mathematical value of a [`KnowledgeEntry`].
pub struct KnowledgeEntryView {
    pub keywords: Seq<Seq<char>>,
    pub content: Seq<char>,
}

impl View for KnowledgeEntry {
    type V = KnowledgeEntryView;

    open spec fn view(&self) -> KnowledgeEntryView {
        KnowledgeEntryView { keywords: self.keywords.deep_view(), content: self.content@ }
    }
}

impl DeepView for KnowledgeEntry {
    type V = KnowledgeEntryView;

    open spec fn deep_view(&self) -> KnowledgeEntryView {
        self.view()
    }
}

/// A place on the web that the service trusts for further reading.
#[derive(Debug, Clone, PartialEq, Eq)]
pub struct Source {
    pub note: String,
    pub url: String,
    pub topic: String,
}

/// The mathematical value of a [`Source`].
pub struct SourceView {
    pub note: Seq<char>,
    pub url: Seq<char>,
    pub topic: Seq<char>,
}

impl View for Source {
    type V = SourceView;

    open spec fn view(&self) -> SourceView {
        SourceView { note: self.note@, url: self.url@, topic: self.topic@ }
    }
}

impl DeepView for Source {
    type V = SourceView;

    open spec fn deep_view(&self) -> SourceView {
        self.view()
    }
}

/// The built-in notes.
pub struct KnowledgeBase {
    entries: Vec<KnowledgeEntry>,
}

impl View for KnowledgeBase {
    type V = Seq<KnowledgeEntryView>;

    closed spec fn view(&self) -> Seq<KnowledgeEntryView> {
        self.entries.deep_view()
    }
}

/// The notes that every knowledge base starts with.
pub open spec fn builtin_entries() -> Seq<KnowledgeEntryView> {
    seq![
        KnowledgeEntryView {
            keywords: seq!["pda"@, "seeds"@, "address"@, "derive"@, "program derived address"@],
            content: PDA_GUIDE@,
        },
        KnowledgeEntryView {
            keywords: seq!["cpi"@, "transfer"@, "token"@, "cross program invocation"@],
            content: CPI_GUIDE@,
        },
        KnowledgeEntryView {
            keywords: seq!["deployment"@, "deploy"@, "mainnet"@, "devnet"@, "cost"@],
            content: DEPLOYMENT_GUIDE@,
        },
        KnowledgeEntryView {
            keywords: seq!["spl"@, "token-2022"@, "mint"@, "associated token"@],
            content: TOKEN_GUIDE@,
        },
    ]
}

/// The sources to fall back on where no list of sources can be loaded.
pub open spec fn fallback_source_list() -> Seq<SourceView> {
    seq![
        SourceView { note: "Fallback"@, url: "https://solana.com/docs"@, topic: "solana-docs"@ },
        SourceView {
            note: "Fallback"@,
            url: "https://www.anchor-lang.com/docs"@,
            topic: "anchor-docs"@,
        },
    ]
}

/// The question holds one of the keywords.
pub open spec fn holds_keyword(question: Seq<char>, keywords: Seq<Seq<char>>) -> bool {
    exists|k: int| 0 <= k < keywords.len() && contains_seq(question, #[trigger] keywords[k])
}

/// The notes that answer the question, each followed by a rule, in the
/// order of the entries.
pub open spec fn snippets(entries: Seq<KnowledgeEntryView>, question: Seq<char>) -> Seq<char>
    decreases entries.len(),
{
    if entries.len() == 0 {
        Seq::empty()
    } else if holds_keyword(question, entries.last().keywords) {
        snippets(entries.drop_last(), question) + entries.last().content + "\n---\n"@
    } else {
        snippets(entries.drop_last(), question)
    }
}

/// The number of bytes of a text in UTF-8, as the machine counts them.
pub open spec fn byte_len(text: Seq<char>) -> usize {
    encode_utf8(text).len() as usize
}

/// Whether a source is worth reading for a question (in lower case): the
/// question names the source's topic, with spaces for hyphens; or the
/// source's note holds the question, for a question of more than three
/// bytes; or the question asks for documents, a reference or learning.
pub open spec fn source_is_relevant(question: Seq<char>, source: SourceView) -> bool {
    ||| contains_seq(question, replace_char_seq(source.topic, '-', ' '))
    ||| (contains_seq(lowercased(source.note), question) && byte_len(question) > 3)
    ||| contains_seq(question, "doc"@)
    ||| contains_seq(question, "reference"@)
    ||| contains_seq(question, "learn"@)
}

/// The name that a source is listed under: its topic, with its note in
/// brackets unless the note is empty or starts with three hyphens.
pub open spec fn source_display_name(source: SourceView) -> Seq<char> {
    if source.note.len() > 0 && !starts_with_seq(source.note, "---"@) {
        source.topic + " ("@ + source.note + ")"@
    } else {
        source.topic
    }
}

/// The line that lists one source.
pub open spec fn source_line(source: SourceView) -> Seq<char> {
    "- ["@ + source_display_name(source) + "]("@ + source.url + ")\n"@
}

/// The lines of the sources worth reading for the question, in the order
/// of the sources.
pub open spec fn suggested_links(sources: Seq<SourceView>, question: Seq<char>) -> Seq<char>
    decreases sources.len(),
{
    if sources.len() == 0 {
        Seq::empty()
    } else if source_is_relevant(question, sources.last()) {
        suggested_links(sources.drop_last(), question) + source_line(sources.last())
    } else {
        suggested_links(sources.drop_last(), question)
    }
}

/// The body of an answer: the notes, then the links under their heading
/// where there are any.
pub open spec fn search_body(
    entries: Seq<KnowledgeEntryView>,
    sources: Seq<SourceView>,
    question: Seq<char>,
) -> Seq<char> {
    if suggested_links(sources, question).len() > 0 {
        snippets(entries, question)
            + "\nRECOMMENDED READING (Use 'read_url' action to learn more):\n"@
            + suggested_links(sources, question)
    } else {
        snippets(entries, question)
    }
}

/// The answer to a query: the body for the query in lower case under a
/// heading, or a fixed sentence where the body is empty.
pub open spec fn search_result(
    entries: Seq<KnowledgeEntryView>,
    sources: Seq<SourceView>,
    query: Seq<char>,
) -> Seq<char> {
    let body = search_body(entries, sources, lowercased(query));
    if body.len() == 0 {
        "No internal docs found. Suggest using 'read_url' to browse external docs."@
    } else {
        "--- 📘 RELEVANT KNOWLEDGE & SOURCES ---\n"@ + body
    }
}

/// Whether the question holds one of the keywords.
fn question_holds_keyword(question: &Vec<char>, keywords: &Vec<&'static str>) -> (found: bool)
    ensures
        found == holds_keyword(question@, keywords.deep_view()),
{
    let mut k: usize = 0;
    while k < keywords.len()
        invariant
            k <= keywords.len(),
            forall|j: int| 0 <= j < k ==> !contains_seq(question@, keywords.deep_view()[j]),
        decreases keywords.len() - k,
    {
        let keyword = chars_of(keywords[k]);
        if contains_chars(question, &keyword) {
            assert(contains_seq(question@, keywords.deep_view()[k as int]));
            return true;
        }
        k += 1;
    }
    false
}

/// Whether a source is worth reading for a question in lower case.
fn source_relevant(question: &str, question_chars: &Vec<char>, source: &Source) -> (yes: bool)
    requires
        question_chars@ == question@,
    ensures
        yes == source_is_relevant(question@, source@),
{
    let topic = replace_char(source.topic.as_str(), '-', ' ');
    if contains_chars(question_chars, &chars_of(topic.as_str())) {
        return true;
    }
    if question.len() > 3 {
        let note = lowercase_text(source.note.as_str());
        if contains_chars(&chars_of(note.as_str()), question_chars) {
            return true;
        }
    }
    contains_chars(question_chars, &chars_of("doc")) || contains_chars(
        question_chars,
        &chars_of("reference"),
    ) || contains_chars(question_chars, &chars_of("learn"))
}

/// Adds the line that lists `source` to `links`.
fn push_source_line(links: &mut String, source: &Source)
    ensures
        final(links)@ == old(links)@ + source_line(source@),
{
    let ghost before = links@;
    links.append("- [");
    links.append(source.topic.as_str());
    if !source.note.as_str().is_empty() && !starts_with_text(source.note.as_str(), "---") {
        links.append(" (");
        links.append(source.note.as_str());
        links.append(")");
        assert(before + "- ["@ + source.topic@ + " ("@ + source.note@ + ")"@ =~= before + ("- ["@
            + (source.topic@ + " ("@ + source.note@ + ")"@)));
    } else {
        assert(before + "- ["@ + source.topic@ =~= before + ("- ["@ + source.topic@));
    }
    links.append("](");
    links.append(source.url.as_str());
    links.append(")\n");
    assert(links@ =~= before + source_line(source@));
}

impl KnowledgeBase {
    /// The knowledge base with the built-in notes.
    pub fn new() -> (base: KnowledgeBase)
        ensures
            base@ == builtin_entries(),
    {
        let mut entries: Vec<KnowledgeEntry> = Vec::new();
        entries.push(
            KnowledgeEntry {
                keywords: vec!["pda", "seeds", "address", "derive", "program derived address"],
                content: PDA_GUIDE,
            },
        );
        entries.push(
            KnowledgeEntry {
                keywords: vec!["cpi", "transfer", "token", "cross program invocation"],
                content: CPI_GUIDE,
            },
        );
        entries.push(
            KnowledgeEntry {
                keywords: vec!["deployment", "deploy", "mainnet", "devnet", "cost"],
                content: DEPLOYMENT_GUIDE,
            },
        );
        entries.push(
            KnowledgeEntry {
                keywords: vec!["spl", "token-2022", "mint", "associated token"],
                content: TOKEN_GUIDE,
            },
        );
        proof {
            let got = entries.deep_view();
            let want = builtin_entries();
            assert(got.len() == want.len());
            assert forall|i: int| 0 <= i < got.len() implies got[i] == want[i] by {
                assert(got[i].keywords =~= want[i].keywords);
            }
            assert(got =~= want);
        }
        KnowledgeBase { entries }
    }

    /// Answers a query from the built-in notes and the given sources.
    pub fn search(&self, query: &str, sources: &Vec<Source>) -> (answer: String)
        ensures
            answer@ == search_result(self@, sources.deep_view(), query@),
    {
        let question = lowercase_text(query);
        let question_chars = chars_of(question.as_str());
        let ghost entries = self.entries.deep_view();
        let ghost all_sources = sources.deep_view();

        let mut results = String::new();
        let mut i: usize = 0;
        assert(entries.take(0) =~= Seq::empty());
        while i < self.entries.len()
            invariant
                i <= self.entries.len(),
                entries == self.entries.deep_view(),
                question_chars@ == question@,
                results@ == snippets(entries.take(i as int), question@),
            decreases self.entries.len() - i,
        {
            let entry = &self.entries[i];
            proof {
                assert(entries.take(i + 1).drop_last() =~= entries.take(i as int));
                assert(entries.take(i + 1).last() == entry@);
            }
            if question_holds_keyword(&question_chars, &entry.keywords) {
                results.append(entry.content);
                results.append("\n---\n");
            }
            i += 1;
        }
        assert(entries.take(self.entries.len() as int) =~= entries);

        let mut links = String::new();
        let mut j: usize = 0;
        assert(all_sources.take(0) =~= Seq::empty());
        while j < sources.len()
            invariant
                j <= sources.len(),
                all_sources == sources.deep_view(),
                question_chars@ == question@,
                links@ == suggested_links(all_sources.take(j as int), question@),
            decreases sources.len() - j,
        {
            let source = &sources[j];
            proof {
                assert(all_sources.take(j + 1).drop_last() =~= all_sources.take(j as int));
                assert(all_sources.take(j + 1).last() == source@);
            }
            if source_relevant(question.as_str(), &question_chars, source) {
                push_source_line(&mut links, source);
            }
            j += 1;
        }
        assert(all_sources.take(sources.len() as int) =~= all_sources);

        if !links.as_str().is_empty() {
            results.append("\nRECOMMENDED READING (Use 'read_url' action to learn more):\n");
            results.append(links.as_str());
        }
        if results.as_str().is_empty() {
            return String::from_str(
                "No internal docs found. Suggest using 'read_url' to browse external docs.",
            );
        }
        let mut answer = String::from_str("--- 📘 RELEVANT KNOWLEDGE & SOURCES ---\n");
        answer.append(results.as_str());
        answer
    }
}

/// The sources to fall back on where no list of sources can be loaded.
pub fn fallback_sources() -> (sources: Vec<Source>)
    ensures
        sources.deep_view() == fallback_source_list(),
{
    let mut sources: Vec<Source> = Vec::new();
    sources.push(
        Source {
            note: String::from_str("Fallback"),
            url: String::from_str("https://solana.com/docs"),
            topic: String::from_str("solana-docs"),
        },
    );
    sources.push(
        Source {
            note: String::from_str("Fallback"),
            url: String::from_str("https://www.anchor-lang.com/docs"),
            topic: String::from_str("anchor-docs"),
        },
    );
    assert(sources.deep_view() =~= fallback_source_list());
    sources
}

/// The sources to trust: the list that was loaded, or the fallback list
/// where none could be loaded.
pub fn get_trusted_sources(loaded: Option<Vec<Source>>) -> (sources: Vec<Source>)
    ensures
        sources.deep_view() == match loaded {
            Some(list) => list.deep_view(),
            None => fallback_source_list(),
        },
{
    match loaded {
        Some(list) => list,
        None => fallback_sources(),
    }
}

} // verus!
