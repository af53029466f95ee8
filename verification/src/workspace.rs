//! Rules on the files of a workspace: which entries a scan reads, how a
//! file enters the cached context, and which file a loose path means.
//!
//! Walking directories and reading files is the caller's part. The caller
//! asks these rules entry by entry.

use vstd::prelude::*;
use vstd::string::*;
use crate::memory::file_block;
use crate::text::{
    chars_of, contains_chars, contains_seq, ends_with_chars, ends_with_seq, starts_with_chars,
    starts_with_seq, text_eq,
};

verus! {

/// How many directories deep a scan goes below the workspace's root.
pub const MAX_SCAN_DEPTH: usize = 5;

/// The size in bytes from which on a file is too large to be taken into
/// the context.
pub const MAX_SCANNED_BYTES: usize = 15000;

/// Names of directories that hold build output or fetched packages.
pub open spec fn is_output_name(name: Seq<char>) -> bool {
    ||| name == "target"@
    ||| name == "node_modules"@
    ||| name == "dist"@
    ||| name == "build"@
    ||| name == "out"@
    ||| name == "test-ledger"@
}

/// Names of files that are large or hold no text worth reading: lock
/// files, pictures, documents, binaries and data.
pub open spec fn has_skipped_ending(name: Seq<char>) -> bool {
    ||| ends_with_seq(name, "package-lock.json"@)
    ||| ends_with_seq(name, "yarn.lock"@)
    ||| ends_with_seq(name, "Cargo.lock"@)
    ||| ends_with_seq(name, ".png"@)
    ||| ends_with_seq(name, ".jpg"@)
    ||| ends_with_seq(name, ".jpeg"@)
    ||| ends_with_seq(name, ".gif"@)
    ||| ends_with_seq(name, ".svg"@)
    ||| ends_with_seq(name, ".ico"@)
    ||| ends_with_seq(name, ".pdf"@)
    ||| ends_with_seq(name, ".so"@)
    ||| ends_with_seq(name, ".json"@)
}

/// Names of configuration files that are read whatever else holds.
pub open spec fn is_essential_name(name: Seq<char>) -> bool {
    name == "package.json"@ || name == "tsconfig.json"@ || name == "Anchor.toml"@
}

/// Whether a scan passes over the entry called `name`: hidden entries,
/// output directories and files with a skipped ending, unless the name is
/// that of an essential configuration file.
pub open spec fn is_ignored_name(name: Seq<char>) -> bool {
    (starts_with_seq(name, "."@) || is_output_name(name) || has_skipped_ending(name))
        && !is_essential_name(name)
}

/// The note that stands in the context for a file that is too large.
pub open spec fn too_large_note(path: Seq<char>) -> Seq<char> {
    "\n--- FILE: "@ + path + " (Skipped: Content too large) ---\n"@
}

/// What a scanned file adds to the context: its block under its path
/// relative to the workspace, or a note under its full path where the
/// content takes [`MAX_SCANNED_BYTES`] bytes or more.
pub open spec fn scanned_block_of(
    relative: Seq<char>,
    full: Seq<char>,
    content: Seq<char>,
    size: usize,
) -> Seq<char> {
    if size < MAX_SCANNED_BYTES {
        file_block(relative, content)
    } else {
        too_large_note(full)
    }
}

/// The line that names the kind of a Rust project: a manifest that
/// declares a workspace and no package is the root of a virtual workspace.
pub open spec fn rust_kind_line(manifest: Seq<char>) -> Seq<char> {
    if contains_seq(manifest, "[workspace]"@) && !contains_seq(manifest, "[package]"@) {
        "✅ Type: Rust Virtual Workspace (Root)\n"@
    } else {
        "✅ Type: Rust Single Package\n"@
    }
}

/// The head of a scan: the directory, then one line for each kind of
/// project that the workspace is, then the heading of the sources.
pub open spec fn scan_header_of(
    directory: Seq<char>,
    manifest: Option<Seq<char>>,
    has_package_json: bool,
    has_anchor_toml: bool,
) -> Seq<char> {
    "\n--- CURRENT WORKING ENVIRONMENT ---\n"@ + "Directory: "@ + directory + "\n"@ + (
    match manifest {
        Some(text) => rust_kind_line(text),
        None => Seq::empty(),
    }) + (if has_package_json {
        "✅ Type: Node.js / Web Project\n"@
    } else {
        Seq::empty()
    }) + (if has_anchor_toml {
        "✅ Type: Solana Anchor Project\n"@
    } else {
        Seq::empty()
    }) + "\n--- 📂 FULL PROJECT SOURCE CODE ---\n"@
}

/// Whether a search passes over the path: it lies in build output, in
/// version control or among fetched packages.
pub open spec fn is_excluded_path(path: Seq<char>) -> bool {
    ||| contains_seq(path, "/target/"@)
    ||| contains_seq(path, "/.git/"@)
    ||| contains_seq(path, "/node_modules/"@)
}

/// An entry of the workspace that a search came by.
#[derive(Debug, Clone, PartialEq, Eq)]
pub struct Candidate {
    /// The path of the entry, from the workspace's root.
    pub path: String,
    /// The name of the entry: the last component of its path, if the path
    /// has one.
    pub file_name: Option<String>,
    /// Whether the entry is a regular file.
    pub is_file: bool,
    /// Whether the last components of the path are those of the path
    /// that is searched for.
    pub ends_with_target: bool,
}

/// The mathematical value of a [`Candidate`].
pub struct CandidateView {
    pub path: Seq<char>,
    pub file_name: Option<Seq<char>>,
    pub is_file: bool,
    pub ends_with_target: bool,
}

impl View for Candidate {
    type V = CandidateView;

    open spec fn view(&self) -> CandidateView {
        CandidateView {
            path: self.path@,
            file_name: self.file_name.deep_view(),
            is_file: self.is_file,
            ends_with_target: self.ends_with_target,
        }
    }
}

impl DeepView for Candidate {
    type V = CandidateView;

    open spec fn deep_view(&self) -> CandidateView {
        self.view()
    }
}

/// Whether the candidate is a file that the target may mean: a regular
/// file that is not excluded and is named as the target is. `name` is the
/// file name of the target; a target without one means no file.
pub open spec fn is_hit(candidate: CandidateView, name: Option<Seq<char>>) -> bool {
    &&& name is Some
    &&& candidate.is_file
    &&& !is_excluded_path(candidate.path)
    &&& candidate.file_name == name
}

/// Whether the candidate is a hit whose path ends as the target does:
/// with its components, or with its text.
pub open spec fn is_close_hit(
    candidate: CandidateView,
    target: Seq<char>,
    name: Option<Seq<char>>,
) -> bool {
    is_hit(candidate, name) && (candidate.ends_with_target || ends_with_seq(
        candidate.path,
        target,
    ))
}

/// No candidate before position `end` is a hit.
pub open spec fn no_hit_before(
    candidates: Seq<CandidateView>,
    name: Option<Seq<char>>,
    end: int,
) -> bool {
    forall|k: int| 0 <= k < end ==> !is_hit(#[trigger] candidates[k], name)
}

/// No candidate before position `end` is a close hit.
pub open spec fn no_close_hit_before(
    candidates: Seq<CandidateView>,
    target: Seq<char>,
    name: Option<Seq<char>>,
    end: int,
) -> bool {
    forall|k: int| 0 <= k < end ==> !is_close_hit(#[trigger] candidates[k], target, name)
}

/// Whether `at` is the position of the file that the target means: the
/// first close hit, or the first hit where there is no close one.
pub open spec fn is_match(
    candidates: Seq<CandidateView>,
    target: Seq<char>,
    name: Option<Seq<char>>,
    at: int,
) -> bool {
    &&& 0 <= at < candidates.len()
    &&& is_hit(candidates[at], name)
    &&& if is_close_hit(candidates[at], target, name) {
        no_close_hit_before(candidates, target, name, at)
    } else {
        no_close_hit_before(candidates, target, name, candidates.len() as int) && no_hit_before(
            candidates,
            name,
            at,
        )
    }
}

/// Whether a scan passes over the entry called `name`.
pub fn is_ignored_entry(name: &str) -> (ignored: bool)
    ensures
        ignored == is_ignored_name(name@),
{
    if text_eq(name, "package.json") || text_eq(name, "tsconfig.json") || text_eq(
        name,
        "Anchor.toml",
    ) {
        return false;
    }
    let chars = chars_of(name);
    if starts_with_chars(&chars, &chars_of(".")) {
        return true;
    }
    if text_eq(name, "target") || text_eq(name, "node_modules") || text_eq(name, "dist")
        || text_eq(name, "build") || text_eq(name, "out") || text_eq(name, "test-ledger") {
        return true;
    }
    ends_with_chars(&chars, &chars_of("package-lock.json")) || ends_with_chars(
        &chars,
        &chars_of("yarn.lock"),
    ) || ends_with_chars(&chars, &chars_of("Cargo.lock")) || ends_with_chars(
        &chars,
        &chars_of(".png"),
    ) || ends_with_chars(&chars, &chars_of(".jpg")) || ends_with_chars(&chars, &chars_of(".jpeg"))
        || ends_with_chars(&chars, &chars_of(".gif")) || ends_with_chars(
        &chars,
        &chars_of(".svg"),
    ) || ends_with_chars(&chars, &chars_of(".ico")) || ends_with_chars(&chars, &chars_of(".pdf"))
        || ends_with_chars(&chars, &chars_of(".so")) || ends_with_chars(
        &chars,
        &chars_of(".json"),
    )
}

/// Whether a scan still reads a directory that lies `depth` directories
/// below the workspace's root.
pub fn within_scan_depth(depth: usize) -> (within: bool)
    ensures
        within == (depth <= MAX_SCAN_DEPTH),
{
    depth <= MAX_SCAN_DEPTH
}

/// What a scanned file adds to the context.
pub fn scanned_block(relative: &str, full: &str, content: &str) -> (block: String)
    ensures
        block@ == scanned_block_of(relative@, full@, content@, content.len()),
{
    if content.len() < MAX_SCANNED_BYTES {
        let mut block = String::from_str("\n>>>> FILE START: ");
        block.append(relative);
        block.append(" <<<<\n");
        block.append(content);
        block.append("\n>>>> FILE END: ");
        block.append(relative);
        block.append(" <<<<\n");
        block
    } else {
        let mut block = String::from_str("\n--- FILE: ");
        block.append(full);
        block.append(" (Skipped: Content too large) ---\n");
        block
    }
}

/// The head of a scan of the workspace in `directory`. `manifest` is the
/// text of its `Cargo.toml`, if it has one that can be read.
pub fn scan_header(
    directory: &str,
    manifest: Option<&str>,
    has_package_json: bool,
    has_anchor_toml: bool,
) -> (header: String)
    ensures
        header@ == scan_header_of(
            directory@,
            manifest.deep_view(),
            has_package_json,
            has_anchor_toml,
        ),
{
    let mut header = String::from_str("\n--- CURRENT WORKING ENVIRONMENT ---\n");
    header.append("Directory: ");
    header.append(directory);
    header.append("\n");
    let ghost start = header@;
    match manifest {
        Some(text) => {
            let chars = chars_of(text);
            if contains_chars(&chars, &chars_of("[workspace]")) && !contains_chars(
                &chars,
                &chars_of("[package]"),
            ) {
                header.append("✅ Type: Rust Virtual Workspace (Root)\n");
            } else {
                header.append("✅ Type: Rust Single Package\n");
            }
        },
        None => {
            assert(start + Seq::<char>::empty() =~= start);
        },
    }
    let ghost with_rust = header@;
    if has_package_json {
        header.append("✅ Type: Node.js / Web Project\n");
    } else {
        assert(with_rust + Seq::<char>::empty() =~= with_rust);
    }
    let ghost with_node = header@;
    if has_anchor_toml {
        header.append("✅ Type: Solana Anchor Project\n");
    } else {
        assert(with_node + Seq::<char>::empty() =~= with_node);
    }
    header.append("\n--- 📂 FULL PROJECT SOURCE CODE ---\n");
    header
}

/// Whether a search passes over the path.
pub fn is_excluded_search_path(path: &str) -> (excluded: bool)
    ensures
        excluded == is_excluded_path(path@),
{
    let chars = chars_of(path);
    contains_chars(&chars, &chars_of("/target/")) || contains_chars(&chars, &chars_of("/.git/"))
        || contains_chars(&chars, &chars_of("/node_modules/"))
}

/// Whether the candidate is a file that the target may mean. `name` is
/// the file name of the target, if it has one.
pub fn is_search_hit(candidate: &Candidate, name: Option<&str>) -> (hit: bool)
    ensures
        hit == is_hit(candidate@, name.deep_view()),
{
    let wanted = match name {
        Some(wanted) => wanted,
        None => {
            return false;
        },
    };
    if !candidate.is_file || is_excluded_search_path(candidate.path.as_str()) {
        return false;
    }
    match &candidate.file_name {
        Some(found) => text_eq(found.as_str(), wanted),
        None => false,
    }
}

/// Whether the candidate is a hit whose path ends as the target does.
pub fn is_close_search_hit(candidate: &Candidate, target: &str, name: Option<&str>) -> (hit: bool)
    ensures
        hit == is_close_hit(candidate@, target@, name.deep_view()),
{
    if !is_search_hit(candidate, name) {
        return false;
    }
    candidate.ends_with_target || ends_with_chars(
        &chars_of(candidate.path.as_str()),
        &chars_of(target),
    )
}

/// The position of the file that `target` means among the entries that a
/// search came by. `name` is the file name of `target`, if it has one.
///
/// The file is a regular file outside build output, version control and
/// fetched packages that is named as the target is. Where several are,
/// the first whose path ends as the target does is meant, or the first
/// of all where none does. A target without a file name means no file.
pub fn find_match(candidates: &Vec<Candidate>, target: &str, name: Option<&str>) -> (found:
    Option<usize>)
    ensures
        match found {
            Some(at) => is_match(candidates.deep_view(), target@, name.deep_view(), at as int),
            None => no_hit_before(
                candidates.deep_view(),
                name.deep_view(),
                candidates.len() as int,
            ),
        },
        name is None ==> found is None,
{
    let ghost all = candidates.deep_view();
    let mut first: Option<usize> = None;
    let mut i: usize = 0;
    while i < candidates.len()
        invariant
            i <= candidates.len(),
            all == candidates.deep_view(),
            no_close_hit_before(all, target@, name.deep_view(), i as int),
            match first {
                Some(at) => at < i && is_hit(all[at as int], name.deep_view()) && no_hit_before(
                    all,
                    name.deep_view(),
                    at as int,
                ),
                None => no_hit_before(all, name.deep_view(), i as int),
            },
        decreases candidates.len() - i,
    {
        assert(all[i as int] == candidates[i as int]@);
        if is_close_search_hit(&candidates[i], target, name) {
            return Some(i);
        }
        if first.is_none() && is_search_hit(&candidates[i], name) {
            first = Some(i);
        }
        i += 1;
    }
    first
}

} // verus!
