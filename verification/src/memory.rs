//! The project memory: what a session remembers of the workspace and of the
//! tasks it was given.
//!
//! The memory caches the text of a workspace scan, so that the workspace is
//! scanned once, and keeps a running log of tasks. Reading and writing the
//! store on disk is the caller's part; the rules on the content are here.

use vstd::prelude::*;
use vstd::string::*;

verus! {

/// What is remembered of one workspace.
pub struct ProjectMemory {
    pub project_name: String,
    /// When the memory was last touched, as an RFC 3339 time stamp.
    pub last_interaction: String,
    /// The log of tasks, one entry per prompt or reply.
    pub summary: String,
    pub pending_tasks: Vec<String>,
    pub active_files: Vec<String>,
    /// The cached text of the workspace scan, with the files written since.
    pub project_context: String,
}

/// The mathematical value of a [`ProjectMemory`].
pub struct ProjectMemoryView {
    pub project_name: Seq<char>,
    pub last_interaction: Seq<char>,
    pub summary: Seq<char>,
    pub pending_tasks: Seq<Seq<char>>,
    pub active_files: Seq<Seq<char>>,
    pub project_context: Seq<char>,
}

impl View for ProjectMemory {
    type V = ProjectMemoryView;

    open spec fn view(&self) -> ProjectMemoryView {
        ProjectMemoryView {
            project_name: self.project_name@,
            last_interaction: self.last_interaction@,
            summary: self.summary@,
            pending_tasks: self.pending_tasks.deep_view(),
            active_files: self.active_files.deep_view(),
            project_context: self.project_context@,
        }
    }
}

impl DeepView for ProjectMemory {
    type V = ProjectMemoryView;

    open spec fn deep_view(&self) -> ProjectMemoryView {
        self.view()
    }
}

/// The block that stands for one file in the cached context.
pub open spec fn file_block(path: Seq<char>, content: Seq<char>) -> Seq<char> {
    "\n>>>> FILE START: "@ + path + " <<<<\n"@ + content + "\n>>>> FILE END: "@ + path
        + " <<<<\n"@
}

/// The log entry for one task: the time at which it was logged, in square
/// brackets, and the task.
pub open spec fn task_entry(prompt: Seq<char>, timestamp: Seq<char>) -> Seq<char> {
    "- ["@ + timestamp + "] Task: "@ + prompt + "\n"@
}

/// The task log after one more task, logged at `timestamp`: entries are
/// set apart by an empty line.
pub open spec fn summary_with_task(
    summary: Seq<char>,
    prompt: Seq<char>,
    timestamp: Seq<char>,
) -> Seq<char> {
    if summary.len() == 0 {
        task_entry(prompt, timestamp)
    } else {
        summary + "\n"@ + task_entry(prompt, timestamp)
    }
}

/// The context handed to the planning service: the cached workspace text,
/// a line break, and the task log.
pub open spec fn planning_context_of(memory: ProjectMemoryView) -> Seq<char> {
    memory.project_context + "\n"@ + memory.summary
}

impl ProjectMemoryView {
    /// The memory of a workspace that was never visited.
    pub open spec fn empty() -> ProjectMemoryView {
        ProjectMemoryView {
            project_name: Seq::empty(),
            last_interaction: Seq::empty(),
            summary: Seq::empty(),
            pending_tasks: Seq::empty(),
            active_files: Seq::empty(),
            project_context: Seq::empty(),
        }
    }

    /// The memory after the task `prompt` was logged at `timestamp`.
    pub open spec fn with_task(self, prompt: Seq<char>, timestamp: Seq<char>) -> ProjectMemoryView {
        ProjectMemoryView {
            last_interaction: timestamp,
            summary: summary_with_task(self.summary, prompt, timestamp),
            ..self
        }
    }

    /// The memory after the file `path` was written with `content`.
    pub open spec fn with_file(self, path: Seq<char>, content: Seq<char>) -> ProjectMemoryView {
        ProjectMemoryView {
            project_context: self.project_context + file_block(path, content),
            ..self
        }
    }

    /// The memory after a workspace scan gave `scanned`: the scan fills an
    /// empty cache and leaves a filled one alone.
    pub open spec fn with_scan(self, scanned: Seq<char>) -> ProjectMemoryView {
        if self.project_context.len() == 0 {
            ProjectMemoryView { project_context: scanned, ..self }
        } else {
            self
        }
    }
}

/// Calls chrono's `Local::now` and `DateTime::to_rfc3339`: the time of the
/// call on the local clock, as text. Nothing is claimed of the result, which
/// differs from call to call. chrono panics where the system clock stands
/// before 1970.
#[verifier::external_body]
pub(crate) fn current_timestamp() -> String {
    chrono::Local::now().to_rfc3339()
}

impl ProjectMemory {
    /// The memory of a workspace that was never visited.
    pub fn new() -> (memory: ProjectMemory)
        ensures
            memory@ == ProjectMemoryView::empty(),
    {
        let memory = ProjectMemory {
            project_name: String::new(),
            last_interaction: String::new(),
            summary: String::new(),
            pending_tasks: Vec::new(),
            active_files: Vec::new(),
            project_context: String::new(),
        };
        assert(memory.pending_tasks.deep_view() =~= Seq::<Seq<char>>::empty());
        assert(memory.active_files.deep_view() =~= Seq::<Seq<char>>::empty());
        memory
    }

    /// Where the memory of a workspace is kept, relative to its root.
    pub fn get_path() -> (path: String)
        ensures
            path@ == ".neurust/memory.json"@,
    {
        String::from_str(".neurust/memory.json")
    }

    /// The memory to start from, given what the store held: `None` stands for
    /// a store that is missing or cannot be read, and gives an empty memory.
    pub fn load(stored: Option<ProjectMemory>) -> (memory: ProjectMemory)
        ensures
            memory@ == match stored {
                Some(found) => found@,
                None => ProjectMemoryView::empty(),
            },
    {
        match stored {
            Some(found) => found,
            None => ProjectMemory::new(),
        }
    }

    /// Whether the workspace still has to be scanned: the cache is empty.
    pub fn needs_scan(&self) -> (needed: bool)
        ensures
            needed == (self@.project_context.len() == 0),
    {
        self.project_context.as_str().is_empty()
    }

    /// Takes the text of a workspace scan into an empty cache. A cache that
    /// holds text already is kept.
    pub fn remember_scan(&mut self, scanned: String)
        ensures
            final(self)@ == old(self)@.with_scan(scanned@),
            old(self)@.project_context.is_prefix_of(final(self)@.project_context),
    {
        if self.project_context.as_str().is_empty() {
            self.project_context = scanned;
        }
    }

    /// Logs the task `last_prompt` with the time `timestamp` at which it is
    /// logged, and keeps that time as the time of the last touch.
    pub fn record_task(&mut self, last_prompt: &str, timestamp: String)
        ensures
            final(self)@ == old(self)@.with_task(last_prompt@, timestamp@),
    {
        if !self.summary.as_str().is_empty() {
            self.summary.append("\n");
        }
        self.summary.append("- [");
        self.summary.append(timestamp.as_str());
        self.summary.append("] Task: ");
        self.summary.append(last_prompt);
        self.summary.append("\n");
        self.last_interaction = timestamp;
        proof {
            let old_summary = old(self)@.summary;
            if old_summary.len() != 0 {
                assert(old_summary + "\n"@ + "- ["@ + timestamp@ + "] Task: "@ + last_prompt@
                    + "\n"@ =~= old_summary + "\n"@ + task_entry(last_prompt@, timestamp@));
            } else {
                assert(old_summary + "- ["@ + timestamp@ + "] Task: "@ + last_prompt@ + "\n"@
                    =~= task_entry(last_prompt@, timestamp@));
            }
        }
    }

    /// Logs the task `last_prompt` with the time of the call. The time is
    /// whatever the clock gives; the entry carries it, and it is kept as the
    /// time of the last touch, as [`ProjectMemory::record_task`] does with
    /// the time that it is given.
    pub fn update_summary(&mut self, last_prompt: &str)
        ensures
            final(self)@ == old(self)@.with_task(last_prompt@, final(self)@.last_interaction),
    {
        let timestamp = current_timestamp();
        self.record_task(last_prompt, timestamp);
    }

    /// Adds the block for a file that was just written to the cached context,
    /// so that the next planning request sees it without a new scan.
    pub fn append_file_context(&mut self, path: &str, content: &str)
        ensures
            final(self)@ == old(self)@.with_file(path@, content@),
            old(self)@.project_context.is_prefix_of(final(self)@.project_context),
    {
        self.project_context.append("\n>>>> FILE START: ");
        self.project_context.append(path);
        self.project_context.append(" <<<<\n");
        self.project_context.append(content);
        self.project_context.append("\n>>>> FILE END: ");
        self.project_context.append(path);
        self.project_context.append(" <<<<\n");
        proof {
            let before = old(self)@.project_context;
            assert(before + "\n>>>> FILE START: "@ + path@ + " <<<<\n"@ + content@
                + "\n>>>> FILE END: "@ + path@ + " <<<<\n"@ =~= before + file_block(
                path@,
                content@,
            ));
        }
    }

    /// The context for a planning request.
    pub fn planning_context(&self) -> (context: String)
        ensures
            context@ == planning_context_of(self@),
    {
        let mut context = self.project_context.clone();
        context.append("\n");
        context.append(self.summary.as_str());
        context
    }
}

impl Default for ProjectMemory {
    fn default() -> (memory: ProjectMemory)
        ensures
            memory@ == ProjectMemoryView::empty(),
    {
        ProjectMemory::new()
    }
}

} // verus!
