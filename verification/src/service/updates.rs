//! The weekly update of the stored documents: every trusted source is
//! fetched again, then the documents of sources that are no longer
//! trusted are removed.
//!
//! [`UpdateScheduler`] decides what is done next; doing it, and waiting,
//! is the caller's part.

use vstd::prelude::*;
use vstd::string::*;
use crate::service::knowledge::{Source, SourceView};
use crate::service::library::{active_urls, urls_of};

verus! {

/// The seconds to rest after each source.
pub const SOURCE_PAUSE_SECS: u64 = 2;

/// The seconds from the end of one update to the start of the next.
pub const CYCLE_SECS: u64 = 604800;

/// A request to fetch a page and to store it under a topic.
#[derive(Debug, Clone, PartialEq, Eq)]
pub struct ScrapeRequest {
    pub url: String,
    pub topic: String,
}

/// The mathematical value of a [`ScrapeRequest`].
pub struct ScrapeRequestView {
    pub url: Seq<char>,
    pub topic: Seq<char>,
}

impl View for ScrapeRequest {
    type V = ScrapeRequestView;

    open spec fn view(&self) -> ScrapeRequestView {
        ScrapeRequestView { url: self.url@, topic: self.topic@ }
    }
}

/// What the scheduler waits to be told.
#[derive(Debug, Clone, Copy, PartialEq, Eq)]
pub enum UpdatePhase {
    /// The list of trusted sources.
    Sources,
    /// That a source was fetched, or that it could not be.
    Fetched,
    /// That the rest after a source is over.
    Rested,
    /// That stale documents were removed, or that they could not be.
    Pruned,
    /// That the time to the next update is over.
    Slept,
}

/// What the caller reports to the scheduler.
#[derive(Debug, Clone, PartialEq, Eq)]
pub enum UpdateEvent {
    /// Answers [`UpdateStep::LoadSources`].
    Sources(Vec<Source>),
    /// Answers any other step.
    Done,
}

/// What the scheduler asks the caller to do.
#[derive(Debug, Clone, PartialEq, Eq)]
pub enum UpdateStep {
    /// Load the list of trusted sources and report it.
    LoadSources,
    /// Fetch the page and store it.
    Scrape(ScrapeRequest),
    /// Wait for so many seconds.
    Wait { seconds: u64 },
    /// Remove the documents that come from none of these addresses.
    Prune { urls: Vec<String> },
    /// Nothing: the event answered no step that was pending. The
    /// scheduler is as it was.
    Unexpected,
}

/// The mathematical value of an [`UpdateEvent`].
pub enum UpdateEventView {
    Sources(Seq<SourceView>),
    Done,
}

impl View for UpdateEvent {
    type V = UpdateEventView;

    open spec fn view(&self) -> UpdateEventView {
        match self {
            UpdateEvent::Sources(sources) => UpdateEventView::Sources(sources.deep_view()),
            UpdateEvent::Done => UpdateEventView::Done,
        }
    }
}

/// The mathematical value of an [`UpdateStep`].
pub enum UpdateStepView {
    LoadSources,
    Scrape(ScrapeRequestView),
    Wait { seconds: u64 },
    Prune { urls: Seq<Seq<char>> },
    Unexpected,
}

impl View for UpdateStep {
    type V = UpdateStepView;

    open spec fn view(&self) -> UpdateStepView {
        match self {
            UpdateStep::LoadSources => UpdateStepView::LoadSources,
            UpdateStep::Scrape(request) => UpdateStepView::Scrape(request@),
            UpdateStep::Wait { seconds } => UpdateStepView::Wait { seconds: *seconds },
            UpdateStep::Prune { urls } => UpdateStepView::Prune { urls: urls.deep_view() },
            UpdateStep::Unexpected => UpdateStepView::Unexpected,
        }
    }
}

/// The scheduler of the weekly update.
pub struct UpdateScheduler {
    sources: Vec<Source>,
    /// The position of the source at work.
    next: usize,
    phase: UpdatePhase,
}

/// The mathematical value of an [`UpdateScheduler`].
pub struct UpdateSchedulerView {
    pub sources: Seq<SourceView>,
    pub next: int,
    pub phase: UpdatePhase,
}

impl View for UpdateScheduler {
    type V = UpdateSchedulerView;

    closed spec fn view(&self) -> UpdateSchedulerView {
        UpdateSchedulerView {
            sources: self.sources.deep_view(),
            next: self.next as int,
            phase: self.phase,
        }
    }
}

impl UpdateSchedulerView {
    /// The scheduler before its first update. The first step to do is
    /// [`UpdateStep::LoadSources`].
    pub open spec fn initial() -> UpdateSchedulerView {
        UpdateSchedulerView { sources: Seq::empty(), next: 0, phase: UpdatePhase::Sources }
    }

    /// Goes on with the source at the position, or with the removal of
    /// stale documents once every source was fetched. Where no source is
    /// trusted nothing counts as stale, and the time to the next update
    /// begins at once.
    pub open spec fn go_on(self) -> (UpdateSchedulerView, UpdateStepView) {
        if 0 <= self.next < self.sources.len() {
            (
                UpdateSchedulerView { phase: UpdatePhase::Fetched, ..self },
                UpdateStepView::Scrape(
                    ScrapeRequestView {
                        url: self.sources[self.next].url,
                        topic: self.sources[self.next].topic,
                    },
                ),
            )
        } else if self.sources.len() > 0 {
            (
                UpdateSchedulerView { phase: UpdatePhase::Pruned, ..self },
                UpdateStepView::Prune { urls: urls_of(self.sources) },
            )
        } else {
            (
                UpdateSchedulerView { phase: UpdatePhase::Slept, ..self },
                UpdateStepView::Wait { seconds: CYCLE_SECS },
            )
        }
    }

    /// What one step does: the scheduler after the event, and the step
    /// that it asks for.
    pub open spec fn step(self, event: UpdateEventView) -> (UpdateSchedulerView, UpdateStepView) {
        match (self.phase, event) {
            (UpdatePhase::Sources, UpdateEventView::Sources(sources)) => (UpdateSchedulerView {
                sources,
                next: 0,
                ..self
            }).go_on(),
            (UpdatePhase::Fetched, UpdateEventView::Done) => (
                UpdateSchedulerView { phase: UpdatePhase::Rested, ..self },
                UpdateStepView::Wait { seconds: SOURCE_PAUSE_SECS },
            ),
            (UpdatePhase::Rested, UpdateEventView::Done) => if 0 <= self.next
                < self.sources.len() {
                (UpdateSchedulerView { next: self.next + 1, ..self }).go_on()
            } else {
                self.go_on()
            },
            (UpdatePhase::Pruned, UpdateEventView::Done) => (
                UpdateSchedulerView { phase: UpdatePhase::Slept, ..self },
                UpdateStepView::Wait { seconds: CYCLE_SECS },
            ),
            (UpdatePhase::Slept, UpdateEventView::Done) => (
                UpdateSchedulerView { phase: UpdatePhase::Sources, ..self },
                UpdateStepView::LoadSources,
            ),
            _ => (self, UpdateStepView::Unexpected),
        }
    }
}

impl UpdateScheduler {
    /// The scheduler before its first update. The first step to do is
    /// [`UpdateStep::LoadSources`].
    pub fn new() -> (scheduler: UpdateScheduler)
        ensures
            scheduler@ == UpdateSchedulerView::initial(),
    {
        let sources: Vec<Source> = Vec::new();
        assert(sources.deep_view() =~= Seq::<SourceView>::empty());
        UpdateScheduler { sources, next: 0, phase: UpdatePhase::Sources }
    }

    /// What the scheduler waits to be told.
    pub fn phase(&self) -> (phase: UpdatePhase)
        ensures
            phase == self@.phase,
    {
        self.phase
    }

    /// Goes on with the source at the position, or with the removal of
    /// stale documents.
    fn go_on(&mut self) -> (step: UpdateStep)
        ensures
            (final(self)@, step@) == old(self)@.go_on(),
    {
        if self.next < self.sources.len() {
            let source = &self.sources[self.next];
            assert(source@ == self.sources.deep_view()[self.next as int]);
            let request = ScrapeRequest { url: source.url.clone(), topic: source.topic.clone() };
            self.phase = UpdatePhase::Fetched;
            UpdateStep::Scrape(request)
        } else if self.sources.len() > 0 {
            let urls = active_urls(&self.sources);
            self.phase = UpdatePhase::Pruned;
            UpdateStep::Prune { urls }
        } else {
            self.phase = UpdatePhase::Slept;
            UpdateStep::Wait { seconds: CYCLE_SECS }
        }
    }

    /// Takes one event and answers with the next step.
    pub fn step(&mut self, event: UpdateEvent) -> (step: UpdateStep)
        ensures
            (final(self)@, step@) == old(self)@.step(event@),
    {
        match self.phase {
            UpdatePhase::Sources => match event {
                UpdateEvent::Sources(sources) => {
                    self.sources = sources;
                    self.next = 0;
                    self.go_on()
                },
                _ => UpdateStep::Unexpected,
            },
            UpdatePhase::Fetched => match event {
                UpdateEvent::Done => {
                    self.phase = UpdatePhase::Rested;
                    UpdateStep::Wait { seconds: SOURCE_PAUSE_SECS }
                },
                _ => UpdateStep::Unexpected,
            },
            UpdatePhase::Rested => match event {
                UpdateEvent::Done => {
                    if self.next < self.sources.len() {
                        self.next = self.next + 1;
                    }
                    self.go_on()
                },
                _ => UpdateStep::Unexpected,
            },
            UpdatePhase::Pruned => match event {
                UpdateEvent::Done => {
                    self.phase = UpdatePhase::Slept;
                    UpdateStep::Wait { seconds: CYCLE_SECS }
                },
                _ => UpdateStep::Unexpected,
            },
            UpdatePhase::Slept => match event {
                UpdateEvent::Done => {
                    self.phase = UpdatePhase::Sources;
                    UpdateStep::LoadSources
                },
                _ => UpdateStep::Unexpected,
            },
        }
    }
}

} // verus!
