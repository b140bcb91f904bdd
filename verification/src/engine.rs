//! The reconciliation engine.
//!
//! The engine decides; the driver acts. After [`Engine::start`] the driver
//! repeats: read [`Engine::action`], do what it says, and report the outcome
//! with [`Engine::step`], until the action is to finish or to abort.

use crate::catalog::{candidate_titles, CandidateRecord};
use crate::laws::{lemma_start_wf, lemma_step_preserves_wf};
use crate::model::{lemma_same_state, EngineModel, Phase};
use crate::plan::{
    choose_link_key, choose_target_token, image_file_name, scan_folders, EntryView, LocalEntry,
    Target,
};
use crate::protocol::{
    Action, Event, EventView, FetchFailure, MatchResult, Notice, NoticeView, RunError, RunSummary,
    CHOICE_LIMIT, ENTRY_PAUSE_MS, PROBE_LIMIT,
};
use crate::retry::{
    image_policy, is_success_status, lemma_delay_monotone, status_is_success, RetryDecision,
    RetryPolicy,
};
use crate::selection::{parse_selection, Selection};
use crate::store::make_record;
use crate::text::titles_match;
use vstd::prelude::*;

verus! {

/// The mathematical content of a directory listing, or of the reason why
/// there is none.
pub open spec fn listing_view(listing: Result<Vec<LocalEntry>, String>) -> Result<
    Seq<EntryView>,
    Seq<char>,
> {
    match listing {
        Ok(entries) => Ok(entries.deep_view()),
        Err(text) => Err(text@),
    }
}

/// A reconciliation run in progress.
#[derive(Debug)]
pub struct Engine {
    full: bool,
    verbose: bool,
    policy: RetryPolicy,
    folders: Vec<String>,
    phase: Phase,
    scanned: usize,
    targets: Vec<Target>,
    resolved: usize,
    candidates: Vec<CandidateRecord>,
    asked: bool,
    pending: Option<MatchResult>,
    results: Vec<MatchResult>,
    fetched: usize,
    failures: u8,
    error: Option<RunError>,
}

impl View for Engine {
    type V = EngineModel;

    closed spec fn view(&self) -> EngineModel {
        EngineModel {
            full: self.full,
            verbose: self.verbose,
            policy: self.policy@,
            folders: self.folders.deep_view(),
            phase: self.phase,
            scanned: self.scanned as nat,
            targets: self.targets.deep_view(),
            resolved: self.resolved as nat,
            candidates: self.candidates.deep_view(),
            asked: self.asked,
            pending: self.pending.deep_view(),
            results: self.results.deep_view(),
            fetched: self.fetched as nat,
            failures: self.failures as nat,
            error: self.error.deep_view(),
        }
    }
}

/// No notice.
fn no_notice() -> (notices: Vec<Notice>)
    ensures
        notices.deep_view() == Seq::<NoticeView>::empty(),
{
    let notices: Vec<Notice> = Vec::new();
    assert(notices.deep_view() =~= Seq::<NoticeView>::empty());
    notices
}

/// A single notice.
fn one_notice(notice: Notice) -> (notices: Vec<Notice>)
    ensures
        notices.deep_view() == seq![notice@],
{
    let mut notices: Vec<Notice> = Vec::new();
    notices.push(notice);
    assert(notices.deep_view() =~= seq![notice@]);
    notices
}

/// Two notices, in this order.
fn two_notices(first: Notice, second: Notice) -> (notices: Vec<Notice>)
    ensures
        notices.deep_view() == seq![first@, second@],
{
    let mut notices: Vec<Notice> = Vec::new();
    notices.push(first);
    notices.push(second);
    assert(notices.deep_view() =~= seq![first@, second@]);
    notices
}

/// Appends a target to the plan.
fn push_target(targets: Vec<Target>, target: Target) -> (longer: Vec<Target>)
    ensures
        longer.deep_view() == targets.deep_view().push(target@),
{
    let mut longer = targets;
    longer.push(target);
    assert(longer.deep_view() =~= targets.deep_view().push(target@));
    longer
}

/// Appends a match to the accepted ones.
fn push_match(results: Vec<MatchResult>, found: MatchResult) -> (longer: Vec<MatchResult>)
    ensures
        longer.deep_view() == results.deep_view().push(found@),
{
    let mut longer = results;
    longer.push(found);
    assert(longer.deep_view() =~= results.deep_view().push(found@));
    longer
}

/// Copies the reason of a failed attempt.
fn copy_failure(failure: &FetchFailure) -> (copy: FetchFailure)
    ensures
        copy@ == failure@,
{
    match failure {
        FetchFailure::Status(code) => FetchFailure::Status(*code),
        FetchFailure::Transport(text) => FetchFailure::Transport(text.clone()),
    }
}

/// Copies the reason of an aborted run.
fn copy_error(error: &RunError) -> (copy: RunError)
    ensures
        copy@ == error@,
{
    match error {
        RunError::Scan(text) => RunError::Scan(text.clone()),
        RunError::Persistence(text) => RunError::Persistence(text.clone()),
    }
}

impl Engine {
    #[verifier::type_invariant]
    spec fn inv(self) -> bool {
        self@.wf()
    }

    /// Begins a run over a directory listing. `listing` is the outcome of
    /// reading the local directory; `full` asks for linked folders to be
    /// searched again, `verbose` for notices of success.
    pub fn start(full: bool, verbose: bool, listing: Result<Vec<LocalEntry>, String>) -> (out: (
        Engine,
        Vec<Notice>,
    ))
        ensures
            (out.0@, out.1.deep_view()) == EngineModel::start(
                full,
                verbose,
                image_policy(),
                listing_view(listing),
            ),
            out.0@.wf(),
    {
        let policy = RetryPolicy::image_download();
        proof {
            lemma_start_wf(full, verbose, policy@, listing_view(listing));
        }
        match listing {
            Err(text) => {
                let engine = Engine {
                    full,
                    verbose,
                    policy,
                    folders: Vec::new(),
                    phase: Phase::Failed,
                    scanned: 0,
                    targets: Vec::new(),
                    resolved: 0,
                    candidates: Vec::new(),
                    asked: false,
                    pending: None,
                    results: Vec::new(),
                    fetched: 0,
                    failures: 0,
                    error: Some(RunError::Scan(text)),
                };
                proof {
                    lemma_same_state(
                        engine@,
                        EngineModel::start(full, verbose, policy@, listing_view(listing)).0,
                    );
                }
                (engine, no_notice())
            },
            Ok(entries) => {
                let folders = scan_folders(&entries);
                let scanning: bool = folders.len() > 0;
                let phase = if scanning {
                    Phase::Scanning
                } else {
                    Phase::Done
                };
                let engine = Engine {
                    full,
                    verbose,
                    policy,
                    folders,
                    phase,
                    scanned: 0,
                    targets: Vec::new(),
                    resolved: 0,
                    candidates: Vec::new(),
                    asked: false,
                    pending: None,
                    results: Vec::new(),
                    fetched: 0,
                    failures: 0,
                    error: None,
                };
                proof {
                    lemma_same_state(
                        engine@,
                        EngineModel::start(full, verbose, policy@, listing_view(listing)).0,
                    );
                }
                if scanning {
                    (engine, no_notice())
                } else {
                    (engine, one_notice(Notice::AllSaved))
                }
            },
        }
    }

    /// The phase of the run.
    pub fn phase(&self) -> (phase: Phase)
        ensures
            phase == self@.phase,
    {
        self.phase
    }

    /// Whether the run has ended, complete or aborted.
    pub fn is_over(&self) -> (over: bool)
        ensures
            over == (self@.phase == Phase::Done || self@.phase == Phase::Failed),
    {
        match self.phase {
            Phase::Done => true,
            Phase::Failed => true,
            _ => false,
        }
    }

    /// The counts of the run so far.
    pub fn summary(&self) -> (summary: RunSummary)
        ensures
            summary == self@.summary(),
    {
        RunSummary {
            folders: self.folders.len(),
            searched: self.targets.len(),
            matched: self.results.len(),
        }
    }

    /// The matches accepted and stored so far, in the order of their
    /// acceptance.
    pub fn matches(&self) -> (matches: Vec<MatchResult>)
        ensures
            matches.deep_view() == self@.results,
    {
        let mut matches: Vec<MatchResult> = Vec::new();
        let mut i: usize = 0;
        while i < self.results.len()
            invariant
                i <= self.results.len(),
                matches.len() == i,
                forall|j: int| 0 <= j < i ==> matches@[j]@ == self.results@[j]@,
            decreases self.results.len() - i,
        {
            matches.push(
                MatchResult {
                    link_key: self.results[i].link_key.clone(),
                    candidate: self.results[i].candidate.duplicate(),
                },
            );
            i = i + 1;
        }
        assert(matches.deep_view() =~= self.results.deep_view());
        matches
    }

    /// What the driver is asked to do now.
    pub fn action(&self) -> (action: Action)
        ensures
            action@ == self@.action(),
    {
        proof {
            use_type_invariant(self);
        }
        match self.phase {
            Phase::Scanning => Action::LookupTitle { link_key: self.folders[self.scanned].clone() },
            Phase::Probing => Action::Search {
                token: self.targets[self.resolved].token.clone(),
                limit: PROBE_LIMIT,
            },
            Phase::Widening => Action::Search {
                token: self.targets[self.resolved].token.clone(),
                limit: CHOICE_LIMIT,
            },
            Phase::Prompting => Action::Prompt {
                token: self.targets[self.resolved].token.clone(),
                titles: candidate_titles(&self.candidates),
                first: !self.asked,
            },
            Phase::Persisting => match &self.pending {
                Some(found) => Action::Upsert {
                    row: make_record(found.link_key.as_str(), &found.candidate),
                },
                None => vstd::pervasive::unreached(),
            },
            Phase::Pausing => Action::Pause { millis: ENTRY_PAUSE_MS },
            Phase::Fetching => Action::FetchImage {
                url: self.results[self.fetched].candidate.image_url.clone(),
            },
            Phase::Storing => Action::SaveImage {
                file_name: image_file_name(self.results[self.fetched].link_key.as_str()),
            },
            Phase::Backoff => {
                proof {
                    lemma_delay_monotone(
                        self@.policy,
                        self@.failures + 1,
                        self@.policy.max_attempts,
                    );
                }
                Action::Backoff { millis: self.policy.delay_before_attempt(self.failures + 1) }
            },
            Phase::Done => Action::Finish { summary: self.summary() },
            Phase::Failed => match &self.error {
                Some(error) => Action::Abort { error: copy_error(error) },
                None => vstd::pervasive::unreached(),
            },
        }
    }
    /// Takes the next step of the run: `event` reports the outcome of the
    /// action that the engine asked for.
    pub fn step(self, event: Event) -> (out: (Engine, Vec<Notice>))
        ensures
            (out.0@, out.1.deep_view()) == self@.step(event@),
            self@.wf(),
            out.0@.wf(),
    {
        proof {
            use_type_invariant(&self);
            lemma_step_preserves_wf(self@, event@);
        }
        match event {
            Event::TitleLookup(title) => match self.phase {
                Phase::Scanning => self.scan(title),
                _ => self.ignore(),
            },
            Event::StoreFailed(text) => match self.phase {
                Phase::Scanning => self.abort(text),
                Phase::Persisting => self.abort(text),
                _ => self.ignore(),
            },
            Event::SearchResults(found) => match self.phase {
                Phase::Probing => self.probe(found),
                Phase::Widening => self.widen(found),
                _ => self.ignore(),
            },
            Event::SearchFailed(error) => match self.phase {
                Phase::Probing => self.search_failed(error),
                Phase::Widening => self.search_failed(error),
                _ => self.ignore(),
            },
            Event::OperatorLine(line) => match self.phase {
                Phase::Prompting => self.answer(line),
                _ => self.ignore(),
            },
            Event::UpsertDone => match self.phase {
                Phase::Persisting => self.persisted(),
                _ => self.ignore(),
            },
            Event::DelayElapsed => match self.phase {
                Phase::Pausing => self.resume(),
                Phase::Backoff => self.retry_fetch(),
                _ => self.ignore(),
            },
            Event::FetchStatus(code) => match self.phase {
                Phase::Fetching => if is_success_status(code) {
                    self.store_image(code)
                } else {
                    self.fetch_failed(FetchFailure::Status(code))
                },
                _ => self.ignore(),
            },
            Event::FetchError(text) => match self.phase {
                Phase::Fetching => self.fetch_failed(FetchFailure::Transport(text)),
                _ => self.ignore(),
            },
            Event::ImageSaved => match self.phase {
                Phase::Storing => self.image_saved(),
                _ => self.ignore(),
            },
            Event::ImageWriteFailed(error) => match self.phase {
                Phase::Storing => self.image_lost(error),
                _ => self.ignore(),
            },
        }
    }

    /// Leaves the run as it is on an event that answers nothing.
    fn ignore(self) -> (out: (Engine, Vec<Notice>))
        ensures
            out.0@ == self@,
            out.1.deep_view() == seq![NoticeView::Unexpected],
    {
        (self, one_notice(Notice::Unexpected))
    }

    /// Plans the target of the folder whose stored title was looked up.
    fn scan(self, title: Option<String>) -> (out: (Engine, Vec<Notice>))
        requires
            self@.phase == Phase::Scanning,
        ensures
            (out.0@, out.1.deep_view()) == self@.scan(title.deep_view()),
    {
        let ghost event = EventView::TitleLookup(title.deep_view());
        let ghost expected = self@.step(event).0;
        proof {
            use_type_invariant(&self);
            lemma_step_preserves_wf(self@, event);
            assert(self.folders.deep_view().len() == self.folders.len());
        }
        let scanned: usize = self.scanned + 1;
        let token = choose_target_token(self.full, self.folders[self.scanned].as_str(), title);
        let targets = match token {
            Some(token) => {
                let link_key = choose_link_key(
                    self.full,
                    self.folders[self.scanned].as_str(),
                    token.as_str(),
                );
                push_target(self.targets, Target { token, link_key })
            },
            None => self.targets,
        };
        let resolving: bool = scanned == self.folders.len();
        let phase = if !resolving {
            Phase::Scanning
        } else if targets.len() > 0 {
            Phase::Probing
        } else {
            Phase::Done
        };
        let done: bool = resolving && targets.len() == 0;
        let next = Engine { scanned, targets, phase, ..self };
        proof {
            lemma_same_state(next@, expected);
        }
        if done {
            (next, one_notice(Notice::AllSaved))
        } else {
            (next, no_notice())
        }
    }
    /// Aborts the run on a failure of the store.
    fn abort(self, text: String) -> (out: (Engine, Vec<Notice>))
        requires
            self@.phase == Phase::Scanning || self@.phase == Phase::Persisting,
        ensures
            (out.0@, out.1.deep_view()) == self@.abort(text@),
    {
        let ghost event = EventView::StoreFailed(text@);
        let ghost expected = self@.step(event).0;
        proof {
            use_type_invariant(&self);
            lemma_step_preserves_wf(self@, event);
        }
        let next = Engine {
            phase: Phase::Failed,
            error: Some(RunError::Persistence(text)),
            ..self
        };
        proof {
            lemma_same_state(next@, expected);
        }
        (next, no_notice())
    }

    /// Ends the entry without a match and begins the pause after it.
    fn skip(self, notice: Notice) -> (out: (Engine, Vec<Notice>))
        requires
            self@.skip(notice@).0.wf(),
            self@.resolved < self@.targets.len(),
        ensures
            (out.0@, out.1.deep_view()) == self@.skip(notice@),
    {
        let ghost expected = self@.skip(notice@).0;
        proof {
            use_type_invariant(&self);
            assert(self.targets.deep_view().len() == self.targets.len());
        }
        let next = Engine {
            phase: Phase::Pausing,
            resolved: self.resolved + 1,
            candidates: Vec::new(),
            asked: false,
            ..self
        };
        proof {
            lemma_same_state(next@, expected);
        }
        (next, one_notice(notice))
    }

    /// Accepts a candidate for the entry and asks for it to be stored.
    fn accept(self, candidate: CandidateRecord) -> (out: (Engine, Vec<Notice>))
        requires
            self@.accept(candidate@).0.wf(),
            self@.resolved < self@.targets.len(),
        ensures
            (out.0@, out.1.deep_view()) == self@.accept(candidate@),
    {
        let ghost expected = self@.accept(candidate@).0;
        proof {
            use_type_invariant(&self);
            assert(self.targets.deep_view().len() == self.targets.len());
        }
        let notices = if self.verbose {
            one_notice(Notice::MatchFound { token: self.targets[self.resolved].token.clone() })
        } else {
            no_notice()
        };
        let link_key = self.targets[self.resolved].link_key.clone();
        let next = Engine {
            phase: Phase::Persisting,
            pending: Some(MatchResult { link_key, candidate }),
            candidates: Vec::new(),
            asked: false,
            ..self
        };
        proof {
            lemma_same_state(next@, expected);
        }
        (next, notices)
    }

    /// Reads the probe's answer.
    fn probe(self, found: Vec<CandidateRecord>) -> (out: (Engine, Vec<Notice>))
        requires
            self@.phase == Phase::Probing,
        ensures
            (out.0@, out.1.deep_view()) == self@.probe(found.deep_view()),
    {
        let ghost event = EventView::SearchResults(found.deep_view());
        let ghost expected = self@.step(event).0;
        proof {
            use_type_invariant(&self);
            lemma_step_preserves_wf(self@, event);
            assert(self.targets.deep_view().len() == self.targets.len());
            assert(found.deep_view().len() == found.len());
        }
        if found.len() == 0 {
            let token = self.targets[self.resolved].token.clone();
            self.skip(Notice::EmptyResultSet { token })
        } else if titles_match(
            found[0].title.as_str(),
            self.targets[self.resolved].token.as_str(),
        ) {
            let candidate = found[0].duplicate();
            self.accept(candidate)
        } else {
            let next = Engine { phase: Phase::Widening, ..self };
            proof {
                lemma_same_state(next@, expected);
            }
            (next, no_notice())
        }
    }

    /// Reads the wider search's answer.
    fn widen(self, found: Vec<CandidateRecord>) -> (out: (Engine, Vec<Notice>))
        requires
            self@.phase == Phase::Widening,
        ensures
            (out.0@, out.1.deep_view()) == self@.widen(found.deep_view()),
    {
        let ghost event = EventView::SearchResults(found.deep_view());
        let ghost expected = self@.step(event).0;
        proof {
            use_type_invariant(&self);
            lemma_step_preserves_wf(self@, event);
            assert(self.targets.deep_view().len() == self.targets.len());
            assert(found.deep_view().len() == found.len());
        }
        if found.len() == 0 {
            let token = self.targets[self.resolved].token.clone();
            self.skip(Notice::EmptyResultSet { token })
        } else {
            let next = Engine { phase: Phase::Prompting, candidates: found, asked: false, ..self };
            proof {
                lemma_same_state(next@, expected);
            }
            (next, no_notice())
        }
    }

    /// Skips the entry whose search failed.
    fn search_failed(self, error: String) -> (out: (Engine, Vec<Notice>))
        requires
            self@.phase == Phase::Probing || self@.phase == Phase::Widening,
        ensures
            (out.0@, out.1.deep_view()) == self@.step(EventView::SearchFailed(error@)),
    {
        proof {
            use_type_invariant(&self);
            lemma_step_preserves_wf(self@, EventView::SearchFailed(error@));
            assert(self.targets.deep_view().len() == self.targets.len());
        }
        let token = self.targets[self.resolved].token.clone();
        self.skip(Notice::SearchFailed { token, error })
    }

    /// Reads the operator's answer.
    fn answer(self, line: String) -> (out: (Engine, Vec<Notice>))
        requires
            self@.phase == Phase::Prompting,
        ensures
            (out.0@, out.1.deep_view()) == self@.answer(line@),
    {
        let ghost event = EventView::OperatorLine(line@);
        let ghost expected = self@.step(event).0;
        proof {
            use_type_invariant(&self);
            lemma_step_preserves_wf(self@, event);
            assert(self.targets.deep_view().len() == self.targets.len());
            assert(self.candidates.deep_view().len() == self.candidates.len());
        }
        match parse_selection(line.as_str(), self.candidates.len()) {
            Selection::Pick(index) => {
                let candidate = self.candidates[index].duplicate();
                self.accept(candidate)
            },
            Selection::Decline => {
                let token = self.targets[self.resolved].token.clone();
                self.skip(Notice::NoAcceptableMatch { token })
            },
            Selection::Retry => {
                let next = Engine { asked: true, ..self };
                proof {
                    lemma_same_state(next@, expected);
                }
                (next, no_notice())
            },
        }
    }

    /// Counts the pending match as accepted once the store has written it.
    fn persisted(self) -> (out: (Engine, Vec<Notice>))
        requires
            self@.phase == Phase::Persisting,
        ensures
            (out.0@, out.1.deep_view()) == self@.persisted(),
    {
        let ghost event = EventView::UpsertDone;
        let ghost expected = self@.step(event).0;
        proof {
            use_type_invariant(&self);
            lemma_step_preserves_wf(self@, event);
            assert(self.targets.deep_view().len() == self.targets.len());
        }
        match self.pending {
            Some(found) => {
                let notices = if self.verbose {
                    one_notice(Notice::Saved { link_key: found.link_key.clone() })
                } else {
                    no_notice()
                };
                let results = push_match(self.results, found);
                let next = Engine {
                    phase: Phase::Pausing,
                    resolved: self.resolved + 1,
                    results,
                    pending: None,
                    ..self
                };
                proof {
                    lemma_same_state(next@, expected);
                }
                (next, notices)
            },
            None => vstd::pervasive::unreached(),
        }
    }

    /// Goes on after the pause: to the next target, or to the downloads.
    fn resume(self) -> (out: (Engine, Vec<Notice>))
        requires
            self@.phase == Phase::Pausing,
        ensures
            (out.0@, out.1.deep_view()) == self@.resume(),
    {
        let ghost event = EventView::DelayElapsed;
        let ghost expected = self@.step(event).0;
        proof {
            use_type_invariant(&self);
            lemma_step_preserves_wf(self@, event);
            assert(self.targets.deep_view().len() == self.targets.len());
            assert(self.results.deep_view().len() == self.results.len());
        }
        if self.resolved < self.targets.len() {
            let next = Engine { phase: Phase::Probing, ..self };
            proof {
                lemma_same_state(next@, expected);
            }
            (next, no_notice())
        } else {
            let phase = if self.results.len() > 0 {
                Phase::Fetching
            } else {
                Phase::Done
            };
            let next = Engine { phase, ..self };
            proof {
                lemma_same_state(next@, expected);
            }
            (next, one_notice(Notice::AllSaved))
        }
    }

    /// Fetches again after the backoff.
    fn retry_fetch(self) -> (out: (Engine, Vec<Notice>))
        requires
            self@.phase == Phase::Backoff,
        ensures
            (out.0@, out.1.deep_view()) == self@.step(EventView::DelayElapsed),
    {
        let ghost expected = self@.step(EventView::DelayElapsed).0;
        proof {
            use_type_invariant(&self);
            lemma_step_preserves_wf(self@, EventView::DelayElapsed);
        }
        let next = Engine { phase: Phase::Fetching, ..self };
        proof {
            lemma_same_state(next@, expected);
        }
        (next, no_notice())
    }

    /// Asks for the fetched image to be stored.
    fn store_image(self, code: u16) -> (out: (Engine, Vec<Notice>))
        requires
            self@.phase == Phase::Fetching,
            status_is_success(code),
        ensures
            (out.0@, out.1.deep_view()) == self@.step(EventView::FetchStatus(code)),
    {
        let ghost expected = self@.step(EventView::FetchStatus(code)).0;
        proof {
            use_type_invariant(&self);
            lemma_step_preserves_wf(self@, EventView::FetchStatus(code));
        }
        let next = Engine { phase: Phase::Storing, ..self };
        proof {
            lemma_same_state(next@, expected);
        }
        (next, no_notice())
    }

    /// Ends the download of the current image and turns to the next.
    fn next_download(self) -> (next: Engine)
        requires
            self@.next_download().wf(),
            self@.fetched < self@.results.len(),
        ensures
            next@ == self@.next_download(),
    {
        let ghost expected = self@.next_download();
        proof {
            use_type_invariant(&self);
            assert(self.results.deep_view().len() == self.results.len());
        }
        let fetched: usize = self.fetched + 1;
        let phase = if fetched < self.results.len() {
            Phase::Fetching
        } else {
            Phase::Done
        };
        let next = Engine { phase, fetched, failures: 0, ..self };
        proof {
            lemma_same_state(next@, expected);
        }
        next
    }

    /// Decides between another attempt and giving the image up.
    fn fetch_failed(self, failure: FetchFailure) -> (out: (Engine, Vec<Notice>))
        requires
            self@.phase == Phase::Fetching,
            self@.fetch_failed(failure@).0.wf(),
        ensures
            (out.0@, out.1.deep_view()) == self@.fetch_failed(failure@),
    {
        let ghost expected = self@.fetch_failed(failure@).0;
        proof {
            use_type_invariant(&self);
            assert(self.results.deep_view().len() == self.results.len());
        }
        let failures: u8 = self.failures + 1;
        match self.policy.after_failure(failures) {
            RetryDecision::RetryAfter(_) => {
                let next = Engine { phase: Phase::Backoff, failures, ..self };
                proof {
                    lemma_same_state(next@, expected);
                }
                (next, one_notice(Notice::AttemptFailed { failure }))
            },
            RetryDecision::GiveUp => {
                let link_key = self.results[self.fetched].link_key.clone();
                let attempt = Notice::AttemptFailed { failure: copy_failure(&failure) };
                let next = self.next_download();
                (next, two_notices(attempt, Notice::RetriesExhausted { link_key, last: failure }))
            },
        }
    }

    /// Turns to the next image after the current one was stored.
    fn image_saved(self) -> (out: (Engine, Vec<Notice>))
        requires
            self@.phase == Phase::Storing,
        ensures
            (out.0@, out.1.deep_view()) == self@.step(EventView::ImageSaved),
    {
        proof {
            use_type_invariant(&self);
            lemma_step_preserves_wf(self@, EventView::ImageSaved);
            assert(self.results.deep_view().len() == self.results.len());
        }
        let notices = if self.verbose {
            one_notice(
                Notice::Downloaded { url: self.results[self.fetched].candidate.image_url.clone() },
            )
        } else {
            no_notice()
        };
        (self.next_download(), notices)
    }

    /// Turns to the next image after the current one could not be stored.
    fn image_lost(self, error: String) -> (out: (Engine, Vec<Notice>))
        requires
            self@.phase == Phase::Storing,
        ensures
            (out.0@, out.1.deep_view()) == self@.step(EventView::ImageWriteFailed(error@)),
    {
        proof {
            use_type_invariant(&self);
            lemma_step_preserves_wf(self@, EventView::ImageWriteFailed(error@));
            assert(self.results.deep_view().len() == self.results.len());
        }
        let link_key = self.results[self.fetched].link_key.clone();
        (self.next_download(), one_notice(Notice::DownloadFailed { link_key, error }))
    }
}

} // verus!
