//! The reconciliation run as a state machine over mathematical values.
//!
//! A run scans the folders, resolves each target in turn (probe, and where the
//! probe's best candidate is not an exact match, a wider search and a question
//! to the operator), stores each accepted match at once, pauses after every
//! entry, and at last downloads one image per accepted match.

use crate::catalog::{titles_of, CandidateView};
use crate::plan::{folder_names, image_name, target_for, EntryView, TargetView};
use crate::protocol::{
    ActionView, EventView, FailureView, MatchView, NoticeView, RunErrorView, RunSummary,
    CHOICE_LIMIT, ENTRY_PAUSE_MS, PROBE_LIMIT,
};
use crate::retry::{status_is_success, PolicyModel, RetryDecision};
use crate::selection::{selection_of, Selection};
use crate::store::stored_row;
use crate::text::same_name;
use vstd::prelude::*;

verus! {

/// Where a run stands: what the engine has asked for and waits to hear of.
#[derive(Clone, Copy, Debug, PartialEq, Eq, Structural)]
pub enum Phase {
    /// Waiting for the stored title of a folder.
    Scanning,
    /// Waiting for the single best candidate of a target.
    Probing,
    /// Waiting for the candidates to put before the operator.
    Widening,
    /// Waiting for the operator's answer.
    Prompting,
    /// Waiting for the store to write an accepted match.
    Persisting,
    /// Waiting for the pause after an entry to end.
    Pausing,
    /// Waiting for the image server's answer.
    Fetching,
    /// Waiting for the image file to be written.
    Storing,
    /// Waiting before the next attempt to fetch.
    Backoff,
    /// The run is complete.
    Done,
    /// The run was aborted.
    Failed,
}

/// The state of a run.
pub struct EngineModel {
    /// Whether linked folders are searched again.
    pub full: bool,
    /// Whether notices of success are given.
    pub verbose: bool,
    /// The retry policy of the image downloads.
    pub policy: PolicyModel,
    /// The directories found, in the listing's order.
    pub folders: Seq<Seq<char>>,
    pub phase: Phase,
    /// Number of folders whose stored title has been looked up.
    pub scanned: nat,
    /// The targets planned so far, in the folders' order.
    pub targets: Seq<TargetView>,
    /// Number of targets whose outcome is decided.
    pub resolved: nat,
    /// The candidates put before the operator.
    pub candidates: Seq<CandidateView>,
    /// Whether the operator has been asked about these candidates before.
    pub asked: bool,
    /// The match that is being written to the store.
    pub pending: Option<MatchView>,
    /// The matches accepted and stored, in the order of their acceptance.
    pub results: Seq<MatchView>,
    /// Number of matches whose image download has ended.
    pub fetched: nat,
    /// Number of failed attempts to fetch the current image.
    pub failures: nat,
    /// Why the run was aborted.
    pub error: Option<RunErrorView>,
}

/// Whether an event answers what the engine asks for in a phase.
pub open spec fn expects(phase: Phase, event: EventView) -> bool {
    match phase {
        Phase::Scanning => event is TitleLookup || event is StoreFailed,
        Phase::Probing | Phase::Widening => event is SearchResults || event is SearchFailed,
        Phase::Prompting => event is OperatorLine,
        Phase::Persisting => event is UpsertDone || event is StoreFailed,
        Phase::Pausing | Phase::Backoff => event is DelayElapsed,
        Phase::Fetching => event is FetchStatus || event is FetchError,
        Phase::Storing => event is ImageSaved || event is ImageWriteFailed,
        Phase::Done | Phase::Failed => false,
    }
}

impl EngineModel {
    /// The token of the target that is being resolved.
    pub open spec fn token(self) -> Seq<char> {
        self.targets[self.resolved as int].token
    }

    /// The link key of the target that is being resolved.
    pub open spec fn link_key(self) -> Seq<char> {
        self.targets[self.resolved as int].link_key
    }

    /// The match whose image is being downloaded.
    pub open spec fn current(self) -> MatchView {
        self.results[self.fetched as int]
    }

    /// The counts that are reported when the run ends.
    pub open spec fn summary(self) -> RunSummary {
        RunSummary {
            folders: self.folders.len() as usize,
            searched: self.targets.len() as usize,
            matched: self.results.len() as usize,
        }
    }

    /// The state in which a run begins, and the notices due at once. A listing
    /// that could not be read aborts the run before anything is done.
    pub open spec fn start(
        full: bool,
        verbose: bool,
        policy: PolicyModel,
        listing: Result<Seq<EntryView>, Seq<char>>,
    ) -> (EngineModel, Seq<NoticeView>) {
        let blank = EngineModel {
            full,
            verbose,
            policy,
            folders: Seq::empty(),
            phase: Phase::Failed,
            scanned: 0,
            targets: Seq::empty(),
            resolved: 0,
            candidates: Seq::empty(),
            asked: false,
            pending: None,
            results: Seq::empty(),
            fetched: 0,
            failures: 0,
            error: None,
        };
        match listing {
            Err(text) => (
                EngineModel { error: Some(RunErrorView::Scan(text)), ..blank },
                Seq::empty(),
            ),
            Ok(entries) => {
                let folders = folder_names(entries);
                if folders.len() > 0 {
                    (EngineModel { folders, phase: Phase::Scanning, ..blank }, Seq::empty())
                } else {
                    (EngineModel { folders, ..blank }).begin_downloads()
                }
            },
        }
    }

    /// Resolution begins with the first target; without targets the run goes
    /// on to the downloads.
    pub open spec fn begin_resolving(self) -> (EngineModel, Seq<NoticeView>) {
        if self.targets.len() > 0 {
            (EngineModel { phase: Phase::Probing, ..self }, Seq::empty())
        } else {
            self.begin_downloads()
        }
    }

    /// The downloads begin with the first accepted match; without matches the
    /// run is complete.
    pub open spec fn begin_downloads(self) -> (EngineModel, Seq<NoticeView>) {
        let phase = if self.results.len() > 0 {
            Phase::Fetching
        } else {
            Phase::Done
        };
        (EngineModel { phase, ..self }, seq![NoticeView::AllSaved])
    }

    /// A folder's stored title is known: plan its target, if it has one.
    pub open spec fn scan(self, title: Option<Seq<char>>) -> (EngineModel, Seq<NoticeView>) {
        let targets = match target_for(self.full, self.folders[self.scanned as int], title) {
            Some(target) => self.targets.push(target),
            None => self.targets,
        };
        let next = EngineModel { targets, scanned: self.scanned + 1, ..self };
        if next.scanned < next.folders.len() {
            (next, Seq::empty())
        } else {
            next.begin_resolving()
        }
    }

    /// The entry yields no match: pause, then go on.
    pub open spec fn skip(self, notice: NoticeView) -> (EngineModel, Seq<NoticeView>) {
        (
            EngineModel {
                phase: Phase::Pausing,
                resolved: self.resolved + 1,
                candidates: Seq::empty(),
                asked: false,
                ..self
            },
            seq![notice],
        )
    }

    /// A candidate is accepted for the entry: store it at once.
    pub open spec fn accept(self, candidate: CandidateView) -> (EngineModel, Seq<NoticeView>) {
        (
            EngineModel {
                phase: Phase::Persisting,
                pending: Some(MatchView { link_key: self.link_key(), candidate }),
                candidates: Seq::empty(),
                asked: false,
                ..self
            },
            if self.verbose {
                seq![NoticeView::MatchFound { token: self.token() }]
            } else {
                Seq::empty()
            },
        )
    }

    /// The probe returned: accept an exact match, skip on nothing, widen on
    /// anything else.
    pub open spec fn probe(self, found: Seq<CandidateView>) -> (EngineModel, Seq<NoticeView>) {
        if found.len() == 0 {
            self.skip(NoticeView::EmptyResultSet { token: self.token() })
        } else if same_name(found[0].title, self.token()) {
            self.accept(found[0])
        } else {
            (EngineModel { phase: Phase::Widening, ..self }, Seq::empty())
        }
    }

    /// The wider search returned: skip on nothing, else ask the operator.
    pub open spec fn widen(self, found: Seq<CandidateView>) -> (EngineModel, Seq<NoticeView>) {
        if found.len() == 0 {
            self.skip(NoticeView::EmptyResultSet { token: self.token() })
        } else {
            (
                EngineModel { phase: Phase::Prompting, candidates: found, asked: false, ..self },
                Seq::empty(),
            )
        }
    }

    /// The operator answered: accept the pick, skip on a refusal, ask again on
    /// anything else.
    pub open spec fn answer(self, line: Seq<char>) -> (EngineModel, Seq<NoticeView>) {
        match selection_of(line, self.candidates.len()) {
            Selection::Pick(index) => self.accept(self.candidates[index as int]),
            Selection::Decline => self.skip(NoticeView::NoAcceptableMatch { token: self.token() }),
            Selection::Retry => (EngineModel { asked: true, ..self }, Seq::empty()),
        }
    }

    /// The store wrote the pending match: it is accepted for good.
    pub open spec fn persisted(self) -> (EngineModel, Seq<NoticeView>) {
        (
            EngineModel {
                phase: Phase::Pausing,
                resolved: self.resolved + 1,
                results: self.results.push(self.pending->0),
                pending: None,
                ..self
            },
            if self.verbose {
                seq![NoticeView::Saved { link_key: self.pending->0.link_key }]
            } else {
                Seq::empty()
            },
        )
    }

    /// The pause is over: resolve the next target, or begin the downloads.
    pub open spec fn resume(self) -> (EngineModel, Seq<NoticeView>) {
        if self.resolved < self.targets.len() {
            (EngineModel { phase: Phase::Probing, ..self }, Seq::empty())
        } else {
            self.begin_downloads()
        }
    }

    /// The download of the current image has ended: go on to the next.
    pub open spec fn next_download(self) -> EngineModel {
        let fetched = self.fetched + 1;
        let phase = if fetched < self.results.len() {
            Phase::Fetching
        } else {
            Phase::Done
        };
        EngineModel { phase, fetched, failures: 0, ..self }
    }

    /// An attempt to fetch failed: wait and try again, or give the image up.
    pub open spec fn fetch_failed(self, failure: FailureView) -> (EngineModel, Seq<NoticeView>) {
        let failures = self.failures + 1;
        match self.policy.decide(failures) {
            RetryDecision::RetryAfter(_) => (
                EngineModel { phase: Phase::Backoff, failures, ..self },
                seq![NoticeView::AttemptFailed { failure }],
            ),
            RetryDecision::GiveUp => (
                self.next_download(),
                seq![
                    NoticeView::AttemptFailed { failure },
                    NoticeView::RetriesExhausted { link_key: self.current().link_key, last: failure },
                ],
            ),
        }
    }

    /// The store failed: the run is aborted.
    pub open spec fn abort(self, text: Seq<char>) -> (EngineModel, Seq<NoticeView>) {
        (
            EngineModel {
                phase: Phase::Failed,
                error: Some(RunErrorView::Persistence(text)),
                ..self
            },
            Seq::empty(),
        )
    }

    /// The state after an event, and the notices due with it. An event that
    /// does not answer what the engine asked for changes nothing.
    pub open spec fn step(self, event: EventView) -> (EngineModel, Seq<NoticeView>) {
        if !expects(self.phase, event) {
            (self, seq![NoticeView::Unexpected])
        } else {
            match event {
                EventView::TitleLookup(title) => self.scan(title),
                EventView::StoreFailed(text) => self.abort(text),
                EventView::SearchResults(found) => if self.phase == Phase::Probing {
                    self.probe(found)
                } else {
                    self.widen(found)
                },
                EventView::SearchFailed(error) => self.skip(
                    NoticeView::SearchFailed { token: self.token(), error },
                ),
                EventView::OperatorLine(line) => self.answer(line),
                EventView::UpsertDone => self.persisted(),
                EventView::DelayElapsed => if self.phase == Phase::Pausing {
                    self.resume()
                } else {
                    (EngineModel { phase: Phase::Fetching, ..self }, Seq::empty())
                },
                EventView::FetchStatus(code) => if status_is_success(code) {
                    (EngineModel { phase: Phase::Storing, ..self }, Seq::empty())
                } else {
                    self.fetch_failed(FailureView::Status(code))
                },
                EventView::FetchError(text) => self.fetch_failed(FailureView::Transport(text)),
                EventView::ImageSaved => (
                    self.next_download(),
                    if self.verbose {
                        seq![NoticeView::Downloaded { url: self.current().candidate.image_url }]
                    } else {
                        Seq::empty()
                    },
                ),
                EventView::ImageWriteFailed(error) => (
                    self.next_download(),
                    seq![NoticeView::DownloadFailed { link_key: self.current().link_key, error }],
                ),
            }
        }
    }

    /// What the engine asks the driver to do in this state.
    pub open spec fn action(self) -> ActionView {
        match self.phase {
            Phase::Scanning => ActionView::LookupTitle {
                link_key: self.folders[self.scanned as int],
            },
            Phase::Probing => ActionView::Search { token: self.token(), limit: PROBE_LIMIT },
            Phase::Widening => ActionView::Search { token: self.token(), limit: CHOICE_LIMIT },
            Phase::Prompting => ActionView::Prompt {
                token: self.token(),
                titles: titles_of(self.candidates),
                first: !self.asked,
            },
            Phase::Persisting => ActionView::Upsert {
                row: stored_row(self.pending->0.link_key, self.pending->0.candidate),
            },
            Phase::Pausing => ActionView::Pause { millis: ENTRY_PAUSE_MS },
            Phase::Fetching => ActionView::FetchImage { url: self.current().candidate.image_url },
            Phase::Storing => ActionView::SaveImage {
                file_name: image_name(self.current().link_key),
            },
            Phase::Backoff => ActionView::Backoff {
                millis: self.policy.delay_before(self.failures + 1) as u64,
            },
            Phase::Done => ActionView::Finish { summary: self.summary() },
            Phase::Failed => ActionView::Abort { error: self.error->0 },
        }
    }

    /// Whether the phase belongs to the resolution of a target.
    pub open spec fn resolving(self) -> bool {
        self.phase == Phase::Probing || self.phase == Phase::Widening || self.phase
            == Phase::Prompting || self.phase == Phase::Persisting
    }

    /// Whether the phase belongs to the download of an image.
    pub open spec fn downloading(self) -> bool {
        self.phase == Phase::Fetching || self.phase == Phase::Storing || self.phase
            == Phase::Backoff
    }

    /// The states that a run can be in.
    pub open spec fn wf(self) -> bool {
        &&& self.policy.valid()
        &&& self.scanned <= self.folders.len()
        &&& self.targets.len() <= self.scanned
        &&& self.resolved <= self.targets.len()
        &&& self.results.len() <= self.resolved
        &&& self.fetched <= self.results.len()
        &&& self.failures < self.policy.max_attempts
        &&& forall|i: int|
            0 <= i < self.targets.len() ==> self.folders.contains(
                (#[trigger] self.targets[i]).link_key,
            )
        &&& forall|i: int|
            0 <= i < self.results.len() ==> self.folders.contains(
                (#[trigger] self.results[i]).link_key,
            )
        &&& !self.full ==> forall|i: int|
            0 <= i < self.targets.len() ==> (#[trigger] self.targets[i]).token
                == self.targets[i].link_key
        &&& self.full ==> self.targets.len() == self.scanned && forall|i: int|
            0 <= i < self.targets.len() ==> (#[trigger] self.targets[i]).link_key
                == self.folders[i]
        &&& self.phase == Phase::Prompting ==> self.candidates.len() > 0
        &&& self.phase != Phase::Prompting ==> self.candidates.len() == 0 && !self.asked
        &&& (self.phase == Phase::Failed <==> self.error is Some)
        &&& self.pending is Some ==> self.phase == Phase::Persisting || self.phase == Phase::Failed
        &&& self.pending matches Some(found) ==> self.resolved < self.targets.len()
            && found.link_key == self.link_key()
        &&& self.failures > 0 ==> self.downloading()
        &&& match self.phase {
            Phase::Scanning => self.scanned < self.folders.len() && self.resolved == 0,
            Phase::Probing | Phase::Widening | Phase::Prompting => {
                &&& self.scanned == self.folders.len()
                &&& self.resolved < self.targets.len()
                &&& self.fetched == 0
            },
            Phase::Persisting => {
                &&& self.scanned == self.folders.len()
                &&& self.resolved < self.targets.len()
                &&& self.fetched == 0
                &&& self.pending is Some
            },
            Phase::Pausing => {
                &&& self.scanned == self.folders.len()
                &&& self.resolved >= 1
                &&& self.fetched == 0
            },
            Phase::Fetching | Phase::Storing => {
                &&& self.scanned == self.folders.len()
                &&& self.resolved == self.targets.len()
                &&& self.fetched < self.results.len()
            },
            Phase::Backoff => {
                &&& self.scanned == self.folders.len()
                &&& self.resolved == self.targets.len()
                &&& self.fetched < self.results.len()
                &&& self.failures >= 1
            },
            Phase::Done => {
                &&& self.scanned == self.folders.len()
                &&& self.resolved == self.targets.len()
                &&& self.fetched == self.results.len()
            },
            Phase::Failed => self.fetched == 0,
        }
    }
}

/// Two states with the same parts are the same state.
pub proof fn lemma_same_state(a: EngineModel, b: EngineModel)
    requires
        a.full == b.full,
        a.verbose == b.verbose,
        a.policy == b.policy,
        a.folders =~= b.folders,
        a.phase == b.phase,
        a.scanned == b.scanned,
        a.targets =~= b.targets,
        a.resolved == b.resolved,
        a.candidates =~= b.candidates,
        a.asked == b.asked,
        a.pending == b.pending,
        a.results =~= b.results,
        a.fetched == b.fetched,
        a.failures == b.failures,
        a.error == b.error,
    ensures
        a == b,
{
}

} // verus!
