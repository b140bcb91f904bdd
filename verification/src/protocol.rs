//! What passes between the engine and the code that drives it.
//!
//! The driver performs the [`Action`] that the engine asks for and reports the
//! outcome as an [`Event`]. With each event the engine hands back the
//! [`Notice`]s that are due to the operator.

use crate::catalog::{CandidateRecord, CandidateView};
use crate::store::{StoredAnimeRecord, StoredView};
use vstd::prelude::*;

verus! {

/// Number of candidates asked for when probing for an exact match.
pub const PROBE_LIMIT: u32 = 1;

/// Number of candidates asked for when the operator has to choose.
pub const CHOICE_LIMIT: u32 = 5;

/// Pause after each entry, in milliseconds.
pub const ENTRY_PAUSE_MS: u64 = 1000;

/// Why an attempt to fetch an image failed.
#[derive(Clone, Debug, PartialEq, Eq)]
pub enum FetchFailure {
    /// The server answered with a status other than success.
    Status(u16),
    /// No answer came; the text says why.
    Transport(String),
}

/// The mathematical content of a [`FetchFailure`].
pub enum FailureView {
    Status(u16),
    Transport(Seq<char>),
}

impl View for FetchFailure {
    type V = FailureView;

    open spec fn view(&self) -> FailureView {
        match self {
            FetchFailure::Status(code) => FailureView::Status(*code),
            FetchFailure::Transport(text) => FailureView::Transport(text@),
        }
    }
}

/// Why a run was aborted.
#[derive(Clone, Debug, PartialEq, Eq)]
pub enum RunError {
    /// The local directory could not be read.
    Scan(String),
    /// The store failed to answer or to write.
    Persistence(String),
}

/// The mathematical content of a [`RunError`].
pub enum RunErrorView {
    Scan(Seq<char>),
    Persistence(Seq<char>),
}

impl View for RunError {
    type V = RunErrorView;

    open spec fn view(&self) -> RunErrorView {
        match self {
            RunError::Scan(text) => RunErrorView::Scan(text@),
            RunError::Persistence(text) => RunErrorView::Persistence(text@),
        }
    }
}

impl DeepView for RunError {
    type V = RunErrorView;

    open spec fn deep_view(&self) -> RunErrorView {
        self.view()
    }
}

/// A folder paired with the catalog record that was accepted for it.
#[derive(Clone, Debug, PartialEq, Eq)]
pub struct MatchResult {
    /// The folder name under which the record is stored.
    pub link_key: String,
    /// The record that was chosen.
    pub candidate: CandidateRecord,
}

/// The mathematical content of a [`MatchResult`].
pub struct MatchView {
    pub link_key: Seq<char>,
    pub candidate: CandidateView,
}

impl View for MatchResult {
    type V = MatchView;

    open spec fn view(&self) -> MatchView {
        MatchView { link_key: self.link_key@, candidate: self.candidate@ }
    }
}

impl DeepView for MatchResult {
    type V = MatchView;

    open spec fn deep_view(&self) -> MatchView {
        self.view()
    }
}

/// Counts reported at the end of a run.
#[derive(Clone, Copy, Debug, PartialEq, Eq, Structural)]
pub struct RunSummary {
    /// Folders found in the local directory.
    pub folders: usize,
    /// Folders that were searched for.
    pub searched: usize,
    /// Folders for which a record was accepted and stored.
    pub matched: usize,
}

/// What the driver reports to the engine.
#[derive(Clone, Debug, PartialEq, Eq)]
pub enum Event {
    /// The store was asked for the title linked to a folder.
    TitleLookup(Option<String>),
    /// The store failed; the text says how.
    StoreFailed(String),
    /// A search returned these candidates, most relevant first.
    SearchResults(Vec<CandidateRecord>),
    /// A search failed; the text says how.
    SearchFailed(String),
    /// The operator entered a line.
    OperatorLine(String),
    /// The row was written.
    UpsertDone,
    /// The requested pause is over.
    DelayElapsed,
    /// The image server answered with this status.
    FetchStatus(u16),
    /// The image server could not be reached.
    FetchError(String),
    /// The image file was written.
    ImageSaved,
    /// The image could not be read or written to disk.
    ImageWriteFailed(String),
}

/// The mathematical content of an [`Event`].
pub enum EventView {
    TitleLookup(Option<Seq<char>>),
    StoreFailed(Seq<char>),
    SearchResults(Seq<CandidateView>),
    SearchFailed(Seq<char>),
    OperatorLine(Seq<char>),
    UpsertDone,
    DelayElapsed,
    FetchStatus(u16),
    FetchError(Seq<char>),
    ImageSaved,
    ImageWriteFailed(Seq<char>),
}

impl View for Event {
    type V = EventView;

    open spec fn view(&self) -> EventView {
        match self {
            Event::TitleLookup(title) => EventView::TitleLookup(title.deep_view()),
            Event::StoreFailed(text) => EventView::StoreFailed(text@),
            Event::SearchResults(found) => EventView::SearchResults(found.deep_view()),
            Event::SearchFailed(text) => EventView::SearchFailed(text@),
            Event::OperatorLine(line) => EventView::OperatorLine(line@),
            Event::UpsertDone => EventView::UpsertDone,
            Event::DelayElapsed => EventView::DelayElapsed,
            Event::FetchStatus(code) => EventView::FetchStatus(*code),
            Event::FetchError(text) => EventView::FetchError(text@),
            Event::ImageSaved => EventView::ImageSaved,
            Event::ImageWriteFailed(text) => EventView::ImageWriteFailed(text@),
        }
    }
}

/// What the engine tells the operator.
#[derive(Clone, Debug, PartialEq, Eq)]
pub enum Notice {
    /// A search failed and the entry is skipped.
    SearchFailed { token: String, error: String },
    /// A search found nothing and the entry is skipped.
    EmptyResultSet { token: String },
    /// A record was accepted for the token. Only in verbose runs.
    MatchFound { token: String },
    /// The row of the folder was written. Only in verbose runs.
    Saved { link_key: String },
    /// The operator declined every candidate and the entry is skipped.
    NoAcceptableMatch { token: String },
    /// Every entry has been resolved; the image downloads begin.
    AllSaved,
    /// One attempt to fetch an image failed.
    AttemptFailed { failure: FetchFailure },
    /// Every allowed attempt to fetch the image of the folder failed.
    RetriesExhausted { link_key: String, last: FetchFailure },
    /// The image of the folder was fetched but could not be stored.
    DownloadFailed { link_key: String, error: String },
    /// The image at this address was stored. Only in verbose runs.
    Downloaded { url: String },
    /// The event is not an answer to what the engine asked for.
    Unexpected,
}

/// The mathematical content of a [`Notice`].
pub enum NoticeView {
    SearchFailed { token: Seq<char>, error: Seq<char> },
    EmptyResultSet { token: Seq<char> },
    MatchFound { token: Seq<char> },
    Saved { link_key: Seq<char> },
    NoAcceptableMatch { token: Seq<char> },
    AllSaved,
    AttemptFailed { failure: FailureView },
    RetriesExhausted { link_key: Seq<char>, last: FailureView },
    DownloadFailed { link_key: Seq<char>, error: Seq<char> },
    Downloaded { url: Seq<char> },
    Unexpected,
}

impl View for Notice {
    type V = NoticeView;

    open spec fn view(&self) -> NoticeView {
        match self {
            Notice::SearchFailed { token, error } => NoticeView::SearchFailed {
                token: token@,
                error: error@,
            },
            Notice::EmptyResultSet { token } => NoticeView::EmptyResultSet { token: token@ },
            Notice::MatchFound { token } => NoticeView::MatchFound { token: token@ },
            Notice::Saved { link_key } => NoticeView::Saved { link_key: link_key@ },
            Notice::NoAcceptableMatch { token } => NoticeView::NoAcceptableMatch { token: token@ },
            Notice::AllSaved => NoticeView::AllSaved,
            Notice::AttemptFailed { failure } => NoticeView::AttemptFailed { failure: failure@ },
            Notice::RetriesExhausted { link_key, last } => NoticeView::RetriesExhausted {
                link_key: link_key@,
                last: last@,
            },
            Notice::DownloadFailed { link_key, error } => NoticeView::DownloadFailed {
                link_key: link_key@,
                error: error@,
            },
            Notice::Downloaded { url } => NoticeView::Downloaded { url: url@ },
            Notice::Unexpected => NoticeView::Unexpected,
        }
    }
}

impl DeepView for Notice {
    type V = NoticeView;

    open spec fn deep_view(&self) -> NoticeView {
        self.view()
    }
}

/// What the engine asks the driver to do next.
#[derive(Clone, Debug, PartialEq, Eq)]
pub enum Action {
    /// Ask the store for the title linked to this folder.
    LookupTitle { link_key: String },
    /// Search the catalog for the token, asking for `limit` candidates.
    Search { token: String, limit: u32 },
    /// Show the token and the numbered titles, then read one line. When
    /// `first` is false the list has been shown and only the question is put
    /// again.
    Prompt { token: String, titles: Vec<String>, first: bool },
    /// Write this row to the store.
    Upsert { row: StoredAnimeRecord },
    /// Wait between two entries.
    Pause { millis: u64 },
    /// Fetch the image at this address.
    FetchImage { url: String },
    /// Store the fetched image under this file name.
    SaveImage { file_name: String },
    /// Wait before the next attempt to fetch.
    Backoff { millis: u64 },
    /// The run is complete.
    Finish { summary: RunSummary },
    /// The run is aborted.
    Abort { error: RunError },
}

/// The mathematical content of an [`Action`].
pub enum ActionView {
    LookupTitle { link_key: Seq<char> },
    Search { token: Seq<char>, limit: u32 },
    Prompt { token: Seq<char>, titles: Seq<Seq<char>>, first: bool },
    Upsert { row: StoredView },
    Pause { millis: u64 },
    FetchImage { url: Seq<char> },
    SaveImage { file_name: Seq<char> },
    Backoff { millis: u64 },
    Finish { summary: RunSummary },
    Abort { error: RunErrorView },
}

impl View for Action {
    type V = ActionView;

    open spec fn view(&self) -> ActionView {
        match self {
            Action::LookupTitle { link_key } => ActionView::LookupTitle { link_key: link_key@ },
            Action::Search { token, limit } => ActionView::Search { token: token@, limit: *limit },
            Action::Prompt { token, titles, first } => ActionView::Prompt {
                token: token@,
                titles: titles.deep_view(),
                first: *first,
            },
            Action::Upsert { row } => ActionView::Upsert { row: row@ },
            Action::Pause { millis } => ActionView::Pause { millis: *millis },
            Action::FetchImage { url } => ActionView::FetchImage { url: url@ },
            Action::SaveImage { file_name } => ActionView::SaveImage { file_name: file_name@ },
            Action::Backoff { millis } => ActionView::Backoff { millis: *millis },
            Action::Finish { summary } => ActionView::Finish { summary: *summary },
            Action::Abort { error } => ActionView::Abort { error: error@ },
        }
    }
}

} // verus!
