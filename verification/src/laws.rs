//! What holds of every run.
//!
//! A run is a start state and the sequence of events that the driver reports.
//! The laws speak of the state that the run reaches and of the actions that
//! the engine asks for on the way.

use crate::catalog::CandidateView;
use crate::model::{expects, EngineModel, Phase};
use crate::plan::EntryView;
use crate::protocol::{ActionView, EventView, MatchView, NoticeView};
use crate::retry::PolicyModel;
use crate::selection::{selection_of, Selection};
use crate::store::{
    lemma_upsert_all_links, lemma_upsert_all_twice, linked, lookup_allows, stored_row, upsert_all,
    StoredView,
};
use crate::text::same_name;
use vstd::prelude::*;

verus! {

/// The state that a run reaches.
pub open spec fn run(start: EngineModel, events: Seq<EventView>) -> EngineModel
    decreases events.len(),
{
    if events.len() == 0 {
        start
    } else {
        run(start, events.drop_last()).step(events.last()).0
    }
}

/// The actions that the engine asks for in the course of a run: the one of
/// the start state, then one for each event that answered the action before.
pub open spec fn requests(start: EngineModel, events: Seq<EventView>) -> Seq<ActionView>
    decreases events.len(),
{
    if events.len() == 0 {
        seq![start.action()]
    } else {
        let before = run(start, events.drop_last());
        let earlier = requests(start, events.drop_last());
        if expects(before.phase, events.last()) {
            earlier.push(before.step(events.last()).0.action())
        } else {
            earlier
        }
    }
}

/// The number of pauses between entries among the actions.
pub open spec fn pauses(actions: Seq<ActionView>) -> nat
    decreases actions.len(),
{
    if actions.len() == 0 {
        0
    } else if actions.last() is Pause {
        pauses(actions.drop_last()) + 1
    } else {
        pauses(actions.drop_last())
    }
}

/// The rows that the actions ask the store to write, in order.
pub open spec fn writes(actions: Seq<ActionView>) -> Seq<StoredView>
    decreases actions.len(),
{
    if actions.len() == 0 {
        Seq::empty()
    } else {
        match actions.last() {
            ActionView::Upsert { row } => writes(actions.drop_last()).push(row),
            _ => writes(actions.drop_last()),
        }
    }
}

/// The rows of a sequence of matches, in order.
pub open spec fn rows_of(matches: Seq<MatchView>) -> Seq<StoredView> {
    Seq::new(matches.len(), |i: int| stored_row(matches[i].link_key, matches[i].candidate))
}

/// The row that is being written, if one is.
pub open spec fn row_in_flight(state: EngineModel) -> Seq<StoredView> {
    match state.pending {
        Some(found) => seq![stored_row(found.link_key, found.candidate)],
        None => Seq::empty(),
    }
}

/// Whether every title lookup of the run is answered as the store allows for
/// the folder that is being scanned.
pub open spec fn lookups_answered_by(
    store: Map<u32, StoredView>,
    start: EngineModel,
    events: Seq<EventView>,
) -> bool
    decreases events.len(),
{
    if events.len() == 0 {
        true
    } else {
        let before = run(start, events.drop_last());
        &&& lookups_answered_by(store, start, events.drop_last())
        &&& (before.phase == Phase::Scanning ==> (events.last() matches EventView::TitleLookup(
            title,
        ) ==> lookup_allows(store, before.folders[before.scanned as int], title)))
    }
}

/// A run begins in a state that a run can be in.
pub proof fn lemma_start_wf(
    full: bool,
    verbose: bool,
    policy: PolicyModel,
    listing: Result<Seq<EntryView>, Seq<char>>,
)
    requires
        policy.valid(),
    ensures
        EngineModel::start(full, verbose, policy, listing).0.wf(),
{
}

/// Every event leads from a state that a run can be in to another such state.
pub proof fn lemma_step_preserves_wf(state: EngineModel, event: EventView)
    requires
        state.wf(),
    ensures
        state.step(event).0.wf(),
{
    if expects(state.phase, event) {
        match event {
            EventView::TitleLookup(title) => {
                let folder = state.folders[state.scanned as int];
                assert(state.folders.contains(folder));
            },
            _ => {},
        }
    }
}

/// Every run stays within the states that a run can be in.
pub proof fn lemma_run_wf(start: EngineModel, events: Seq<EventView>)
    requires
        start.wf(),
    ensures
        run(start, events).wf(),
    decreases events.len(),
{
    if events.len() > 0 {
        lemma_run_wf(start, events.drop_last());
        lemma_step_preserves_wf(run(start, events.drop_last()), events.last());
    }
}

/// Fast path: when the probe's best candidate has the token's normalised
/// name, it is accepted at once. The engine asks for the row to be written;
/// no wider search is made and the operator is not asked.
pub proof fn lemma_fast_path(state: EngineModel, found: Seq<CandidateView>)
    requires
        state.wf(),
        state.phase == Phase::Probing,
        found.len() > 0,
        same_name(state.token(), found[0].title),
    ensures
        state.step(EventView::SearchResults(found)).0.phase == Phase::Persisting,
        state.step(EventView::SearchResults(found)).0.pending == Some(
            MatchView { link_key: state.link_key(), candidate: found[0] },
        ),
        state.step(EventView::SearchResults(found)).0.action() == (ActionView::Upsert {
            row: stored_row(state.link_key(), found[0]),
        }),
{
}

/// The operator is asked only after a wider search, and a wider search is
/// made only after a probe whose best candidate was no exact match.
pub proof fn lemma_prompt_follows_mismatch(state: EngineModel, event: EventView)
    requires
        state.wf(),
    ensures
        state.step(event).0.phase == Phase::Prompting ==> (state.phase == Phase::Widening
            || state.phase == Phase::Prompting) && state.step(event).0.resolved == state.resolved,
        state.step(event).0.phase == Phase::Widening ==> state.step(event).0.resolved
            == state.resolved && (state.phase == Phase::Widening || (state.phase == Phase::Probing
            && (event matches EventView::SearchResults(found) && found.len() > 0 && !same_name(
            state.token(),
            found[0].title,
        )))),
{
}

/// An answer that is no valid selection changes nothing but that the
/// question has been put: the engine asks again about the same candidates of
/// the same entry.
pub proof fn lemma_invalid_answer_asks_again(state: EngineModel, line: Seq<char>)
    requires
        state.wf(),
        state.phase == Phase::Prompting,
        selection_of(line, state.candidates.len()) == Selection::Retry,
    ensures
        state.step(EventView::OperatorLine(line)) == (
            EngineModel { asked: true, ..state },
            Seq::<NoticeView>::empty(),
        ),
{
}

/// The row that an action asks the store to write, if it asks for one.
pub open spec fn row_asked(action: ActionView) -> Seq<StoredView> {
    match action {
        ActionView::Upsert { row } => seq![row],
        _ => Seq::empty(),
    }
}

/// The pauses of a sequence of actions with one more action.
proof fn lemma_pauses_push(actions: Seq<ActionView>, action: ActionView)
    ensures
        pauses(actions.push(action)) == pauses(actions) + (if action is Pause {
            1nat
        } else {
            0nat
        }),
{
    assert(actions.push(action).drop_last() =~= actions);
}

/// The writes of a sequence of actions with one more action.
proof fn lemma_writes_push(actions: Seq<ActionView>, action: ActionView)
    ensures
        writes(actions.push(action)) == writes(actions) + row_asked(action),
{
    assert(actions.push(action).drop_last() =~= actions);
    match action {
        ActionView::Upsert { row } => {
            assert(writes(actions).push(row) =~= writes(actions) + seq![row]);
        },
        _ => {
            assert(writes(actions) =~= writes(actions) + Seq::<StoredView>::empty());
        },
    }
}

/// An event that the engine accepts brings a pause exactly when it decides
/// an entry, and a write exactly when it accepts a match.
proof fn lemma_step_counts(state: EngineModel, event: EventView)
    requires
        state.wf(),
        expects(state.phase, event),
    ensures
        state.step(event).0.resolved == state.resolved + (if state.step(event).0.action() is Pause {
            1nat
        } else {
            0nat
        }),
        rows_of(state.step(event).0.results) + row_in_flight(state.step(event).0) == rows_of(
            state.results,
        ) + row_in_flight(state) + row_asked(state.step(event).0.action()),
{
    let next = state.step(event).0;
    let before = rows_of(state.results) + row_in_flight(state);
    if next.phase == Phase::Persisting {
        assert(state.pending is None);
        assert(next.results == state.results);
        assert(row_in_flight(state) =~= Seq::<StoredView>::empty());
        assert(row_asked(next.action()) =~= row_in_flight(next));
        assert(rows_of(next.results) + row_in_flight(next) =~= before + row_asked(next.action()));
    } else if state.phase == Phase::Persisting && event is UpsertDone {
        assert(row_asked(next.action()) =~= Seq::<StoredView>::empty());
        assert(row_in_flight(next) =~= Seq::<StoredView>::empty());
        assert(rows_of(next.results) =~= before);
        assert(rows_of(next.results) + row_in_flight(next) =~= before + row_asked(next.action()));
    } else {
        assert(next.results == state.results);
        assert(next.pending == state.pending);
        assert(row_asked(next.action()) =~= Seq::<StoredView>::empty());
        assert(rows_of(next.results) + row_in_flight(next) =~= before + row_asked(next.action()));
    }
}

/// One pause per entry: at every moment of a run the engine has asked for as
/// many pauses between entries as there are entries whose outcome is decided,
/// whatever the outcome was.
pub proof fn lemma_one_pause_per_entry(
    full: bool,
    verbose: bool,
    policy: PolicyModel,
    listing: Result<Seq<EntryView>, Seq<char>>,
    events: Seq<EventView>,
)
    requires
        policy.valid(),
    ensures
        ({
            let start = EngineModel::start(full, verbose, policy, listing).0;
            let end = run(start, events);
            &&& pauses(requests(start, events)) == end.resolved
            &&& end.phase == Phase::Done ==> pauses(requests(start, events)) == end.targets.len()
        }),
    decreases events.len(),
{
    let start = EngineModel::start(full, verbose, policy, listing).0;
    lemma_start_wf(full, verbose, policy, listing);
    lemma_run_wf(start, events);
    if events.len() == 0 {
        lemma_pauses_push(Seq::empty(), start.action());
        assert(Seq::<ActionView>::empty().push(start.action()) =~= seq![start.action()]);
    } else {
        let before = run(start, events.drop_last());
        let earlier = requests(start, events.drop_last());
        lemma_one_pause_per_entry(full, verbose, policy, listing, events.drop_last());
        lemma_run_wf(start, events.drop_last());
        if expects(before.phase, events.last()) {
            lemma_step_counts(before, events.last());
            lemma_pauses_push(earlier, before.step(events.last()).0.action());
        }
    }
}

/// One write per accepted match: at every moment of a run the rows that the
/// engine has asked the store to write are the rows of the accepted matches,
/// in the order of their acceptance, followed by the row that is being
/// written, if one is.
pub proof fn lemma_one_write_per_match(
    full: bool,
    verbose: bool,
    policy: PolicyModel,
    listing: Result<Seq<EntryView>, Seq<char>>,
    events: Seq<EventView>,
)
    requires
        policy.valid(),
    ensures
        ({
            let start = EngineModel::start(full, verbose, policy, listing).0;
            let end = run(start, events);
            writes(requests(start, events)) == rows_of(end.results) + row_in_flight(end)
        }),
    decreases events.len(),
{
    let start = EngineModel::start(full, verbose, policy, listing).0;
    lemma_start_wf(full, verbose, policy, listing);
    lemma_run_wf(start, events);
    if events.len() == 0 {
        lemma_writes_push(Seq::empty(), start.action());
        assert(Seq::<ActionView>::empty().push(start.action()) =~= seq![start.action()]);
        assert(rows_of(start.results) + row_in_flight(start) =~= Seq::<StoredView>::empty());
        assert(writes(Seq::<ActionView>::empty()) + row_asked(start.action())
            =~= Seq::<StoredView>::empty());
    } else {
        let before = run(start, events.drop_last());
        let earlier = requests(start, events.drop_last());
        lemma_one_write_per_match(full, verbose, policy, listing, events.drop_last());
        lemma_run_wf(start, events.drop_last());
        if expects(before.phase, events.last()) {
            lemma_step_counts(before, events.last());
            lemma_writes_push(earlier, before.step(events.last()).0.action());
        }
    }
}

/// Downloads come last: once the engine has turned to the images, every
/// target is decided, no row is being written, and no event changes the
/// accepted matches or leads back to a search or a write.
pub proof fn lemma_downloads_follow_writes(state: EngineModel, event: EventView)
    requires
        state.wf(),
        state.downloading() || state.phase == Phase::Done,
    ensures
        state.resolved == state.targets.len(),
        state.pending is None,
        state.step(event).0.results == state.results,
        state.step(event).0.downloading() || state.step(event).0.phase == Phase::Done,
{
}

/// The setting of a run does not change in its course.
pub proof fn lemma_run_keeps_setting(start: EngineModel, events: Seq<EventView>)
    ensures
        run(start, events).full == start.full,
        run(start, events).verbose == start.verbose,
        run(start, events).policy == start.policy,
        run(start, events).folders == start.folders,
    decreases events.len(),
{
    if events.len() > 0 {
        lemma_run_keeps_setting(start, events.drop_last());
    }
}

/// In full mode every folder is searched for, and a match is stored under
/// the folder's own name whatever token was searched for.
pub proof fn lemma_full_mode_searches_every_folder(state: EngineModel, i: int)
    requires
        state.wf(),
        state.full,
        0 <= i < state.scanned,
    ensures
        i < state.targets.len(),
        state.targets[i].link_key == state.folders[i],
{
}

/// Outside full mode every target is searched for under the name of its
/// folder, and every accepted match is stored under the name of a folder.
pub proof fn lemma_link_keys_are_folder_names(state: EngineModel, i: int)
    requires
        state.wf(),
    ensures
        0 <= i < state.targets.len() ==> state.folders.contains(state.targets[i].link_key),
        0 <= i < state.targets.len() && !state.full ==> state.targets[i].token
            == state.targets[i].link_key,
        0 <= i < state.results.len() ==> state.folders.contains(state.results[i].link_key),
{
}

/// Idempotence of the incremental run: when the store links every folder of
/// the listing, a run outside full mode whose lookups the store answers plans
/// no target, accepts no match and asks for no row to be written.
pub proof fn lemma_incremental_rerun_writes_nothing(
    store: Map<u32, StoredView>,
    verbose: bool,
    policy: PolicyModel,
    listing: Result<Seq<EntryView>, Seq<char>>,
    events: Seq<EventView>,
)
    requires
        policy.valid(),
        forall|i: int|
            0 <= i < EngineModel::start(false, verbose, policy, listing).0.folders.len()
                ==> linked(
                store,
                #[trigger] EngineModel::start(false, verbose, policy, listing).0.folders[i],
            ),
        lookups_answered_by(
            store,
            EngineModel::start(false, verbose, policy, listing).0,
            events,
        ),
    ensures
        ({
            let start = EngineModel::start(false, verbose, policy, listing).0;
            let end = run(start, events);
            &&& end.targets.len() == 0
            &&& end.results.len() == 0
            &&& writes(requests(start, events)).len() == 0
        }),
    decreases events.len(),
{
    let start = EngineModel::start(false, verbose, policy, listing).0;
    let end = run(start, events);
    lemma_start_wf(false, verbose, policy, listing);
    lemma_run_wf(start, events);
    lemma_one_write_per_match(false, verbose, policy, listing, events);
    if events.len() > 0 {
        let before = run(start, events.drop_last());
        lemma_incremental_rerun_writes_nothing(
            store,
            verbose,
            policy,
            listing,
            events.drop_last(),
        );
        lemma_run_wf(start, events.drop_last());
        lemma_run_keeps_setting(start, events.drop_last());
        if before.phase == Phase::Scanning {
            assert(linked(store, start.folders[before.scanned as int]));
        }
    }
}

/// Whether the rows of the matches leave the folder linked: some match
/// carries the folder's name, and no later match carries the same catalog
/// identifier.
pub open spec fn keeps_link(matches: Seq<MatchView>, link_key: Seq<char>) -> bool {
    exists|i: int|
        0 <= i < matches.len() && (#[trigger] matches[i]).link_key == link_key && forall|j: int|
            i < j < matches.len() ==> (#[trigger] matches[j]).candidate.mal_id
                != matches[i].candidate.mal_id
}

/// Idempotence of two runs in a row: when a run outside full mode has
/// accepted a match for every folder, each under a catalog identifier of its
/// own, then a second such run over the same listing, whose lookups the
/// store answers as the first run left it, asks for no row to be written.
pub proof fn lemma_second_run_writes_nothing(
    store: Map<u32, StoredView>,
    policy: PolicyModel,
    listing: Result<Seq<EntryView>, Seq<char>>,
    first_verbose: bool,
    first_events: Seq<EventView>,
    second_verbose: bool,
    second_events: Seq<EventView>,
)
    requires
        policy.valid(),
        run(EngineModel::start(false, first_verbose, policy, listing).0, first_events).phase
            == Phase::Done,
        forall|k: int|
            0 <= k < EngineModel::start(false, first_verbose, policy, listing).0.folders.len()
                ==> keeps_link(
                run(
                    EngineModel::start(false, first_verbose, policy, listing).0,
                    first_events,
                ).results,
                #[trigger] EngineModel::start(false, first_verbose, policy, listing).0.folders[k],
            ),
        lookups_answered_by(
            upsert_all(
                store,
                writes(
                    requests(
                        EngineModel::start(false, first_verbose, policy, listing).0,
                        first_events,
                    ),
                ),
            ),
            EngineModel::start(false, second_verbose, policy, listing).0,
            second_events,
        ),
    ensures
        writes(
            requests(EngineModel::start(false, second_verbose, policy, listing).0, second_events),
        ).len() == 0,
{
    let first = EngineModel::start(false, first_verbose, policy, listing).0;
    let second = EngineModel::start(false, second_verbose, policy, listing).0;
    let end = run(first, first_events);
    let rows = writes(requests(first, first_events));
    let after = upsert_all(store, rows);
    lemma_start_wf(false, first_verbose, policy, listing);
    lemma_run_wf(first, first_events);
    lemma_one_write_per_match(false, first_verbose, policy, listing, first_events);
    assert(rows =~= rows_of(end.results));
    assert forall|k: int| 0 <= k < second.folders.len() implies linked(
        after,
        #[trigger] second.folders[k],
    ) by {
        assert(second.folders[k] == first.folders[k]);
        assert(keeps_link(end.results, first.folders[k]));
        let i = choose|i: int|
            0 <= i < end.results.len() && (#[trigger] end.results[i]).link_key == first.folders[k]
                && forall|j: int|
                i < j < end.results.len() ==> (#[trigger] end.results[j]).candidate.mal_id
                    != end.results[i].candidate.mal_id;
        assert forall|j: int| i < j < rows.len() implies (#[trigger] rows[j]).mal_id
            != rows[i].mal_id by {
            assert(end.results[j].candidate.mal_id != end.results[i].candidate.mal_id);
        }
        lemma_upsert_all_links(store, rows, i);
    }
    lemma_incremental_rerun_writes_nothing(after, second_verbose, policy, listing, second_events);
}

/// Stability of a repeated run: when a second run ends with the same accepted
/// matches as the first, it has asked for the same rows to be written, and
/// the store after both runs is the store after the first. In full mode the
/// matches are the same when each folder is given the same candidate again,
/// since the folder's name is the link key whatever token is searched for.
pub proof fn lemma_rerun_reproduces_rows(
    store: Map<u32, StoredView>,
    policy: PolicyModel,
    full: bool,
    first_verbose: bool,
    first_listing: Result<Seq<EntryView>, Seq<char>>,
    first_events: Seq<EventView>,
    second_verbose: bool,
    second_listing: Result<Seq<EntryView>, Seq<char>>,
    second_events: Seq<EventView>,
)
    requires
        policy.valid(),
        run(
            EngineModel::start(full, first_verbose, policy, first_listing).0,
            first_events,
        ).phase == Phase::Done,
        run(
            EngineModel::start(full, second_verbose, policy, second_listing).0,
            second_events,
        ).phase == Phase::Done,
        run(
            EngineModel::start(full, second_verbose, policy, second_listing).0,
            second_events,
        ).results == run(
            EngineModel::start(full, first_verbose, policy, first_listing).0,
            first_events,
        ).results,
    ensures
        ({
            let first = EngineModel::start(full, first_verbose, policy, first_listing).0;
            let second = EngineModel::start(full, second_verbose, policy, second_listing).0;
            let rows = writes(requests(first, first_events));
            &&& writes(requests(second, second_events)) == rows
            &&& upsert_all(upsert_all(store, rows), writes(requests(second, second_events)))
                == upsert_all(store, rows)
        }),
{
    let first = EngineModel::start(full, first_verbose, policy, first_listing).0;
    let second = EngineModel::start(full, second_verbose, policy, second_listing).0;
    lemma_start_wf(full, first_verbose, policy, first_listing);
    lemma_start_wf(full, second_verbose, policy, second_listing);
    lemma_run_wf(first, first_events);
    lemma_run_wf(second, second_events);
    lemma_one_write_per_match(full, first_verbose, policy, first_listing, first_events);
    lemma_one_write_per_match(full, second_verbose, policy, second_listing, second_events);
    lemma_upsert_all_twice(store, writes(requests(first, first_events)));
}

} // verus!
