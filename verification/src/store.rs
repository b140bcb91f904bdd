//! Rows of the local store and the contract of its upsert.
//!
//! The store holds at most one row per catalog identifier. An upsert inserts a
//! new row or replaces the whole row that has the same identifier. A folder is
//! linked when some row carries its name as link key.

use crate::catalog::{copy_text, CandidateRecord, CandidateView};
use vstd::prelude::*;

verus! {

/// Number of episodes recorded where the catalog gives none.
pub const DEFAULT_EPISODES: u32 = 1;

/// One row of the local store: a catalog record tied to a folder.
#[derive(Clone, Debug, PartialEq, Eq)]
pub struct StoredAnimeRecord {
    /// Identifier of the work in the catalog; the key of the row.
    pub mal_id: u32,
    /// Name of the folder that the row is linked to.
    pub link_key: String,
    pub title: String,
    pub title_english: Option<String>,
    pub title_japanese: Option<String>,
    pub kind: String,
    pub source: String,
    pub episodes: u32,
    pub status: String,
    pub aired_from: Option<String>,
    pub aired_to: Option<String>,
    pub duration: String,
    pub rating: String,
    pub score: Option<u64>,
    pub popularity: u32,
    pub rank: Option<u32>,
    pub background: Option<String>,
    pub season: Option<String>,
    pub year: Option<u32>,
    pub broadcast_day: Option<String>,
    pub broadcast_time: Option<String>,
    /// Name of the first producing studio, if there is any.
    pub studio: Option<String>,
}

/// The mathematical content of a [`StoredAnimeRecord`].
pub struct StoredView {
    pub mal_id: u32,
    pub link_key: Seq<char>,
    pub title: Seq<char>,
    pub title_english: Option<Seq<char>>,
    pub title_japanese: Option<Seq<char>>,
    pub kind: Seq<char>,
    pub source: Seq<char>,
    pub episodes: u32,
    pub status: Seq<char>,
    pub aired_from: Option<Seq<char>>,
    pub aired_to: Option<Seq<char>>,
    pub duration: Seq<char>,
    pub rating: Seq<char>,
    pub score: Option<u64>,
    pub popularity: u32,
    pub rank: Option<u32>,
    pub background: Option<Seq<char>>,
    pub season: Option<Seq<char>>,
    pub year: Option<u32>,
    pub broadcast_day: Option<Seq<char>>,
    pub broadcast_time: Option<Seq<char>>,
    pub studio: Option<Seq<char>>,
}

impl View for StoredAnimeRecord {
    type V = StoredView;

    open spec fn view(&self) -> StoredView {
        StoredView {
            mal_id: self.mal_id,
            link_key: self.link_key@,
            title: self.title@,
            title_english: self.title_english.deep_view(),
            title_japanese: self.title_japanese.deep_view(),
            kind: self.kind@,
            source: self.source@,
            episodes: self.episodes,
            status: self.status@,
            aired_from: self.aired_from.deep_view(),
            aired_to: self.aired_to.deep_view(),
            duration: self.duration@,
            rating: self.rating@,
            score: self.score,
            popularity: self.popularity,
            rank: self.rank,
            background: self.background.deep_view(),
            season: self.season.deep_view(),
            year: self.year,
            broadcast_day: self.broadcast_day.deep_view(),
            broadcast_time: self.broadcast_time.deep_view(),
            studio: self.studio.deep_view(),
        }
    }
}

impl DeepView for StoredAnimeRecord {
    type V = StoredView;

    open spec fn deep_view(&self) -> StoredView {
        self.view()
    }
}

/// The row that links a folder to a catalog record: every field of the
/// record, one episode where the catalog counts none, and the first studio.
pub open spec fn stored_row(link_key: Seq<char>, candidate: CandidateView) -> StoredView {
    StoredView {
        mal_id: candidate.mal_id,
        link_key,
        title: candidate.title,
        title_english: candidate.title_english,
        title_japanese: candidate.title_japanese,
        kind: candidate.kind,
        source: candidate.source,
        episodes: match candidate.episodes {
            Some(count) => count,
            None => DEFAULT_EPISODES,
        },
        status: candidate.status,
        aired_from: candidate.aired_from,
        aired_to: candidate.aired_to,
        duration: candidate.duration,
        rating: candidate.rating,
        score: candidate.score,
        popularity: candidate.popularity,
        rank: candidate.rank,
        background: candidate.background,
        season: candidate.season,
        year: candidate.year,
        broadcast_day: candidate.broadcast_day,
        broadcast_time: candidate.broadcast_time,
        studio: if candidate.studios.len() > 0 {
            Some(candidate.studios[0])
        } else {
            None
        },
    }
}

/// Builds the row that links the folder `link_key` to `candidate`.
pub fn make_record(link_key: &str, candidate: &CandidateRecord) -> (row: StoredAnimeRecord)
    ensures
        row@ == stored_row(link_key@, candidate@),
{
    let studio: Option<String> = if candidate.studios.len() > 0 {
        Some(candidate.studios[0].clone())
    } else {
        None
    };
    let episodes: u32 = match candidate.episodes {
        Some(count) => count,
        None => DEFAULT_EPISODES,
    };
    StoredAnimeRecord {
        mal_id: candidate.mal_id,
        link_key: link_key.to_owned(),
        title: candidate.title.clone(),
        title_english: copy_text(&candidate.title_english),
        title_japanese: copy_text(&candidate.title_japanese),
        kind: candidate.kind.clone(),
        source: candidate.source.clone(),
        episodes,
        status: candidate.status.clone(),
        aired_from: copy_text(&candidate.aired_from),
        aired_to: copy_text(&candidate.aired_to),
        duration: candidate.duration.clone(),
        rating: candidate.rating.clone(),
        score: candidate.score,
        popularity: candidate.popularity,
        rank: candidate.rank,
        background: copy_text(&candidate.background),
        season: copy_text(&candidate.season),
        year: candidate.year,
        broadcast_day: copy_text(&candidate.broadcast_day),
        broadcast_time: copy_text(&candidate.broadcast_time),
        studio,
    }
}

/// The store after a row has been written: the row stands under its
/// identifier, whole, whatever stood there before.
pub open spec fn upsert(store: Map<u32, StoredView>, row: StoredView) -> Map<u32, StoredView> {
    store.insert(row.mal_id, row)
}

/// The store after a sequence of rows has been written in order.
pub open spec fn upsert_all(store: Map<u32, StoredView>, rows: Seq<StoredView>) -> Map<
    u32,
    StoredView,
>
    decreases rows.len(),
{
    if rows.len() == 0 {
        store
    } else {
        upsert(upsert_all(store, rows.drop_last()), rows.last())
    }
}

/// Whether some row of the store links the folder.
pub open spec fn linked(store: Map<u32, StoredView>, link_key: Seq<char>) -> bool {
    exists|id: u32| #[trigger] store.dom().contains(id) && store[id].link_key == link_key
}

/// Whether the store may answer a lookup of the folder's title in this way:
/// with the title of a row that links the folder, or with nothing where no
/// row does.
pub open spec fn lookup_allows(
    store: Map<u32, StoredView>,
    link_key: Seq<char>,
    answer: Option<Seq<char>>,
) -> bool {
    match answer {
        Some(title) => exists|id: u32| #[trigger]
            store.dom().contains(id) && store[id].link_key == link_key && store[id].title == title,
        None => !linked(store, link_key),
    }
}

/// The last row of a sequence that carries the identifier, if there is one.
pub open spec fn last_row(rows: Seq<StoredView>, id: u32) -> Option<StoredView>
    decreases rows.len(),
{
    if rows.len() == 0 {
        None
    } else if rows.last().mal_id == id {
        Some(rows.last())
    } else {
        last_row(rows.drop_last(), id)
    }
}

/// An upsert replaces the whole row of its identifier and touches no other.
pub proof fn lemma_upsert_replaces_row(store: Map<u32, StoredView>, row: StoredView)
    ensures
        upsert(store, row).dom() == store.dom().insert(row.mal_id),
        upsert(store, row)[row.mal_id] == row,
        forall|id: u32|
            id != row.mal_id && store.dom().contains(id) ==> #[trigger] upsert(store, row)[id]
                == store[id],
{
}

/// Writing the same row twice leaves the store as writing it once.
pub proof fn lemma_upsert_idempotent(store: Map<u32, StoredView>, row: StoredView)
    ensures
        upsert(upsert(store, row), row) == upsert(store, row),
{
    assert(upsert(upsert(store, row), row) =~= upsert(store, row));
}

/// After an upsert the folder of the row is linked.
pub proof fn lemma_upsert_links(store: Map<u32, StoredView>, row: StoredView)
    ensures
        linked(upsert(store, row), row.link_key),
        lookup_allows(upsert(store, row), row.link_key, Some(row.title)),
{
    let after = upsert(store, row);
    assert(after.dom().contains(row.mal_id) && after[row.mal_id].link_key == row.link_key);
}

/// After a sequence of upserts each identifier holds the last row written
/// for it, and what was written for no identifier is as before.
pub proof fn lemma_upsert_all_rows(store: Map<u32, StoredView>, rows: Seq<StoredView>, id: u32)
    ensures
        upsert_all(store, rows).dom().contains(id) <==> store.dom().contains(id) || last_row(
            rows,
            id,
        ) is Some,
        last_row(rows, id) matches Some(row) ==> upsert_all(store, rows)[id] == row,
        last_row(rows, id) is None ==> upsert_all(store, rows)[id] == store[id],
    decreases rows.len(),
{
    if rows.len() > 0 {
        lemma_upsert_all_rows(store, rows.drop_last(), id);
    }
}

/// Writing a sequence of rows a second time changes nothing.
pub proof fn lemma_upsert_all_twice(store: Map<u32, StoredView>, rows: Seq<StoredView>)
    ensures
        upsert_all(upsert_all(store, rows), rows) == upsert_all(store, rows),
{
    let once = upsert_all(store, rows);
    let twice = upsert_all(once, rows);
    assert forall|id: u32| #[trigger] twice.dom().contains(id) == once.dom().contains(id) by {
        lemma_upsert_all_rows(store, rows, id);
        lemma_upsert_all_rows(once, rows, id);
    }
    assert forall|id: u32| twice.dom().contains(id) implies #[trigger] twice[id] == once[id] by {
        lemma_upsert_all_rows(store, rows, id);
        lemma_upsert_all_rows(once, rows, id);
    }
    assert(twice =~= once);
}

/// After a sequence of upserts the folder of a row is linked, unless a later
/// row of the sequence took over its identifier.
pub proof fn lemma_upsert_all_links(store: Map<u32, StoredView>, rows: Seq<StoredView>, i: int)
    requires
        0 <= i < rows.len(),
        forall|j: int| i < j < rows.len() ==> (#[trigger] rows[j]).mal_id != rows[i].mal_id,
    ensures
        linked(upsert_all(store, rows), rows[i].link_key),
    decreases rows.len(),
{
    let after = upsert_all(store, rows);
    let id = rows[i].mal_id;
    if i == rows.len() - 1 {
        assert(after.dom().contains(id) && after[id].link_key == rows[i].link_key);
    } else {
        let front = rows.drop_last();
        assert(rows.last() == rows[rows.len() - 1]);
        assert forall|j: int| i < j < front.len() implies (#[trigger] front[j]).mal_id
            != front[i].mal_id by {
            assert(front[j] == rows[j]);
        }
        lemma_upsert_all_links(store, front, i);
        let before = upsert_all(store, front);
        let witness = choose|w: u32| #[trigger]
            before.dom().contains(w) && before[w].link_key == rows[i].link_key;
        if witness == rows.last().mal_id {
            lemma_upsert_all_rows(store, front, id);
            lemma_row_index(front, i);
            assert(before.dom().contains(id) && before[id] == rows[i]);
            assert(after.dom().contains(id) && after[id].link_key == rows[i].link_key);
        } else {
            assert(after.dom().contains(witness) && after[witness].link_key == rows[i].link_key);
        }
    }
}

/// The last row carrying an identifier is the row at `i` when no later row
/// carries it.
proof fn lemma_row_index(rows: Seq<StoredView>, i: int)
    requires
        0 <= i < rows.len(),
        forall|j: int| i < j < rows.len() ==> (#[trigger] rows[j]).mal_id != rows[i].mal_id,
    ensures
        last_row(rows, rows[i].mal_id) == Some(rows[i]),
    decreases rows.len(),
{
    if i < rows.len() - 1 {
        let front = rows.drop_last();
        assert(rows.last() == rows[rows.len() - 1]);
        assert forall|j: int| i < j < front.len() implies (#[trigger] front[j]).mal_id
            != front[i].mal_id by {
            assert(front[j] == rows[j]);
        }
        lemma_row_index(front, i);
    }
}

} // verus!
