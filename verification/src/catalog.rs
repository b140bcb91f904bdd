//! Records of the remote catalog, as a search returns them.

use vstd::prelude::*;

verus! {

/// One search result of the remote catalog. A record is not changed once it
/// has been fetched.
#[derive(Clone, Debug, PartialEq, Eq)]
pub struct CandidateRecord {
    /// Identifier of the work in the catalog.
    pub mal_id: u32,
    /// Canonical title.
    pub title: String,
    /// English title, where the catalog has one.
    pub title_english: Option<String>,
    /// Japanese title, where the catalog has one.
    pub title_japanese: Option<String>,
    /// Classification, such as a series or a film.
    pub kind: String,
    /// What the work is adapted from.
    pub source: String,
    /// Number of episodes, where it is known.
    pub episodes: Option<u32>,
    /// Airing status.
    pub status: String,
    /// Start of the airing window; open where absent.
    pub aired_from: Option<String>,
    /// End of the airing window; open where absent.
    pub aired_to: Option<String>,
    /// Length of an episode, as the catalog words it.
    pub duration: String,
    /// Age rating.
    pub rating: String,
    /// Score, carried as the bit pattern of a 64-bit binary fraction.
    pub score: Option<u64>,
    /// Place in the catalog's popularity list.
    pub popularity: u32,
    /// Place in the catalog's ranking by score.
    pub rank: Option<u32>,
    /// Background text.
    pub background: Option<String>,
    /// Season of the first airing.
    pub season: Option<String>,
    /// Year of the first airing.
    pub year: Option<u32>,
    /// Day of the week of the broadcast.
    pub broadcast_day: Option<String>,
    /// Time of day of the broadcast.
    pub broadcast_time: Option<String>,
    /// Names of the producing studios, in the catalog's order.
    pub studios: Vec<String>,
    /// Address of the cover image.
    pub image_url: String,
}

/// The mathematical content of a [`CandidateRecord`].
pub struct CandidateView {
    pub mal_id: u32,
    pub title: Seq<char>,
    pub title_english: Option<Seq<char>>,
    pub title_japanese: Option<Seq<char>>,
    pub kind: Seq<char>,
    pub source: Seq<char>,
    pub episodes: Option<u32>,
    pub status: Seq<char>,
    pub aired_from: Option<Seq<char>>,
    pub aired_to: Option<Seq<char>>,
    pub duration: Seq<char>,
    pub rating: Seq<char>,
    pub score: Option<u64>,
    pub popularity: u32,
    pub rank: Option<u32>,
    pub background: Option<Seq<char>>,
    pub season: Option<Seq<char>>,
    pub year: Option<u32>,
    pub broadcast_day: Option<Seq<char>>,
    pub broadcast_time: Option<Seq<char>>,
    pub studios: Seq<Seq<char>>,
    pub image_url: Seq<char>,
}

impl View for CandidateRecord {
    type V = CandidateView;

    open spec fn view(&self) -> CandidateView {
        CandidateView {
            mal_id: self.mal_id,
            title: self.title@,
            title_english: self.title_english.deep_view(),
            title_japanese: self.title_japanese.deep_view(),
            kind: self.kind@,
            source: self.source@,
            episodes: self.episodes,
            status: self.status@,
            aired_from: self.aired_from.deep_view(),
            aired_to: self.aired_to.deep_view(),
            duration: self.duration@,
            rating: self.rating@,
            score: self.score,
            popularity: self.popularity,
            rank: self.rank,
            background: self.background.deep_view(),
            season: self.season.deep_view(),
            year: self.year,
            broadcast_day: self.broadcast_day.deep_view(),
            broadcast_time: self.broadcast_time.deep_view(),
            studios: self.studios.deep_view(),
            image_url: self.image_url@,
        }
    }
}

impl DeepView for CandidateRecord {
    type V = CandidateView;

    open spec fn deep_view(&self) -> CandidateView {
        self.view()
    }
}

/// The titles of a list of candidates, in the list's order.
pub open spec fn titles_of(candidates: Seq<CandidateView>) -> Seq<Seq<char>> {
    Seq::new(candidates.len(), |i: int| candidates[i].title)
}

/// Copies an optional text.
pub fn copy_text(text: &Option<String>) -> (copy: Option<String>)
    ensures
        copy.deep_view() == text.deep_view(),
{
    match text {
        Some(t) => Some(t.clone()),
        None => None,
    }
}

/// Copies a list of texts.
pub fn copy_texts(texts: &Vec<String>) -> (copy: Vec<String>)
    ensures
        copy.deep_view() == texts.deep_view(),
{
    let mut copy: Vec<String> = Vec::new();
    let mut i: usize = 0;
    while i < texts.len()
        invariant
            i <= texts.len(),
            copy.len() == i,
            forall|j: int| 0 <= j < i ==> copy@[j]@ == texts@[j]@,
        decreases texts.len() - i,
    {
        copy.push(texts[i].clone());
        i = i + 1;
    }
    assert(copy.deep_view() =~= texts.deep_view());
    copy
}

impl CandidateRecord {
    /// Makes a record with the same content.
    pub fn duplicate(&self) -> (copy: CandidateRecord)
        ensures
            copy@ == self@,
    {
        CandidateRecord {
            mal_id: self.mal_id,
            title: self.title.clone(),
            title_english: copy_text(&self.title_english),
            title_japanese: copy_text(&self.title_japanese),
            kind: self.kind.clone(),
            source: self.source.clone(),
            episodes: self.episodes,
            status: self.status.clone(),
            aired_from: copy_text(&self.aired_from),
            aired_to: copy_text(&self.aired_to),
            duration: self.duration.clone(),
            rating: self.rating.clone(),
            score: self.score,
            popularity: self.popularity,
            rank: self.rank,
            background: copy_text(&self.background),
            season: copy_text(&self.season),
            year: self.year,
            broadcast_day: copy_text(&self.broadcast_day),
            broadcast_time: copy_text(&self.broadcast_time),
            studios: copy_texts(&self.studios),
            image_url: self.image_url.clone(),
        }
    }
}

/// Lists the titles of the candidates, in their order.
pub fn candidate_titles(candidates: &Vec<CandidateRecord>) -> (titles: Vec<String>)
    ensures
        titles.deep_view() == titles_of(candidates.deep_view()),
{
    let mut titles: Vec<String> = Vec::new();
    let mut i: usize = 0;
    while i < candidates.len()
        invariant
            i <= candidates.len(),
            titles.len() == i,
            forall|j: int| 0 <= j < i ==> titles@[j]@ == candidates@[j].title@,
        decreases candidates.len() - i,
    {
        titles.push(candidates[i].title.clone());
        i = i + 1;
    }
    assert(titles.deep_view() =~= titles_of(candidates.deep_view()));
    titles
}

} // verus!
