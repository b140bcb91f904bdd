use ani_cli::catalog::{candidate_titles, copy_text, copy_texts, CandidateRecord};
use ani_cli::store::{make_record, StoredAnimeRecord, DEFAULT_EPISODES};

fn store_candidate() -> CandidateRecord {
    CandidateRecord {
        mal_id: 41467,
        title: String::from("Bleach: Sennen Kessen-hen"),
        title_english: Some(String::from("Bleach: Thousand-Year Blood War")),
        title_japanese: Some(String::from("BLEACH 千年血戦篇")),
        kind: String::from("TV"),
        source: String::from("Manga"),
        episodes: Some(13),
        status: String::from("Finished Airing"),
        aired_from: Some(String::from("2022-10-11T00:00:00+00:00")),
        aired_to: None,
        duration: String::from("24 min per ep"),
        rating: String::from("R - 17+ (violence & profanity)"),
        score: Some(9.0f64.to_bits()),
        popularity: 432,
        rank: Some(12),
        background: None,
        season: Some(String::from("fall")),
        year: Some(2022),
        broadcast_day: Some(String::from("Tuesdays")),
        broadcast_time: Some(String::from("00:00")),
        studios: vec![String::from("Pierrot"), String::from("Another")],
        image_url: String::from("https://cdn.example/bleach.webp"),
    }
}

#[test]
fn row_flattens_the_candidate() {
    let candidate = store_candidate();
    let row = make_record("Bleach", &candidate);
    let expected = StoredAnimeRecord {
        mal_id: 41467,
        link_key: String::from("Bleach"),
        title: String::from("Bleach: Sennen Kessen-hen"),
        title_english: Some(String::from("Bleach: Thousand-Year Blood War")),
        title_japanese: Some(String::from("BLEACH 千年血戦篇")),
        kind: String::from("TV"),
        source: String::from("Manga"),
        episodes: 13,
        status: String::from("Finished Airing"),
        aired_from: Some(String::from("2022-10-11T00:00:00+00:00")),
        aired_to: None,
        duration: String::from("24 min per ep"),
        rating: String::from("R - 17+ (violence & profanity)"),
        score: Some(9.0f64.to_bits()),
        popularity: 432,
        rank: Some(12),
        background: None,
        season: Some(String::from("fall")),
        year: Some(2022),
        broadcast_day: Some(String::from("Tuesdays")),
        broadcast_time: Some(String::from("00:00")),
        studio: Some(String::from("Pierrot")),
    };
    assert_eq!(row, expected);
}

#[test]
fn row_counts_one_episode_where_the_catalog_counts_none() {
    let mut candidate = store_candidate();
    candidate.episodes = None;
    assert_eq!(DEFAULT_EPISODES, 1);
    assert_eq!(make_record("Bleach", &candidate).episodes, 1);
    candidate.episodes = Some(0);
    assert_eq!(make_record("Bleach", &candidate).episodes, 0);
}

#[test]
fn row_names_the_first_studio_only() {
    let mut candidate = store_candidate();
    assert_eq!(make_record("Bleach", &candidate).studio, Some(String::from("Pierrot")));
    candidate.studios = Vec::new();
    assert_eq!(make_record("Bleach", &candidate).studio, None);
}

#[test]
fn row_is_a_function_of_link_key_and_candidate() {
    let candidate = store_candidate();
    assert_eq!(make_record("Bleach", &candidate), make_record("Bleach", &candidate.duplicate()));
    assert_ne!(make_record("Bleach", &candidate), make_record("bleach", &candidate));
    assert_eq!(make_record("x", &candidate).score.map(f64::from_bits), Some(9.0));
}

#[test]
fn duplicate_keeps_every_field() {
    let candidate = store_candidate();
    assert_eq!(candidate.duplicate(), candidate);
}

#[test]
fn copies_keep_the_texts() {
    assert_eq!(copy_text(&None), None);
    assert_eq!(copy_text(&Some(String::from("a"))), Some(String::from("a")));
    assert_eq!(copy_texts(&vec![String::from("a"), String::from("b")]), vec!["a", "b"]);
    assert_eq!(copy_texts(&Vec::new()), Vec::<String>::new());
}

#[test]
fn titles_are_listed_in_order() {
    let mut second = store_candidate();
    second.title = String::from("Bleach");
    assert_eq!(
        candidate_titles(&vec![store_candidate(), second]),
        vec!["Bleach: Sennen Kessen-hen", "Bleach"]
    );
    assert_eq!(candidate_titles(&Vec::new()), Vec::<String>::new());
}
