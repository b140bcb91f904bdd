use ani_cli::text::{normalize, normalized_eq, titles_match};

#[test]
fn normalize_lowercases_ascii() {
    assert_eq!(normalize("NaRuTo"), "naruto");
    assert_eq!(normalize("naruto"), "naruto");
    assert_eq!(normalize(""), "");
}

#[test]
fn normalize_lowercases_beyond_ascii() {
    assert_eq!(normalize("ÄÖÜ Ünïcode"), "äöü ünïcode");
    assert_eq!(normalize("ΣΊΣΥΦΟΣ"), "ΣΊΣΥΦΟΣ".to_lowercase());
}

#[test]
fn normalize_keeps_what_is_not_a_letter() {
    assert_eq!(normalize("Bleach: Thousand-Year Blood War (2022)"), "bleach: thousand-year blood war (2022)");
}

#[test]
fn titles_match_ignores_case() {
    assert!(titles_match("Naruto", "NARUTO"));
    assert!(titles_match("naruto", "Naruto"));
    assert!(titles_match("", ""));
}

#[test]
fn titles_match_needs_the_whole_title() {
    assert!(!titles_match("Bleach", "Bleach: Thousand-Year Blood War"));
    assert!(!titles_match("Naruto", "Naruto "));
    assert!(!titles_match("Naruto", "Boruto"));
}

#[test]
fn titles_match_is_symmetric_on_samples() {
    let samples = ["Naruto", "NARUTO", "Bleach", "bleach", "One Piece", ""];
    for a in samples {
        for b in samples {
            assert_eq!(titles_match(a, b), titles_match(b, a));
            assert_eq!(titles_match(a, b), a.to_lowercase() == b.to_lowercase());
        }
    }
}

#[test]
fn normalized_eq_compares_texts() {
    assert!(normalized_eq(&String::from("a"), &String::from("a")));
    assert!(!normalized_eq(&String::from("a"), &String::from("A")));
}
