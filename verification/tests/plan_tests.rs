use ani_cli::plan::{
    choose_link_key, choose_target_token, image_file_name, scan_folders, LocalEntry, IMAGE_EXTENSION,
};

fn plan_entry(name: &str, is_directory: bool) -> LocalEntry {
    LocalEntry { folder_name: String::from(name), is_directory }
}

#[test]
fn scan_keeps_directories_in_order() {
    let entries = vec![
        plan_entry("Naruto", true),
        plan_entry("notes.txt", false),
        plan_entry("Bleach", true),
        plan_entry("cover.webp", false),
        plan_entry("One Piece", true),
    ];
    assert_eq!(scan_folders(&entries), vec!["Naruto", "Bleach", "One Piece"]);
}

#[test]
fn scan_of_nothing_is_nothing() {
    assert_eq!(scan_folders(&Vec::new()), Vec::<String>::new());
    assert_eq!(scan_folders(&vec![plan_entry("a.mkv", false)]), Vec::<String>::new());
}

#[test]
fn scan_keeps_repeated_names() {
    let entries = vec![plan_entry("A", true), plan_entry("A", true)];
    assert_eq!(scan_folders(&entries), vec!["A", "A"]);
}

#[test]
fn unlinked_folder_is_searched_under_its_name() {
    assert_eq!(choose_target_token(false, "Naruto", None), Some(String::from("Naruto")));
    assert_eq!(choose_target_token(true, "Naruto", None), Some(String::from("Naruto")));
}

#[test]
fn linked_folder_is_skipped_outside_full_mode() {
    assert_eq!(choose_target_token(false, "naruto", Some(String::from("Naruto"))), None);
}

#[test]
fn linked_folder_is_searched_under_its_title_in_full_mode() {
    assert_eq!(
        choose_target_token(true, "bleach tybw", Some(String::from("Bleach: Thousand-Year Blood War"))),
        Some(String::from("Bleach: Thousand-Year Blood War"))
    );
}

#[test]
fn link_key_is_the_folder_name_in_full_mode() {
    assert_eq!(choose_link_key(true, "bleach tybw", "Bleach: Thousand-Year Blood War"), "bleach tybw");
    assert_eq!(choose_link_key(true, "Naruto", "Naruto"), "Naruto");
}

#[test]
fn link_key_is_the_token_outside_full_mode() {
    assert_eq!(choose_link_key(false, "Naruto", "Naruto"), "Naruto");
    let token = choose_target_token(false, "Bleach", None).unwrap();
    assert_eq!(choose_link_key(false, "Bleach", &token), "Bleach");
}

#[test]
fn image_file_is_named_after_the_link_key() {
    assert_eq!(IMAGE_EXTENSION, ".webp");
    assert_eq!(image_file_name("Naruto"), "Naruto.webp");
    assert_eq!(image_file_name("One Piece"), "One Piece.webp");
    assert_eq!(image_file_name(""), ".webp");
    assert_eq!(image_file_name("a.b"), "a.b.webp");
}
