//! From a directory listing to the tokens that are searched for.
//!
//! Only directories count. A folder that the store already links is searched
//! again only in full mode, and then under its stored title. Whatever token is
//! searched for, a match is stored under the folder's own name.

use vstd::prelude::*;

verus! {

/// Extension of the image files, with its dot.
pub const IMAGE_EXTENSION: &'static str = ".webp";

/// One entry of the local directory listing.
#[derive(Clone, Debug, PartialEq, Eq)]
pub struct LocalEntry {
    /// Name of the entry, as the file system gives it.
    pub folder_name: String,
    /// Whether the entry is a directory; plain files are left out.
    pub is_directory: bool,
}

/// The mathematical content of a [`LocalEntry`].
pub struct EntryView {
    pub folder_name: Seq<char>,
    pub is_directory: bool,
}

impl View for LocalEntry {
    type V = EntryView;

    open spec fn view(&self) -> EntryView {
        EntryView { folder_name: self.folder_name@, is_directory: self.is_directory }
    }
}

impl DeepView for LocalEntry {
    type V = EntryView;

    open spec fn deep_view(&self) -> EntryView {
        self.view()
    }
}

/// A token to search the catalog for, and the key a match is stored under.
#[derive(Clone, Debug, PartialEq, Eq)]
pub struct Target {
    /// The text that the catalog is queried with.
    pub token: String,
    /// The folder name that ties a stored row to the file system.
    pub link_key: String,
}

/// The mathematical content of a [`Target`].
pub struct TargetView {
    pub token: Seq<char>,
    pub link_key: Seq<char>,
}

impl View for Target {
    type V = TargetView;

    open spec fn view(&self) -> TargetView {
        TargetView { token: self.token@, link_key: self.link_key@ }
    }
}

impl DeepView for Target {
    type V = TargetView;

    open spec fn deep_view(&self) -> TargetView {
        self.view()
    }
}

/// The names of the directories of a listing, in the listing's order.
pub open spec fn folder_names(entries: Seq<EntryView>) -> Seq<Seq<char>>
    decreases entries.len(),
{
    if entries.len() == 0 {
        Seq::empty()
    } else if entries.last().is_directory {
        folder_names(entries.drop_last()).push(entries.last().folder_name)
    } else {
        folder_names(entries.drop_last())
    }
}

/// The token searched for a folder: its stored title where the store links
/// it, its own name where not. A linked folder has no token outside full mode.
pub open spec fn target_token(full: bool, folder: Seq<char>, stored_title: Option<Seq<char>>)
    -> Option<Seq<char>> {
    match stored_title {
        Some(title) => if full {
            Some(title)
        } else {
            None
        },
        None => Some(folder),
    }
}

/// The key a match is stored under: the folder's name in full mode, the token
/// itself otherwise.
pub open spec fn link_key_for(full: bool, folder: Seq<char>, token: Seq<char>) -> Seq<char> {
    if full {
        folder
    } else {
        token
    }
}

/// The target of a folder, if it has one.
pub open spec fn target_for(full: bool, folder: Seq<char>, stored_title: Option<Seq<char>>)
    -> Option<TargetView> {
    match target_token(full, folder, stored_title) {
        Some(token) => Some(TargetView { token, link_key: link_key_for(full, folder, token) }),
        None => None,
    }
}

/// The name of the image file of a folder.
pub open spec fn image_name(link_key: Seq<char>) -> Seq<char> {
    link_key + IMAGE_EXTENSION@
}

/// Keeps the directories of a listing and returns their names in order.
pub fn scan_folders(entries: &Vec<LocalEntry>) -> (folders: Vec<String>)
    ensures
        folders.deep_view() == folder_names(entries.deep_view()),
{
    let mut folders: Vec<String> = Vec::new();
    let mut i: usize = 0;
    while i < entries.len()
        invariant
            i <= entries.len(),
            folders.deep_view() == folder_names(entries.deep_view().take(i as int)),
        decreases entries.len() - i,
    {
        proof {
            let upto = entries.deep_view().take(i + 1);
            assert(upto.drop_last() =~= entries.deep_view().take(i as int));
            assert(upto.last() == entries@[i as int]@);
        }
        if entries[i].is_directory {
            let ghost before = folders.deep_view();
            folders.push(entries[i].folder_name.clone());
            assert(folders.deep_view() =~= before.push(entries@[i as int].folder_name@));
        }
        i = i + 1;
    }
    assert(entries.deep_view().take(entries.len() as int) =~= entries.deep_view());
    folders
}

/// Chooses the token to search for a folder, or `None` where the folder is
/// skipped: it is linked already and the run is not a full one.
pub fn choose_target_token(full: bool, folder_name: &str, stored_title: Option<String>) -> (token:
    Option<String>)
    ensures
        token.deep_view() == target_token(full, folder_name@, stored_title.deep_view()),
{
    match stored_title {
        Some(title) => if full {
            Some(title)
        } else {
            None
        },
        None => Some(folder_name.to_owned()),
    }
}

/// Chooses the key under which a match for `token` is stored.
pub fn choose_link_key(full: bool, folder_name: &str, token: &str) -> (link_key: String)
    ensures
        link_key@ == link_key_for(full, folder_name@, token@),
{
    if full {
        folder_name.to_owned()
    } else {
        token.to_owned()
    }
}

/// Names the image file of a folder: the link key followed by the extension.
pub fn image_file_name(link_key: &str) -> (name: String)
    ensures
        name@ == image_name(link_key@),
{
    let mut name: String = link_key.to_owned();
    name.append(IMAGE_EXTENSION);
    name
}

/// Whatever token is searched for, a match is stored under the folder's name.
pub proof fn lemma_link_key_is_folder_name(
    full: bool,
    folder: Seq<char>,
    stored_title: Option<Seq<char>>,
)
    ensures
        target_for(full, folder, stored_title) matches Some(target) ==> target.link_key == folder,
{
}

/// Outside full mode a linked folder is skipped, and an unlinked one is
/// searched for under its own name.
pub proof fn lemma_incremental_targets(folder: Seq<char>, stored_title: Option<Seq<char>>)
    ensures
        stored_title is Some ==> target_for(false, folder, stored_title) is None,
        stored_title is None ==> target_for(false, folder, stored_title) == Some(
            TargetView { token: folder, link_key: folder },
        ),
{
}

/// In full mode every folder has a target, whose token is the stored title
/// where there is one.
pub proof fn lemma_full_targets(folder: Seq<char>, stored_title: Option<Seq<char>>)
    ensures
        target_for(true, folder, stored_title) == Some(
            TargetView {
                token: match stored_title {
                    Some(title) => title,
                    None => folder,
                },
                link_key: folder,
            },
        ),
{
}

} // verus!
