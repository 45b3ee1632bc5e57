//! The pending request behind the native folder picker.
use vstd::prelude::*;

verus! {

/// A folder pick the user asked for: which peer it fills, the dialog title,
/// and whether the chosen folders are checked right after the pick.
#[derive(Debug, Clone, PartialEq, Eq)]
pub struct PendingFolderPick {
    pub peer_a: bool,
    pub title: String,
    pub check_folders: bool,
}

impl PendingFolderPick {
    pub fn source(check_folders: bool) -> (pick: PendingFolderPick)
        ensures
            pick.peer_a,
            pick.title@ == "Select source folder"@,
            pick.check_folders == check_folders,
    {
        PendingFolderPick { peer_a: true, title: "Select source folder".to_owned(), check_folders }
    }

    pub fn destination(check_folders: bool) -> (pick: PendingFolderPick)
        ensures
            !pick.peer_a,
            pick.title@ == "Select destination folder"@,
            pick.check_folders == check_folders,
    {
        PendingFolderPick { peer_a: false, title: "Select destination folder".to_owned(), check_folders }
    }
}

} // verus!
