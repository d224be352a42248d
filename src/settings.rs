use vstd::prelude::*;
use vstd::string::*;

verus! {

/// The user's configuration: provider credentials, the folder-naming
/// pattern, and whether to back up, organise and rename.
#[derive(Clone, Debug, PartialEq, Eq)]
pub struct AppSettings {
    pub spotify_client_id: String,
    pub spotify_client_secret: String,
    pub folder_pattern: String,
    pub backup_before_changes: bool,
    pub organize_files: bool,
    pub rename_files: bool,
}

impl Default for AppSettings {
    /// No credentials, the pattern `{genre}`, backups on, organising and
    /// renaming off.
    fn default() -> (r: Self)
        ensures
            r.spotify_client_id@ == Seq::<char>::empty(),
            r.spotify_client_secret@ == Seq::<char>::empty(),
            r.folder_pattern@ == "{genre}"@,
            r.backup_before_changes,
            !r.organize_files,
            !r.rename_files,
    {
        AppSettings {
            spotify_client_id: String::new(),
            spotify_client_secret: String::new(),
            folder_pattern: String::from_str("{genre}"),
            backup_before_changes: true,
            organize_files: false,
            rename_files: false,
        }
    }
}

} // verus!
