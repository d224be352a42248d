//! A media-metadata engine: codec dispatch and tag normalisation, directory
//! inventories, duplicate detection, file organisation and backups, and the
//! decisions around metadata suggestion providers.

mod text;
mod paths;
mod model;
mod codec;
mod scanner;
mod duplicates;
mod organizer;
mod provider;
mod settings;

pub use text::{lower_of, trim_of, is_alnum, decimal, digits, replaced, sanitized, kept_char, replace_all, sanitize};

pub use paths::{file_name_of, extension_of, parent_of, joined};

pub use model::{Metadata, AudioFile, MediaError};

pub use codec::{
    TagFormat, TagDialect, NativeYear, RawTag, TagWrite, format_of_ext, format_of_path,
    format_for_extension, format_for_path, present, model_year, decoded, decode_tag,
    planned_write, applied, lemma_write_then_read, lemma_restore_untouched,
};

pub use scanner::{
    supported_list, audio_ext, FileProbe, kept, outcome_metadata, entry_for, FileScanner,
};

pub use duplicates::{
    folded, match_key, keys_of, members, first_with_key, group_at, heads_group, groups_upto,
    duplicate_groups, key_view, lemma_group_members_match, lemma_untagged_never_grouped,
    lemma_all_matching_one_group,
};

pub use organizer::{
    BACKUP_DIR, folder_field, folder_year, expanded, renamed, backup_name, MovePlan, BackupPlan,
    expand_pattern, rename_target, backup_file_name, check_destination, backup_before_write,
    lemma_unknown_genre_folder,
};

pub use provider::{
    Confidence, MetadataResult, TokenCache, fresh_token, cached_token, spotify_expiry,
    beatport_expiry, quoted, spotify_query_text, spotify_query, musicbrainz_query, beatport_query,
    no_match_result, spotify_result, musicbrainz_result, beatport_result, successes,
    collect_results, pick_credential, SpotifyClient, MusicBrainzClient, BeatportClient,
};

pub use settings::AppSettings;
