//! Profile and mod-record lifecycle manager for a game-modification workflow.
//!
//! A profile is a named, directory-backed collection of mod records plus one
//! configuration record. This library owns profile identity (slugs), loader
//! resolution, selection state, and the lifecycle rules, stated over an
//! in-memory image of the on-disk layout; the surrounding binary mirrors
//! that image to the filesystem. Nothing here claims atomicity across the
//! directory tree or the selection marker beyond what the filesystem gives
//! one write or rename: the tool is single-user and runs to completion per
//! invocation.

mod command;
mod error;
mod laws;
mod loader;
mod mcmod;
mod slug;
mod store;

pub use command::parse;
pub use command::Command;
pub use command::Op;
pub use command::Subcommands;
pub use command::ViewArgs;
pub use error::message_of;
pub use error::Error;
pub use laws::lemma_add_mod_overwrites;
pub use laws::lemma_create_collision;
pub use laws::lemma_delete_clears_selection;
pub use laws::lemma_failed_create_changes_nothing;
pub use laws::lemma_load_after_create;
pub use laws::lemma_select_by_slug_name;
pub use laws::lemma_select_then_selected;
pub use laws::lemma_vcs_never_affects_success;
pub use loader::clone_opt_string;
pub use loader::determine_loader;
pub use loader::determined_loader;
pub use loader::opt_view;
pub use loader::resolve_loader;
pub use loader::resolved_loader;
pub use loader::version_count;
pub use loader::Config;
pub use loader::ConfigVersions;
pub use loader::ConfigView;
pub use loader::Loader;
pub use loader::VersionsView;
pub use mcmod::DependencyType;
pub use mcmod::Mod;
pub use mcmod::ModView;
pub use slug::is_space;
pub use slug::lemma_slugify_idempotent;
pub use slug::lower_char;
pub use slug::slug_of;
pub use slug::slugify;
pub use store::add_mod_result;
pub use store::add_mod_transition;
pub use store::create_result;
pub use store::create_transition;
pub use store::delete_result;
pub use store::delete_transition;
pub use store::dir_at;
pub use store::dir_index;
pub use store::directory_of;
pub use store::entry_profile;
pub use store::has_dir;
pub use store::has_mod_file;
pub use store::load_result;
pub use store::load_selected_result;
pub use store::mod_file_index;
pub use store::mod_filename;
pub use store::mod_result_view;
pub use store::mod_results;
pub use store::mods_wf;
pub use store::opt_str_view;
pub use store::profile_result_view;
pub use store::put_mod;
pub use store::record_slug_is;
pub use store::select_transition;
pub use store::used_ids_of;
pub use store::selected_is;
pub use store::ConfigFile;
pub use store::ConfigFileView;
pub use store::DirEntry;
pub use store::DirView;
pub use store::ModEntry;
pub use store::ModEntryView;
pub use store::ModFile;
pub use store::ModFileView;
pub use store::Profile;
pub use store::ProfileStore;
pub use store::ProfileView;
pub use store::StoreView;
pub use store::VcsHandle;
