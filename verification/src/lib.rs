//! Verified core of the Explora desktop file explorer: opaque references,
//! preferences, SSH target records, filesystem-action planning and the
//! availability rules of synced folders.

pub mod text;
pub mod filesystem;
pub mod ids;
pub mod registry;
pub mod gio;
pub mod gio_roots;
pub mod synced_availability;
pub mod preferences;
pub mod config_text;
pub mod ssh_targets;
pub mod file_operations;
pub mod paths;
pub mod local_filesystem;
pub mod manual_synced_folders;
pub mod native_open;
pub mod content_request;
pub mod ssh;
pub mod platform_trash;
pub mod ssh_status;
pub mod listings;
pub mod operation_plans;
pub mod transfer_checks;
pub mod ssh_session;
pub mod entries;
pub mod local_listing;
pub mod remote_artifact;
pub mod ssh_manager;
pub mod connection_steps;
pub mod tree_steps;
pub mod single_steps;
pub mod batch_steps;
pub mod operation_table;
