//! Export of a Grafana server's organizations, datasources and dashboards
//! to a tree of JSON files.
//!
//! The library decides what is requested, how each reply is read, which
//! errors abort the run and where each object is written. Sending the
//! requests and touching the disk is left to the caller.
mod client;
mod error;
mod index;
mod json;
mod listing;
mod pipeline;
mod reply;
mod sanitize;

pub use client::{
    lemma_alike_names_share_a_file, lemma_uid_map_entries_have_uid, target_paths, Call, ClientInfo, Method, SaveTarget,
};
pub use error::ExportError;
pub use index::{contains_key, insert_first, lemma_first_wins};
pub use listing::{lemma_missing_uid_left_out, lemma_orgs_first_name_wins, orgs_from_entries, uid_index, OrgEntry};
pub use pipeline::{Action, Event, Export, Stage};
pub use reply::{failure, read_reply, Reply};
pub use sanitize::{lemma_sanitize_idempotent, sanitize_names, strip_quotes};
