//! A chat-room bot that watches for a trigger phrase in room notices and, when
//! one appears, verifies that a set of remote files still match published
//! checksums, then posts the result back to the room.
//!
//! This crate holds the verified core: the event-matching rules, the
//! poll/react/persist state machine with its retry policy, the request and
//! message encoders, and the checksum-comparison logic. The surrounding
//! process (HTTP, disk, clocks) drives this core from outside.

pub mod checksums;
pub mod errors;
pub mod events;
pub mod json;
pub mod requests;
pub mod storage;
pub mod sync_loop;
pub mod text;

pub use checksums::ChangeSet;
pub use checksums::Repo;
pub use checksums::all_observed_match;
pub use checksums::cc_checksums_path;
pub use checksums::checksum_matches;
pub use checksums::mc_cargo_lock_path;
pub use checksums::mc_gkrust_toml_path;
pub use checksums::mc_hack_toml_path;
pub use checksums::mc_workspace_toml_path;
pub use checksums::raw_file_url;
pub use errors::Error;
pub use events::EventBatch;
pub use events::MessageEvent;
pub use events::MessageEventContent;
pub use events::MessageType;
pub use events::RoomEvents;
pub use events::batch_triggers;
pub use events::event_matches;
pub use json::filter_json;
pub use json::json_escape_str;
pub use json::notice_content_json;
pub use requests::parse_request_url;
pub use requests::send_url;
pub use requests::sync_url;
pub use requests::u64_to_dec;
pub use storage::path_join;
pub use storage::sync_token_file_name;
pub use storage::sync_token_path;
pub use sync_loop::Action;
pub use sync_loop::Event;
pub use sync_loop::LoopState;
pub use sync_loop::Phase;
pub use sync_loop::ReactionConfig;
pub use sync_loop::start;
pub use sync_loop::step;
pub use text::str_contains;
pub use text::str_eq;
