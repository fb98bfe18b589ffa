//! Reader, serializer and deserializer for The Elder Scrolls Online
//! encounter log format, together with a projector that folds the
//! event stream into a live world-state snapshot.

pub mod action_result;
pub mod decimal;
pub mod enums;
pub mod error;
pub mod events;
pub mod fields;
pub mod event_iterator;
pub mod ids;
pub mod laws;
pub mod lists;
pub mod parse_many;
pub mod reader;
pub mod scalars;
pub mod serde_api;
pub mod state;
pub mod strutil;
pub mod tokens;
pub mod unit_state;
