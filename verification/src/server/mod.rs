//! Logic of the web front end: the messages and responses it sends, the store
//! of LCD segments, and the checks on request parameters.

pub mod api;
pub mod encoding;
pub mod messages;
