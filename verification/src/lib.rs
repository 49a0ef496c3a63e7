//! The part of a file system over Google Drive that stands between the file system and the
//! drive: it remembers the contents that were read, keeps the writes until they are flushed,
//! works out what a file becomes, and knows what to ask of the drive and what its answers mean.
//!
//! - [`drive_facade`]: the operations. An operation that needs the drive comes in steps: one
//!   says what to ask, the next one takes the answer.
//! - [`request`]: what is asked, and what is answered.
//! - [`pending`]: the writes that wait, and what they make of a content.
//! - [`cache`]: the contents that are remembered.
//! - [`listing`], [`query`]: lists that come in pages, and the query that selects files.
//! - [`dummy_file`]: the file in memory that an upload reads.
//! - [`mime`], [`number`], [`secret`], [`text`], [`error`]: types of contents, numbers, the
//!   secret of the application, text, and errors.
//! - [`laws`]: what holds of the operations together.

pub mod cache;
pub mod drive_facade;
pub mod dummy_file;
pub mod error;
pub mod laws;
pub mod listing;
pub mod mime;
pub mod number;
pub mod pending;
pub mod query;
pub mod request;
pub mod secret;
pub mod text;
