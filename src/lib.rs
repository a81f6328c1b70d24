//! A read-only media catalog built from a directory tree: one directory per
//! title, with an optional metadata file in each.
pub mod error;
pub mod text;
pub mod name;
pub mod slug;
pub mod movie;
pub mod collection;
pub mod library;
pub mod logger;
