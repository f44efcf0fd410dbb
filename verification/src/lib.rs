//! Interactive shell-history search: the in-memory pipeline between the
//! history store and the fuzzy selector.

pub mod cli;
pub mod collection;
pub mod filter;
pub mod format;
pub mod history;
pub mod location;
pub mod outside;
pub mod query;
pub mod selection;
pub mod stream;
pub mod text;
pub mod title;
