//! Entries of Steingass's Persian-English dictionary, from the markup of a
//! page to a normalized record.
//!
//! An entry comes as a fragment of markup. Its parts are selected
//! ([`entry::select_fields`]), its language tag is classified
//! ([`langs::classify`]) and each of its text fields is brought into the
//! canonical form of its kind ([`profiles::canonicalize`]); the record is put
//! together by [`entry::assemble`] and held against the character lists of
//! its fields by [`entry::check_entry`].
//!
//! Canonical form is defined by ordered lists of literal rewrite rules
//! ([`rewrite`]), one list for each kind of field ([`profiles`]).

pub mod charsets;
pub mod defs;
pub mod entry;
pub mod error;
pub mod hw_full;
pub mod hw_lat;
pub mod hw_per;
pub mod langs;
pub mod markup;
pub mod pages;
pub mod profiles;
pub mod render;
pub mod rewrite;
pub mod text;

pub use entry::Entry;
pub use markup::select_results;
pub use pages::{BAD_PAGES, MAX_PAGE, MIN_PAGE};
pub use profiles::clean_simple;
