//! Language codes of ISO 639: the two-letter and three-letter codes of a
//! language, its English name and its autonym, with lookups in both
//! directions over a table that is fixed when the crate is built.
//!
//! A [`Language`] is one record of the overview table. The table and its
//! two reverse indexes are constants ([`table`]), read through a few
//! functions ([`overview`]); what holds of the data is proved record by
//! record ([`facts`]) and summed up in [`invariants`].
//!
//! The lookups state what they return over the table alone: by code and by
//! locale in [`codes`], by name in [`search`], as lists in [`listing`], from
//! text in [`parse`] and [`adapter`]. A code is first looked up with the
//! perfect hash of its index ([`index`]); no contract of a lookup leans on
//! what the hash answers.
//!
//! The [`compiler`] makes the table from the two datasets and writes the
//! source files of [`table`] and [`facts`].

pub mod adapter;
pub mod codes;
pub mod compiler;
pub mod facts;
pub mod index;
pub mod invariants;
pub mod language;
pub mod listing;
pub mod order;
pub mod overview;
pub mod parse;
pub mod render;
pub mod search;
pub mod slices;
pub mod table;
pub mod text;

pub use listing::languages;
pub use parse::ParseLanguageError;
pub use table::Language;
