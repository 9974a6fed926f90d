//! Named text transformations: case conversion, space and vowel removal,
//! reversal, slugs, and CSV rendered as a bordered table.

pub mod error;
pub mod ops;
pub mod slugs;
pub mod table;
pub mod text;
