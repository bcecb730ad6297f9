//! An intermediate language for expressions, statements and types, and
//! backends that lower it to the source text of a target language.

pub mod backends;
pub mod il;
pub mod text;
