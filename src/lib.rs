//! A small, language-neutral model of program structure (modules, types, functions,
//! constants and imports) together with a text-layout engine and renderers that turn
//! the model into source text for a target syntax.
pub mod error;
pub mod language;
pub mod text;
pub mod model;
pub mod writer;
