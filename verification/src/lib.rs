//! Look a word or a sentence up with a translation provider and lay the
//! answer out as styled lines of text.
//!
//! The crate holds the question and the answer ([`search`]), the providers
//! and how their replies are read ([`translators`]), and the interaction state
//! machine with its renderer ([`app`]). Beneath them stand languages
//! ([`language`]), confidence scores ([`score`]) and styled text ([`text`]).
//!
//! Nothing here reads a key, draws on a terminal or opens a connection: a
//! program around the library does that and hands it plain values.

pub mod app;
pub mod language;
pub mod score;
pub mod search;
pub mod text;
pub mod translators;
pub mod views;
