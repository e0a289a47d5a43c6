//! Source emission for a process dumper.
//!
//! An analysis of a running process yields four entity maps: buttons,
//! interfaces, offsets and class schemas. This crate turns them into the text
//! of Rust modules: nested namespaces of constants and enums, indented by a
//! chosen width. It writes no file: the output driver hands back each file's
//! name and text.
//!
//! - [`text`]: numbers in hexadecimal and decimal.
//! - [`ident`]: dialects, and names that can stand in source.
//! - [`formatter`]: the writer of lines and blocks.
//! - [`model`]: the entity maps.
//! - [`source`], [`buttons`], [`interfaces`], [`offsets`], [`schemas`]: the
//!   emitters.
//! - [`output`]: the driver.
//!
//! What a function writes is stated over lines ([`formatter::Line`]): a
//! formatter holds the lines written so far, and its text is their layout.

pub mod buttons;
pub mod formatter;
pub mod ident;
pub mod interfaces;
pub mod model;
pub mod offsets;
pub mod output;
pub mod schemas;
pub mod source;
pub mod text;
