//! Labels for the suggestions of the Apex language server, and the steps that
//! put the server's binary in place.
//!
//! A suggestion arrives as a raw label and a kind. `format` turns it into a
//! `CodeLabel`: code for the syntax highlighter, the spans to show, and the
//! range of the shown text that is matched against what the user typed. Text
//! is measured in bytes of UTF-8 throughout.
//!
//! The binary is resolved step by step: the extension says what it needs
//! next, the host does it and hands the answer back.

pub mod extension;
pub mod format;
pub mod format_laws;
pub mod label;
pub mod provision;
pub mod provision_laws;
pub mod strings;
pub mod text;
pub mod text_laws;
