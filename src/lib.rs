//! Reconstruction of readable text from the content streams of PDF pages,
//! and the reading of VIAC bank statements from that text.

pub mod outside;
pub mod decoder;
pub mod registry;
pub mod state;
pub mod assemble;

pub mod lines;
pub mod date;
pub mod money;
pub mod options;
pub mod statement;
pub mod document;
pub mod summary;
pub mod records;
