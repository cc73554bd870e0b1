//! Collects the readable contents of a project's files into one structured
//! markdown document: a traversal filter decides which files belong, a
//! classifier separates text from binary content, and a renderer emits one
//! fenced section per file.

pub mod assemble;
pub mod classify;
pub mod filter;
pub mod render;
pub mod tags;
pub mod text;
pub mod transport;
