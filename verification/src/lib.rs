//! An index of processor instructions, read from a machine description in
//! XML, and the decisions of a language server that answers hover queries
//! from it.

pub mod dispatch;
pub mod document;
pub mod error;
pub mod index;
pub mod instruction;
pub mod markup;
pub mod populate;
pub mod render;
pub mod text;
