//! The virtual document: what a component renders, before a renderer turns
//! it into changes of the real document.

pub mod element;
pub mod format;
