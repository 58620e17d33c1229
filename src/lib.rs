//! A short tour of Rust's basic syntax: bindings, shadowing, mutability,
//! constants, the ranges of the integer types, typed and suffixed literals.
//! Each demonstration builds the lines it shows, and the contracts state
//! those lines exactly.

pub mod decimal;
pub mod laws;
pub mod text;
pub mod tour;
