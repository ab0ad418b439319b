//! A widget that defers building its content until the available size is
//! known, caches the built subtree with its layout, and exposes the
//! subtree's nested overlay under single-writer access.
pub mod geometry;
pub mod shell;
pub mod tree;
pub mod cell;
pub mod widget;
pub mod content;
pub mod responsive;
pub mod overlay;
pub mod laws;
