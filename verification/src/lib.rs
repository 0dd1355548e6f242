//! Directory listing: entry metadata, cell rendering and grid layout.

pub mod entry;
pub mod error;
pub mod filter;
pub mod grid;
pub mod opts;
pub mod style;
pub mod text;
pub mod view;
