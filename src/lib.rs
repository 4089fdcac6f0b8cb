//! A static site generator: markdown files with an optional metadata header
//! become records that are classified, ordered and planned for rendering.
pub mod text;
pub mod config;
pub mod meta;
pub mod fields;
pub mod content;
pub mod render;
pub mod cli;
