//! Publishing pipeline for serialized works on a form-driven novel site:
//! configuration values, HTML scraping helpers, chapter and book state
//! machines, and the ordering rules for chapter files.

pub mod config;
pub mod html;
pub mod site;
pub mod chapter;
pub mod metadata;
pub mod book;
pub mod text;
