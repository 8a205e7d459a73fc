//! A personal bookmark store: the collection of saved links, the lookup of a
//! bookmark by id or by fuzzy text, the filters and pages of a listing, and
//! the configuration that says where the collection is kept.

pub mod text;
pub mod errors;
pub mod command_types;
pub mod data;
pub mod config;
pub mod utils;
pub mod listing;
pub mod commands;
