//! Persistence core of a desktop launcher: a registry of files and shortcuts,
//! grouped under categories and kept in a local SQLite store.
//!
//! The store itself is reached through `rusqlite`; everything the library
//! decides on its own (which columns to add, how an item becomes a row and a
//! row an item, which rows are kept, how a path is made absolute) is stated in
//! contracts and proved.

pub mod models;
pub mod sql;
pub mod db;
pub mod utils;
pub mod commands;
pub mod icon;
