//! A read-only terminal browser for a SQLite database file.
//!
//! The crate holds the navigation state engine of the browser: the table
//! descriptors, the view mode, the cursor with its pagination window, the
//! column highlight and the schema popup flag, together with the pure parts
//! of the data source and of the renderer. Talking to the database and to the
//! terminal is left to the program built around it.

pub mod app;
pub mod batch;
pub mod cell;
pub mod cli;
pub mod colors;
pub mod cursor;
pub mod db;
pub mod error;
pub mod model;
pub mod navigation;
pub mod popup;
pub mod table;
pub mod text;
pub mod ui;
