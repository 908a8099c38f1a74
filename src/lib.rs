//! The core of a pluggable application launcher: the schema shared with extension
//! processes, the merge of extension settings into the settings store, the
//! extension catalog, and the search query parser.

pub mod apps;
pub mod manifest;
pub mod platform;
pub mod protocol;
pub mod query;
pub mod reconcile;
pub mod results;
pub mod settings;
pub mod text;
