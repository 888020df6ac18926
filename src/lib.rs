//! Editable model of user-defined custom game entries: each entry names an
//! application and lists the file-path and registry-key patterns that belong
//! to it, with a flag that says whether it takes part in backups.
//!
//! The editor is built from the persisted records, mutated by index-addressed
//! commands that never fail, and written back to the persisted shape.

pub mod config;
pub mod editor;
pub mod entry;
pub mod screen;

pub use config::{Config, CustomGame, GameRecord};
pub use editor::CustomGamesEditor;
pub use entry::{CustomGamesEditorEntry, CustomGamesEditorEntryRow, EntryView, RowKind};
pub use screen::{BulkToggle, CustomGamesScreenComponent, EditAction};
