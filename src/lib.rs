//! Session persistence and file workflow of a small text editor.
//!
//! `EditorState` is the durable session record (the last opened path) with
//! the in-memory contents of the open file; `EditorApp` is the editor
//! session around it. Reading and writing files is left to the caller: the
//! library decodes the bytes of the configuration file, encodes the bytes to
//! write back, and applies the outcome of reading a file to the session.
mod toml_codec;

pub mod editor;
pub mod state;

pub use editor::EditorApp;
pub use state::{ConfigError, EditorState};
