//! Text-buffer engine of a small editor: a rope-backed character sequence
//! with line/column addressing and a linear undo/redo history.
pub mod buffer;
pub mod config;
pub mod editor;
pub mod error;
pub mod history;
pub mod laws;
pub mod lines;
pub mod rope_text;

pub use buffer::TextBuffer;
pub use config::Theme;
pub use editor::EditorView;
pub use error::BufferError;
