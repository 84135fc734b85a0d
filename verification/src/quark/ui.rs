//! The windows of the editor.

pub mod chunk_editor;
pub mod dialogue_editor;
pub mod entity_view;
pub mod ui;
pub mod ui_callback;
