//! The editor: the state of its windows, without the drawing.

pub mod ui;
