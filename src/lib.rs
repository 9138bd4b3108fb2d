//! The text model and viewport of a terminal line editor.

pub mod buffer;
pub mod documentstatus;
pub mod editor;
pub mod editorcommand;
pub mod fileinfo;
pub mod line;
pub mod location;
pub mod statusbar;
pub mod terminal;
pub mod uicomponent;
pub mod view;
