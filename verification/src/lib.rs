//! Editing logic of the Kadent DAW editor: panel layout, grid and ruler
//! layout, piano-roll arithmetic, automation ranges, dialogs, keyboard
//! commands and the decisions taken around the audio and background threads.

pub mod automation;
pub mod background;
pub mod clock;
pub mod dialog;
pub mod edge_drag;
pub mod editor;
pub mod file_name;
pub mod grid;
pub mod keyboard;
pub mod nodes;
pub mod panel;
pub mod piano;
pub mod tracks;

pub use nodes::AddibleNodes;
