//! Presentation logic of the terminal UI: key bindings, the palette and
//! styles, text formatting, and what each widget shows. Drawing to the
//! terminal happens at the edge of the program.

pub mod format;
pub mod keymap;
pub mod theme;
pub mod spans;
pub mod panes;
pub mod bars;
pub mod session;
pub mod layout;
