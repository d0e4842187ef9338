//! Terminal output for a pixel renderer: a cell painter that sends only the
//! escape sequences the terminal needs, sixel frame handling, the parser of
//! the terminal's graphics report, and the integer side of window geometry.

pub mod ansi;
pub mod cli;
pub mod gfx;
pub mod graphics;
pub mod painter;
pub mod sixel;
pub mod window;
