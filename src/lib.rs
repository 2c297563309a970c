//! A retro text-mode console: a grid of code page 437 bytes driven by
//! keystrokes, with line scrolling, a box-drawing compositor that merges
//! borders into junctions, and a bridge that folds a command's output
//! back into the grid.
pub mod array_store;
pub mod box_drawing;
pub mod codepage;
pub mod computer;
pub mod keys;
pub mod os;
pub mod screen;
pub mod ship_os;
pub mod terminal;
pub mod text;

pub use box_drawing::{BoxStyle, Dimensions};
pub use computer::Computer;
pub use keys::Key;
pub use os::{CommandLine, OS};
pub use ship_os::ShipOS;
pub use terminal::Terminal;
