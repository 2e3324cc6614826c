//! The verified core of a pinboard, a board on which texts and images are
//! pinned, moved, scaled and turned, and which is kept in a log on disk.
//!
//! The library holds the rules: how a pasted text is classified, which image
//! of a page is taken, what a press and a frame do to the selection, how the
//! log is framed into lines and read back, and which key asks for which
//! command. It reads no file, opens no window and computes with no
//! floating-point number: a number of the board is carried as its bit
//! pattern, and the caller does the arithmetic, the drawing and the I/O.

pub mod board;
pub mod camera;
pub mod command;
pub mod error;
pub mod item;
pub mod reference;
pub mod resolver;
pub mod store;
pub mod text;
