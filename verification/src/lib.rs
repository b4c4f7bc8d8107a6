//! A terminal emulator engine: it reads the bytes a child process writes to
//! its terminal, decodes the control functions in them and keeps the screen
//! they describe.

pub mod action;
pub mod buffer;
pub mod cell;
pub mod command;
pub mod decode;
pub mod engine;
pub mod grid;
pub mod input;
pub mod invariants;
pub mod laws;
pub mod palette;
pub mod parser;
pub mod performer;
pub mod renderer;
pub mod screen;
pub mod text;
pub mod text_laws;
pub mod vt;

pub use buffer::TerminalBuffer;
pub use cell::{Cell, CellStyle, Color, Hyperlink, UnderlineStyle};
pub use command::{Charset, Command, CursorStyle, MouseEncoding, MouseMode};
pub use engine::TerminalEngine;
pub use grid::Grid;
pub use input::{InputHandler, Key, KeyEvent, Modifiers};
pub use parser::{AnsiParser, ParseResult};
pub use renderer::{RenderContext, Renderer, ScreenRenderer};
