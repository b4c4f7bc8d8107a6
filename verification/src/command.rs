//! The commands a byte stream is decoded into, and that a screen executes.

use vstd::prelude::*;

use crate::cell::{link_view, CellStyle, Color, Hyperlink, HyperlinkView};

verus! {

/// How the cursor is drawn.
#[derive(Debug, Clone, Copy, PartialEq, Eq, Structural, Default)]
pub enum CursorStyle {
    #[default]
    BlinkBlock,
    SteadyBlock,
    BlinkUnderline,
    SteadyUnderline,
    BlinkBar,
    SteadyBar,
}

/// The character set that printed characters are taken from.
#[derive(Debug, Clone, Copy, PartialEq, Eq, Structural, Default)]
pub enum Charset {
    #[default]
    Ascii,
    LineDrawing,
}

/// Which mouse events the child asked to be told of.
#[derive(Debug, Clone, Copy, PartialEq, Eq, Structural, Default)]
pub enum MouseMode {
    #[default]
    Off,
    ReportClick,
    ReportMotion,
    ReportAll,
}

/// How mouse events are encoded.
#[derive(Debug, Clone, Copy, PartialEq, Eq, Structural, Default)]
pub enum MouseEncoding {
    #[default]
    X10,
    Utf8,
    Sgr,
}

/// One decoded control function or printed character.
#[derive(Debug, Clone, PartialEq)]
pub enum Command {
    Print(char),
    Execute(u8),
    MoveCursor(usize, usize),
    MoveCursorRelative(i32, i32),
    ClearScreen,
    ClearLine,
    SetStyle(CellStyle),
    SetForeground(Color),
    SetBackground(Color),
    SaveCursor,
    RestoreCursor,
    ScrollUp(usize),
    ScrollDown(usize),
    InsertLine(usize),
    DeleteLine(usize),
    EraseChars(usize),
    EraseDisplay(u8),
    EraseLine(u8),
    Reset,
    EnterAlternateScreen,
    ExitAlternateScreen,
    SetTitle(String),
    SetCursorStyle(CursorStyle),
    SetBracketedPaste(bool),
    SetCharset(Charset),
    SetTabStop,
    ClearTabStop,
    ClearAllTabStops,
    DeviceAttributeQuery,
    ShowCursor,
    HideCursor,
    SetHyperlink(Option<Hyperlink>),
    SetScrollRegion { top: usize, bottom: usize },
    SetMouseMode(MouseMode),
    InsertChars(usize),
    DeleteChars(usize),
    Bell,
}

/// A command as contracts see it: texts are sequences of characters.
pub enum CommandView {
    Print(char),
    Execute(u8),
    MoveCursor(usize, usize),
    MoveCursorRelative(i32, i32),
    ClearScreen,
    ClearLine,
    SetStyle(CellStyle),
    SetForeground(Color),
    SetBackground(Color),
    SaveCursor,
    RestoreCursor,
    ScrollUp(usize),
    ScrollDown(usize),
    InsertLine(usize),
    DeleteLine(usize),
    EraseChars(usize),
    EraseDisplay(u8),
    EraseLine(u8),
    Reset,
    EnterAlternateScreen,
    ExitAlternateScreen,
    SetTitle(Seq<char>),
    SetCursorStyle(CursorStyle),
    SetBracketedPaste(bool),
    SetCharset(Charset),
    SetTabStop,
    ClearTabStop,
    ClearAllTabStops,
    DeviceAttributeQuery,
    ShowCursor,
    HideCursor,
    SetHyperlink(Option<HyperlinkView>),
    SetScrollRegion { top: usize, bottom: usize },
    SetMouseMode(MouseMode),
    InsertChars(usize),
    DeleteChars(usize),
    Bell,
}

impl View for Command {
    type V = CommandView;

    open spec fn view(&self) -> CommandView {
        match *self {
            Command::Print(c) => CommandView::Print(c),
            Command::Execute(b) => CommandView::Execute(b),
            Command::MoveCursor(x, y) => CommandView::MoveCursor(x, y),
            Command::MoveCursorRelative(dx, dy) => CommandView::MoveCursorRelative(dx, dy),
            Command::ClearScreen => CommandView::ClearScreen,
            Command::ClearLine => CommandView::ClearLine,
            Command::SetStyle(s) => CommandView::SetStyle(s),
            Command::SetForeground(c) => CommandView::SetForeground(c),
            Command::SetBackground(c) => CommandView::SetBackground(c),
            Command::SaveCursor => CommandView::SaveCursor,
            Command::RestoreCursor => CommandView::RestoreCursor,
            Command::ScrollUp(n) => CommandView::ScrollUp(n),
            Command::ScrollDown(n) => CommandView::ScrollDown(n),
            Command::InsertLine(n) => CommandView::InsertLine(n),
            Command::DeleteLine(n) => CommandView::DeleteLine(n),
            Command::EraseChars(n) => CommandView::EraseChars(n),
            Command::EraseDisplay(m) => CommandView::EraseDisplay(m),
            Command::EraseLine(m) => CommandView::EraseLine(m),
            Command::Reset => CommandView::Reset,
            Command::EnterAlternateScreen => CommandView::EnterAlternateScreen,
            Command::ExitAlternateScreen => CommandView::ExitAlternateScreen,
            Command::SetTitle(t) => CommandView::SetTitle(t@),
            Command::SetCursorStyle(s) => CommandView::SetCursorStyle(s),
            Command::SetBracketedPaste(b) => CommandView::SetBracketedPaste(b),
            Command::SetCharset(c) => CommandView::SetCharset(c),
            Command::SetTabStop => CommandView::SetTabStop,
            Command::ClearTabStop => CommandView::ClearTabStop,
            Command::ClearAllTabStops => CommandView::ClearAllTabStops,
            Command::DeviceAttributeQuery => CommandView::DeviceAttributeQuery,
            Command::ShowCursor => CommandView::ShowCursor,
            Command::HideCursor => CommandView::HideCursor,
            Command::SetHyperlink(l) => CommandView::SetHyperlink(link_view(l)),
            Command::SetScrollRegion { top, bottom } => CommandView::SetScrollRegion {
                top,
                bottom,
            },
            Command::SetMouseMode(m) => CommandView::SetMouseMode(m),
            Command::InsertChars(n) => CommandView::InsertChars(n),
            Command::DeleteChars(n) => CommandView::DeleteChars(n),
            Command::Bell => CommandView::Bell,
        }
    }
}

/// The views of a list of commands, in order.
pub open spec fn commands_view(commands: Seq<Command>) -> Seq<CommandView> {
    Seq::new(commands.len(), |i: int| commands[i]@)
}

} // verus!
