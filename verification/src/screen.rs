//! The screen as a mathematical value, and what each command does to it.
//!
//! Nothing here is executed: `ScreenView` is the state that
//! `TerminalBuffer` stands for, and `ScreenView::step` is the meaning of a
//! command. The executable code is proved against these definitions.

use vstd::prelude::*;

use crate::cell::{default_style, CellStyle, CellView, HyperlinkView};
use crate::command::{Charset, CommandView, CursorStyle, MouseMode};
use crate::grid::GridView;

verus! {

/// The lesser of two integers.
pub open spec fn min(a: int, b: int) -> int {
    if a <= b {
        a
    } else {
        b
    }
}

/// The greater of two integers.
pub open spec fn max(a: int, b: int) -> int {
    if a >= b {
        a
    } else {
        b
    }
}

/// `v` moved into `lo..=hi`.
pub open spec fn clamp(v: int, lo: int, hi: int) -> int {
    max(lo, min(v, hi))
}

/// The glyph that stands for `c` in the given character set. In the
/// line-drawing set a dozen lower-case letters stand for box-drawing glyphs;
/// every other character stands for itself.
pub open spec fn translate(charset: Charset, c: char) -> char {
    if charset == Charset::LineDrawing {
        if c == 'j' {
            '\u{2518}'
        } else if c == 'k' {
            '\u{2510}'
        } else if c == 'l' {
            '\u{250c}'
        } else if c == 'm' {
            '\u{2514}'
        } else if c == 'n' {
            '\u{253c}'
        } else if c == 'q' {
            '\u{2500}'
        } else if c == 't' {
            '\u{251c}'
        } else if c == 'u' {
            '\u{2524}'
        } else if c == 'v' {
            '\u{2534}'
        } else if c == 'w' {
            '\u{252c}'
        } else if c == 'x' {
            '\u{2502}'
        } else if c == 'a' {
            '\u{2592}'
        } else {
            c
        }
    } else {
        c
    }
}

/// The tab stops of a screen nobody changed them on: every eighth column
/// but the first.
pub open spec fn default_tab_stops(width: int) -> Seq<bool> {
    Seq::new(width as nat, |x: int| x > 0 && x % 8 == 0)
}

/// The first column at or after `from` that holds a tab stop, or the last
/// column if there is none.
pub open spec fn next_tab_stop(stops: Seq<bool>, from: int, width: int) -> int
    decreases width - from,
{
    if from >= width {
        width - 1
    } else if 0 <= from && stops[from] {
        from
    } else {
        next_tab_stop(stops, from + 1, width)
    }
}

/// The newest `limit` rows of a history: what is left once the oldest rows
/// beyond the limit are dropped.
pub open spec fn evict(rows: Seq<Seq<CellView>>, limit: int) -> Seq<Seq<CellView>> {
    if rows.len() > limit {
        rows.subrange(rows.len() - limit, rows.len() as int)
    } else {
        rows
    }
}

/// The reply to a device-attributes query: `ESC [ ? 1 ; 2 c`.
pub open spec fn device_attributes_reply() -> Seq<u8> {
    seq![0x1b, 0x5b, 0x3f, 0x31, 0x3b, 0x32, 0x63]
}

/// What is put aside while the alternate screen is shown.
pub struct SavedScreen {
    pub grid: GridView,
    pub cursor_x: int,
    pub cursor_y: int,
    pub style: CellStyle,
    pub scrollback: Seq<Seq<CellView>>,
}

/// The whole state of a screen.
pub struct ScreenView {
    pub grid: GridView,
    pub cursor_x: int,
    pub cursor_y: int,
    pub style: CellStyle,
    pub saved_cursor: Option<(int, int, CellStyle)>,
    pub scrollback: Seq<Seq<CellView>>,
    pub scrollback_limit: int,
    pub scroll_offset: int,
    pub alternate: Option<SavedScreen>,
    pub cursor_style: CursorStyle,
    pub bracketed_paste: bool,
    pub charset: Charset,
    pub tab_stops: Seq<bool>,
    pub scroll_top: int,
    pub scroll_bottom: int,
    pub mouse_mode: MouseMode,
    pub hyperlink: Option<HyperlinkView>,
    pub title: Seq<char>,
    pub responses: Seq<Seq<u8>>,
}

impl SavedScreen {
    /// A saved screen fits a screen of the given size and history limit.
    pub open spec fn fits(self, width: int, height: int, limit: int) -> bool {
        &&& self.grid.wf()
        &&& self.grid.width == width
        &&& self.grid.height == height
        &&& 0 <= self.cursor_x < width
        &&& 0 <= self.cursor_y < height
        &&& self.scrollback.len() <= limit
    }
}

impl ScreenView {
    pub open spec fn width(self) -> int {
        self.grid.width
    }

    pub open spec fn height(self) -> int {
        self.grid.height
    }

    /// What holds of a screen at all times: the grid is not empty, the
    /// cursor is on it, there is a tab-stop flag per column, the scroll
    /// region is a range of rows, and no history is longer than the limit.
    pub open spec fn wf(self) -> bool {
        &&& self.grid.wf()
        &&& self.grid.width >= 1
        &&& self.grid.height >= 1
        &&& 0 <= self.cursor_x < self.grid.width
        &&& 0 <= self.cursor_y < self.grid.height
        &&& self.tab_stops.len() == self.grid.width
        &&& 0 <= self.scroll_top <= self.scroll_bottom < self.grid.height
        &&& 0 <= self.scroll_offset
        &&& 0 <= self.scrollback_limit
        &&& self.scrollback.len() <= self.scrollback_limit
        &&& match self.saved_cursor {
            Some((x, y, _)) => 0 <= x && 0 <= y,
            None => true,
        }
        &&& match self.alternate {
            Some(saved) => saved.fits(self.grid.width, self.grid.height, self.scrollback_limit),
            None => true,
        }
    }

    /// The screen a terminal starts with.
    pub open spec fn initial(width: int, height: int) -> ScreenView {
        ScreenView {
            grid: GridView::blank(width, height),
            cursor_x: 0,
            cursor_y: 0,
            style: default_style(),
            saved_cursor: None,
            scrollback: Seq::empty(),
            scrollback_limit: 10000,
            scroll_offset: 0,
            alternate: None,
            cursor_style: CursorStyle::BlinkBlock,
            bracketed_paste: false,
            charset: Charset::Ascii,
            tab_stops: default_tab_stops(width),
            scroll_top: 0,
            scroll_bottom: height - 1,
            mouse_mode: MouseMode::Off,
            hyperlink: None,
            title: Seq::empty(),
            responses: Seq::empty(),
        }
    }

    pub open spec fn is_alternate(self) -> bool {
        self.alternate is Some
    }

    /// The number of rows of the scroll region.
    pub open spec fn region_height(self) -> int {
        self.scroll_bottom - self.scroll_top + 1
    }

    /// The cell that printing `c` at the cursor leaves there: the glyph for
    /// `c`, the current style and the current link. Combining characters
    /// already on the cell stay.
    pub open spec fn printed_cell(self, c: char) -> CellView {
        CellView {
            character: translate(self.charset, c),
            style: self.style,
            hyperlink: self.hyperlink,
            zerowidth: self.grid.rows[self.cursor_y][self.cursor_x].zerowidth,
        }
    }

    /// The rows that leave the top of the scroll region when it scrolls up
    /// by `n`.
    pub open spec fn rows_scrolled_off(self, n: int) -> Seq<Seq<CellView>> {
        self.grid.rows.subrange(self.scroll_top, self.scroll_top + min(n, self.region_height()))
    }

    /// The scroll region moved up by `n` rows. On the primary screen the
    /// rows that leave its top are appended to the history, which is then
    /// cut back to its limit. The cursor stays.
    pub open spec fn scroll_region_up(self, n: int) -> ScreenView {
        ScreenView {
            grid: self.grid.shift_up(self.scroll_top, self.scroll_bottom, n),
            scrollback: if self.is_alternate() {
                self.scrollback
            } else {
                evict(self.scrollback + self.rows_scrolled_off(n), self.scrollback_limit)
            },
            ..self
        }
    }

    /// `ScrollUp(n)`: the region scrolls, and the cursor moves up with the
    /// text, no higher than the top of the region.
    pub open spec fn scroll_up(self, n: int) -> ScreenView {
        ScreenView {
            cursor_y: max(self.cursor_y - min(n, self.region_height()), self.scroll_top),
            ..self.scroll_region_up(n)
        }
    }

    /// `ScrollDown(n)`: the rows of the region move down, blank rows come in
    /// at its top, and the cursor is brought into the region.
    pub open spec fn scroll_down(self, n: int) -> ScreenView {
        ScreenView {
            grid: self.grid.shift_down(self.scroll_top, self.scroll_bottom, n),
            cursor_y: clamp(self.cursor_y, self.scroll_top, self.scroll_bottom),
            ..self
        }
    }

    /// The cursor moved down one row. At or below the bottom of the scroll
    /// region the region scrolls up by one row instead.
    pub open spec fn line_feed(self) -> ScreenView {
        if self.cursor_y >= self.scroll_bottom {
            self.scroll_region_up(1)
        } else {
            ScreenView { cursor_y: self.cursor_y + 1, ..self }
        }
    }

    /// The cursor moved to the start of the next row.
    pub open spec fn new_line(self) -> ScreenView {
        ScreenView { cursor_x: 0, ..self }.line_feed()
    }

    /// The cursor moved to the next tab stop.
    pub open spec fn tab(self) -> ScreenView {
        ScreenView {
            cursor_x: next_tab_stop(self.tab_stops, self.cursor_x + 1, self.grid.width),
            ..self
        }
    }

    /// `c` written at the cursor, and the cursor moved on by one column:
    /// past the last column it wraps to the start of the next row.
    pub open spec fn put_char(self, c: char) -> ScreenView {
        if self.cursor_x + 1 < self.grid.width {
            ScreenView { cursor_x: self.cursor_x + 1, ..self.written(c) }
        } else {
            self.written(c).new_line()
        }
    }

    /// `Print(c)`: line feed, carriage return and tab act as controls, any
    /// other character is written.
    pub open spec fn print(self, c: char) -> ScreenView {
        if c == '\n' {
            self.new_line()
        } else if c == '\r' {
            ScreenView { cursor_x: 0, ..self }
        } else if c == '\t' {
            self.tab()
        } else {
            self.put_char(c)
        }
    }

    /// `Execute(byte)`: line feed, carriage return, tab and backspace; every
    /// other control byte leaves the screen as it is.
    pub open spec fn execute_control(self, byte: u8) -> ScreenView {
        if byte == 0x0a {
            self.new_line()
        } else if byte == 0x0d {
            ScreenView { cursor_x: 0, ..self }
        } else if byte == 0x09 {
            self.tab()
        } else if byte == 0x08 {
            ScreenView { cursor_x: max(self.cursor_x - 1, 0), ..self }
        } else {
            self
        }
    }

    pub open spec fn move_cursor(self, x: int, y: int) -> ScreenView {
        ScreenView {
            cursor_x: min(x, self.grid.width - 1),
            cursor_y: min(y, self.grid.height - 1),
            ..self
        }
    }

    pub open spec fn move_cursor_relative(self, dx: int, dy: int) -> ScreenView {
        ScreenView {
            cursor_x: clamp(self.cursor_x + dx, 0, self.grid.width - 1),
            cursor_y: clamp(self.cursor_y + dy, 0, self.grid.height - 1),
            ..self
        }
    }

    /// Every cell blank and the cursor in the top left corner.
    pub open spec fn clear_screen(self) -> ScreenView {
        ScreenView {
            grid: GridView::blank(self.grid.width, self.grid.height),
            cursor_x: 0,
            cursor_y: 0,
            ..self
        }
    }

    /// `EraseDisplay(mode)`: mode 0 blanks from the cursor to the end of the
    /// screen, mode 1 from the start of the screen to the cursor, mode 2
    /// everything; the cursor cell is included. Other modes do nothing.
    pub open spec fn erase_display(self, mode: u8) -> ScreenView {
        let w = self.grid.width;
        let h = self.grid.height;
        if mode == 0 {
            ScreenView {
                grid: self.grid.erase_in_row(self.cursor_y, self.cursor_x, w).erase_rows(
                    self.cursor_y + 1,
                    h,
                ),
                ..self
            }
        } else if mode == 1 {
            ScreenView {
                grid: self.grid.erase_rows(0, self.cursor_y).erase_in_row(
                    self.cursor_y,
                    0,
                    self.cursor_x + 1,
                ),
                ..self
            }
        } else if mode == 2 {
            ScreenView { grid: GridView::blank(w, h), ..self }
        } else {
            self
        }
    }

    /// `EraseLine(mode)`: as `EraseDisplay`, within the row of the cursor.
    pub open spec fn erase_line(self, mode: u8) -> ScreenView {
        let w = self.grid.width;
        if mode == 0 {
            ScreenView { grid: self.grid.erase_in_row(self.cursor_y, self.cursor_x, w), ..self }
        } else if mode == 1 {
            ScreenView {
                grid: self.grid.erase_in_row(self.cursor_y, 0, self.cursor_x + 1),
                ..self
            }
        } else if mode == 2 {
            ScreenView { grid: self.grid.erase_in_row(self.cursor_y, 0, w), ..self }
        } else {
            self
        }
    }

    /// `EraseChars(n)`: `n` cells from the cursor on become blank, as far as
    /// the row goes.
    pub open spec fn erase_chars(self, n: int) -> ScreenView {
        ScreenView {
            grid: self.grid.erase_in_row(
                self.cursor_y,
                self.cursor_x,
                self.cursor_x + min(n, self.grid.width - self.cursor_x),
            ),
            ..self
        }
    }

    /// Whether the cursor is on a row of the scroll region.
    pub open spec fn cursor_in_region(self) -> bool {
        self.scroll_top <= self.cursor_y <= self.scroll_bottom
    }

    /// `InsertLine(n)`: with the cursor in the scroll region, the rows from
    /// the cursor to the bottom of the region move down by `n`.
    pub open spec fn insert_lines(self, n: int) -> ScreenView {
        if self.cursor_in_region() {
            ScreenView { grid: self.grid.shift_down(self.cursor_y, self.scroll_bottom, n), ..self }
        } else {
            self
        }
    }

    /// `DeleteLine(n)`: with the cursor in the scroll region, the rows from
    /// the cursor to the bottom of the region move up by `n`. Nothing goes
    /// to the history.
    pub open spec fn delete_lines(self, n: int) -> ScreenView {
        if self.cursor_in_region() {
            ScreenView { grid: self.grid.shift_up(self.cursor_y, self.scroll_bottom, n), ..self }
        } else {
            self
        }
    }

    pub open spec fn restore_cursor(self) -> ScreenView {
        match self.saved_cursor {
            Some((x, y, style)) => ScreenView {
                cursor_x: min(x, self.grid.width - 1),
                cursor_y: min(y, self.grid.height - 1),
                style,
                ..self
            },
            None => self,
        }
    }

    pub open spec fn reset(self) -> ScreenView {
        ScreenView {
            grid: GridView::blank(self.grid.width, self.grid.height),
            cursor_x: 0,
            cursor_y: 0,
            style: default_style(),
            saved_cursor: None,
            ..self
        }
    }

    /// On the primary screen: grid, cursor, style and history are put aside
    /// and replaced by fresh ones. On the alternate screen: nothing.
    pub open spec fn enter_alternate(self) -> ScreenView {
        if self.is_alternate() {
            self
        } else {
            ScreenView {
                grid: GridView::blank(self.grid.width, self.grid.height),
                cursor_x: 0,
                cursor_y: 0,
                style: default_style(),
                scrollback: Seq::empty(),
                alternate: Some(
                    SavedScreen {
                        grid: self.grid,
                        cursor_x: self.cursor_x,
                        cursor_y: self.cursor_y,
                        style: self.style,
                        scrollback: self.scrollback,
                    },
                ),
                ..self
            }
        }
    }

    /// On the alternate screen: what was put aside comes back. On the
    /// primary screen: nothing.
    pub open spec fn exit_alternate(self) -> ScreenView {
        match self.alternate {
            Some(saved) => ScreenView {
                grid: saved.grid,
                cursor_x: saved.cursor_x,
                cursor_y: saved.cursor_y,
                style: saved.style,
                scrollback: saved.scrollback,
                alternate: None,
                ..self
            },
            None => self,
        }
    }

    /// `SetScrollRegion`: both rows are brought onto the grid, and the
    /// bottom row to no less than the top row.
    pub open spec fn set_scroll_region(self, top: int, bottom: int) -> ScreenView {
        let t = min(top, self.grid.height - 1);
        ScreenView {
            scroll_top: t,
            scroll_bottom: max(min(bottom, self.grid.height - 1), t),
            ..self
        }
    }

    /// The screen with the printed cell for `c` at the cursor, and the
    /// cursor where it was.
    pub open spec fn written(self, c: char) -> ScreenView {
        ScreenView {
            grid: self.grid.set(self.cursor_x, self.cursor_y, self.printed_cell(c)),
            ..self
        }
    }

    /// The rows that a command moves off the top of the scroll region:
    /// those that `ScrollUp` scrolls away, and the top row where a line
    /// feed, or a character written in the last column, finds the cursor at
    /// or below the bottom of the region.
    pub open spec fn rows_leaving(self, cmd: CommandView) -> Seq<Seq<CellView>> {
        match cmd {
            CommandView::ScrollUp(n) => self.rows_scrolled_off(n as int),
            CommandView::Print(c) => if c == '\n' {
                if self.cursor_y >= self.scroll_bottom {
                    self.rows_scrolled_off(1)
                } else {
                    Seq::empty()
                }
            } else if c == '\r' || c == '\t' {
                Seq::empty()
            } else if self.cursor_x + 1 >= self.grid.width && self.cursor_y
                >= self.scroll_bottom {
                self.written(c).rows_scrolled_off(1)
            } else {
                Seq::empty()
            },
            CommandView::Execute(byte) => if byte == 0x0a && self.cursor_y
                >= self.scroll_bottom {
                self.rows_scrolled_off(1)
            } else {
                Seq::empty()
            },
            _ => Seq::empty(),
        }
    }

    /// The screen after one command.
    pub open spec fn step(self, cmd: CommandView) -> ScreenView {
        match cmd {
            CommandView::Print(c) => self.print(c),
            CommandView::Execute(b) => self.execute_control(b),
            CommandView::MoveCursor(x, y) => self.move_cursor(x as int, y as int),
            CommandView::MoveCursorRelative(dx, dy) => self.move_cursor_relative(
                dx as int,
                dy as int,
            ),
            CommandView::ClearScreen => self.clear_screen(),
            CommandView::ClearLine => self.erase_line(2),
            CommandView::SetStyle(style) => ScreenView { style, ..self },
            CommandView::SetForeground(fg) => ScreenView {
                style: CellStyle { fg, ..self.style },
                ..self
            },
            CommandView::SetBackground(bg) => ScreenView {
                style: CellStyle { bg, ..self.style },
                ..self
            },
            CommandView::SaveCursor => ScreenView {
                saved_cursor: Some((self.cursor_x, self.cursor_y, self.style)),
                ..self
            },
            CommandView::RestoreCursor => self.restore_cursor(),
            CommandView::ScrollUp(n) => self.scroll_up(n as int),
            CommandView::ScrollDown(n) => self.scroll_down(n as int),
            CommandView::InsertLine(n) => self.insert_lines(n as int),
            CommandView::DeleteLine(n) => self.delete_lines(n as int),
            CommandView::EraseChars(n) => self.erase_chars(n as int),
            CommandView::EraseDisplay(mode) => self.erase_display(mode),
            CommandView::EraseLine(mode) => self.erase_line(mode),
            CommandView::Reset => self.reset(),
            CommandView::EnterAlternateScreen => self.enter_alternate(),
            CommandView::ExitAlternateScreen => self.exit_alternate(),
            CommandView::SetTitle(title) => ScreenView { title, ..self },
            CommandView::SetCursorStyle(cursor_style) => ScreenView { cursor_style, ..self },
            CommandView::SetBracketedPaste(bracketed_paste) => ScreenView {
                bracketed_paste,
                ..self
            },
            CommandView::SetCharset(charset) => ScreenView { charset, ..self },
            CommandView::SetTabStop => ScreenView {
                tab_stops: self.tab_stops.update(self.cursor_x, true),
                ..self
            },
            CommandView::ClearTabStop => ScreenView {
                tab_stops: self.tab_stops.update(self.cursor_x, false),
                ..self
            },
            CommandView::ClearAllTabStops => ScreenView {
                tab_stops: Seq::new(self.tab_stops.len(), |x: int| false),
                ..self
            },
            CommandView::DeviceAttributeQuery => ScreenView {
                responses: self.responses.push(device_attributes_reply()),
                ..self
            },
            CommandView::ShowCursor => self,
            CommandView::HideCursor => self,
            CommandView::SetHyperlink(hyperlink) => ScreenView { hyperlink, ..self },
            CommandView::SetScrollRegion { top, bottom } => self.set_scroll_region(
                top as int,
                bottom as int,
            ),
            CommandView::SetMouseMode(mouse_mode) => ScreenView { mouse_mode, ..self },
            CommandView::InsertChars(n) => ScreenView {
                grid: self.grid.insert_cells(self.cursor_x, self.cursor_y, n as int),
                ..self
            },
            CommandView::DeleteChars(n) => ScreenView {
                grid: self.grid.delete_cells(self.cursor_x, self.cursor_y, n as int),
                ..self
            },
            CommandView::Bell => self,
        }
    }

    /// The screen after a list of commands, executed in order.
    pub open spec fn run(self, commands: Seq<CommandView>) -> ScreenView
        decreases commands.len(),
    {
        if commands.len() == 0 {
            self
        } else {
            self.run(commands.drop_last()).step(commands.last())
        }
    }

    /// The saved screen brought to a new size: its grid resized, its cursor
    /// kept on the grid.
    pub open spec fn saved_resized(saved: SavedScreen, width: int, height: int) -> SavedScreen {
        SavedScreen {
            grid: saved.grid.resized(width, height),
            cursor_x: min(saved.cursor_x, width - 1),
            cursor_y: min(saved.cursor_y, height - 1),
            ..saved
        }
    }

    /// The screen at a new size: the grid keeps its top left part, tab stops
    /// are the default ones, the scroll region is the whole screen and the
    /// cursor is kept on the grid. A screen that was put aside for the
    /// alternate one is resized with it.
    pub open spec fn resized(self, width: int, height: int) -> ScreenView {
        ScreenView {
            grid: self.grid.resized(width, height),
            cursor_x: min(self.cursor_x, width - 1),
            cursor_y: min(self.cursor_y, height - 1),
            tab_stops: default_tab_stops(width),
            scroll_top: 0,
            scroll_bottom: height - 1,
            alternate: match self.alternate {
                Some(saved) => Some(Self::saved_resized(saved, width, height)),
                None => None,
            },
            ..self
        }
    }

    /// The screen with a new limit on its history, and every history cut
    /// back to it.
    pub open spec fn with_scrollback_limit(self, limit: int) -> ScreenView {
        ScreenView {
            scrollback: evict(self.scrollback, limit),
            scrollback_limit: limit,
            alternate: match self.alternate {
                Some(saved) => Some(
                    SavedScreen { scrollback: evict(saved.scrollback, limit), ..saved },
                ),
                None => None,
            },
            ..self
        }
    }
}

} // verus!
