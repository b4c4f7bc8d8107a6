//! The screen model: a grid with cursor, style, history and an alternate
//! screen, driven by commands.

use std::collections::VecDeque;
use vstd::prelude::*;

use crate::cell::{link_view, Cell, CellStyle, CellView, Hyperlink};
use crate::command::{Charset, Command, CursorStyle, MouseMode};
use crate::grid::{row_view, Grid};
use crate::screen::{
    clamp, default_tab_stops, device_attributes_reply, evict, min, next_tab_stop, translate,
    SavedScreen, ScreenView,
};

verus! {

/// The number of rows of history a new screen keeps.
pub const DEFAULT_SCROLLBACK_LIMIT: usize = 10000;

/// The views of the rows of a history, oldest first.
pub open spec fn history_view(rows: Seq<Vec<Cell>>) -> Seq<Seq<CellView>> {
    Seq::new(rows.len(), |i: int| row_view(rows[i]@))
}

/// The replies of a queue as byte sequences, oldest first.
pub open spec fn replies_view(replies: Seq<Vec<u8>>) -> Seq<Seq<u8>> {
    Seq::new(replies.len(), |i: int| replies[i]@)
}

/// Why a screen could not be resized.
#[derive(Debug, Clone, Copy, PartialEq, Eq, Structural)]
pub enum ResizeError {
    /// A screen has at least one column and one row.
    Empty,
}

impl ResizeError {
    /// The error in words.
    pub fn message(&self) -> (s: &'static str)
        ensures
            s@ == "a screen cannot be resized to no columns or no rows"@,
    {
        "a screen cannot be resized to no columns or no rows"
    }
}

#[derive(Debug)]
struct AlternateState {
    grid: Grid,
    cursor_x: usize,
    cursor_y: usize,
    current_style: CellStyle,
    scrollback: VecDeque<Vec<Cell>>,
}

impl AlternateState {
    spec fn view(&self) -> SavedScreen {
        SavedScreen {
            grid: self.grid@,
            cursor_x: self.cursor_x as int,
            cursor_y: self.cursor_y as int,
            style: self.current_style,
            scrollback: history_view(self.scrollback@),
        }
    }
}

/// The state of a terminal screen.
#[derive(Debug)]
pub struct TerminalBuffer {
    grid: Grid,
    cursor_x: usize,
    cursor_y: usize,
    current_style: CellStyle,
    saved_cursor: Option<(usize, usize, CellStyle)>,
    scrollback: VecDeque<Vec<Cell>>,
    scrollback_limit: usize,
    scroll_offset: usize,
    alternate_state: Option<Box<AlternateState>>,
    cursor_style: CursorStyle,
    bracketed_paste: bool,
    charset: Charset,
    tab_stops: Vec<bool>,
    scroll_top: usize,
    scroll_bottom: usize,
    mouse_mode: MouseMode,
    hyperlink: Option<Hyperlink>,
    title: String,
    pending_responses: Vec<Vec<u8>>,
}

impl View for TerminalBuffer {
    type V = ScreenView;

    closed spec fn view(&self) -> ScreenView {
        ScreenView {
            grid: self.grid@,
            cursor_x: self.cursor_x as int,
            cursor_y: self.cursor_y as int,
            style: self.current_style,
            saved_cursor: match self.saved_cursor {
                Some((x, y, style)) => Some((x as int, y as int, style)),
                None => None,
            },
            scrollback: history_view(self.scrollback@),
            scrollback_limit: self.scrollback_limit as int,
            scroll_offset: self.scroll_offset as int,
            alternate: match self.alternate_state {
                Some(saved) => Some(saved.view()),
                None => None,
            },
            cursor_style: self.cursor_style,
            bracketed_paste: self.bracketed_paste,
            charset: self.charset,
            tab_stops: self.tab_stops@,
            scroll_top: self.scroll_top as int,
            scroll_bottom: self.scroll_bottom as int,
            mouse_mode: self.mouse_mode,
            hyperlink: link_view(self.hyperlink),
            title: self.title@,
            responses: replies_view(self.pending_responses@),
        }
    }
}

/// A copy of a row of cells.
fn clone_row(cells: &[Cell]) -> (row: Vec<Cell>)
    ensures
        row_view(row@) == row_view(cells@),
{
    let mut row: Vec<Cell> = Vec::new();
    let mut x: usize = 0;
    while x < cells.len()
        invariant
            x <= cells.len(),
            row.len() == x,
            forall|k: int| 0 <= k < x ==> (#[trigger] row@[k])@ == cells@[k]@,
        decreases cells.len() - x,
    {
        row.push(cells[x].clone());
        x += 1;
    }
    assert(row_view(row@) =~= row_view(cells@));
    row
}

/// A copy of a history.
fn clone_history(rows: &VecDeque<Vec<Cell>>) -> (copy: VecDeque<Vec<Cell>>)
    ensures
        history_view(copy@) == history_view(rows@),
{
    let mut copy: VecDeque<Vec<Cell>> = VecDeque::new();
    let mut i: usize = 0;
    while i < rows.len()
        invariant
            i <= rows.len(),
            copy@.len() == i,
            forall|k: int| 0 <= k < i ==> row_view(#[trigger] copy@[k]@) == row_view(rows@[k]@),
        decreases rows.len() - i,
    {
        copy.push_back(clone_row(rows[i].as_slice()));
        i += 1;
    }
    assert(history_view(copy@) =~= history_view(rows@));
    copy
}

/// A copy of a queue of replies.
fn clone_replies(replies: &Vec<Vec<u8>>) -> (copy: Vec<Vec<u8>>)
    ensures
        replies_view(copy@) == replies_view(replies@),
{
    let mut copy: Vec<Vec<u8>> = Vec::new();
    let mut i: usize = 0;
    while i < replies.len()
        invariant
            i <= replies.len(),
            copy@.len() == i,
            forall|k: int| 0 <= k < i ==> (#[trigger] copy@[k])@ == replies@[k]@,
        decreases replies.len() - i,
    {
        copy.push(vstd::slice::slice_to_vec(replies[i].as_slice()));
        i += 1;
    }
    assert(replies_view(copy@) =~= replies_view(replies@));
    copy
}

/// Appends copies of the rows `top..top + count` of a grid to a history.
fn save_rows(history: &mut VecDeque<Vec<Cell>>, grid: &Grid, top: usize, count: usize)
    requires
        grid.wf(),
        top + count <= grid@.height,
    ensures
        history_view(final(history)@) == history_view(old(history)@) + grid@.rows.subrange(
            top as int,
            top + count,
        ),
{
    proof {
        grid.lemma_view_wf();
    }
    let ghost leaving = grid@.rows.subrange(top as int, top + count);
    let height = grid.height();
    let mut i: usize = 0;
    while i < count
        invariant
            grid.wf(),
            grid@.wf(),
            height == grid@.height,
            top + count <= height,
            i <= count,
            leaving == grid@.rows.subrange(top as int, top + count),
            history_view(history@) == history_view(old(history)@) + leaving.subrange(0, i as int),
        decreases count - i,
    {
        let ghost before = history@;
        let row = match grid.row(top + i) {
            Some(cells) => clone_row(cells),
            None => Vec::new(),
        };
        assert(row_view(row@) == leaving[i as int]);
        history.push_back(row);
        assert(history@ == before.push(row));
        assert(history_view(history@) =~= history_view(before).push(row_view(row@)));
        assert(history_view(history@) =~= history_view(old(history)@) + leaving.subrange(
            0,
            i + 1,
        ));
        i += 1;
    }
    assert(leaving.subrange(0, count as int) =~= leaving);
}

/// Clears every flag of a list.
fn clear_flags(flags: &mut Vec<bool>)
    ensures
        final(flags)@ == Seq::new(old(flags)@.len(), |x: int| false),
{
    let len = flags.len();
    let mut x: usize = 0;
    while x < len
        invariant
            x <= len,
            flags.len() == len,
            len == old(flags)@.len(),
            forall|k: int| 0 <= k < x ==> !flags@[k],
        decreases len - x,
    {
        flags.set(x, false);
        x += 1;
    }
    assert(flags@ =~= Seq::new(old(flags)@.len(), |x: int| false));
}

/// Drops the oldest rows of a history until no more than `limit` are left.
fn trim_history(rows: &mut VecDeque<Vec<Cell>>, limit: usize)
    ensures
        history_view(final(rows)@) == evict(history_view(old(rows)@), limit as int),
{
    while rows.len() > limit
        invariant
            rows@.len() <= old(rows)@.len(),
            rows@.len() >= limit || rows@ == old(rows)@,
            rows@ == old(rows)@.subrange(old(rows)@.len() - rows@.len(), old(rows)@.len() as int),
        decreases rows.len(),
    {
        let _ = rows.pop_front();
        assert(rows@ =~= old(rows)@.subrange(
            old(rows)@.len() - rows@.len(),
            old(rows)@.len() as int,
        ));
    }
    assert(history_view(rows@) =~= evict(history_view(old(rows)@), limit as int));
}

impl Clone for TerminalBuffer {
    fn clone(&self) -> (copy: Self)
        ensures
            self.wf() ==> copy.wf() && copy@ == self@,
    {
        let alternate_state = match &self.alternate_state {
            Some(saved) => Some(
                Box::new(
                    AlternateState {
                        grid: saved.grid.clone(),
                        cursor_x: saved.cursor_x,
                        cursor_y: saved.cursor_y,
                        current_style: saved.current_style,
                        scrollback: clone_history(&saved.scrollback),
                    },
                ),
            ),
            None => None,
        };
        let hyperlink = match &self.hyperlink {
            Some(link) => Some(link.clone()),
            None => None,
        };
        let tab_stops = self.tab_stops.clone();
        assert(tab_stops@ =~= self.tab_stops@);
        TerminalBuffer {
            grid: self.grid.clone(),
            cursor_x: self.cursor_x,
            cursor_y: self.cursor_y,
            current_style: self.current_style,
            saved_cursor: self.saved_cursor,
            scrollback: clone_history(&self.scrollback),
            scrollback_limit: self.scrollback_limit,
            scroll_offset: self.scroll_offset,
            alternate_state,
            cursor_style: self.cursor_style,
            bracketed_paste: self.bracketed_paste,
            charset: self.charset,
            tab_stops,
            scroll_top: self.scroll_top,
            scroll_bottom: self.scroll_bottom,
            mouse_mode: self.mouse_mode,
            hyperlink,
            title: self.title.clone(),
            pending_responses: clone_replies(&self.pending_responses),
        }
    }
}

impl TerminalBuffer {
    /// What holds of every screen, whatever was done to it.
    pub closed spec fn wf(&self) -> bool {
        &&& self.grid.wf()
        &&& match self.alternate_state {
            Some(saved) => saved.grid.wf(),
            None => true,
        }
        &&& self@.wf()
    }

    /// The state of a well-formed screen is a well-formed state.
    pub proof fn lemma_view_wf(&self)
        requires
            self.wf(),
        ensures
            self@.wf(),
    {
    }

    /// The cells of a screen can be counted in a `usize`.
    pub proof fn lemma_size_fits(&self)
        requires
            self.wf(),
        ensures
            self@.grid.width * self@.grid.height <= usize::MAX,
    {
        self.grid.lemma_size_fits();
    }

    /// A blank screen of the given size, with the cursor in the top left
    /// corner.
    pub fn new(width: usize, height: usize) -> (buffer: Self)
        requires
            width >= 1,
            height >= 1,
            width * height <= usize::MAX,
        ensures
            buffer.wf(),
            buffer@ == ScreenView::initial(width as int, height as int),
    {
        let tab_stops = Self::default_stops(width);
        let buffer = TerminalBuffer {
            grid: Grid::new(width, height),
            cursor_x: 0,
            cursor_y: 0,
            current_style: CellStyle::default(),
            saved_cursor: None,
            scrollback: VecDeque::new(),
            scrollback_limit: DEFAULT_SCROLLBACK_LIMIT,
            scroll_offset: 0,
            alternate_state: None,
            cursor_style: CursorStyle::BlinkBlock,
            bracketed_paste: false,
            charset: Charset::Ascii,
            tab_stops,
            scroll_top: 0,
            scroll_bottom: height - 1,
            mouse_mode: MouseMode::Off,
            hyperlink: None,
            title: String::new(),
            pending_responses: Vec::new(),
        };
        proof {
            let init = ScreenView::initial(width as int, height as int);
            assert(buffer@.scrollback =~= init.scrollback);
            assert(buffer@.responses =~= init.responses);
            assert(buffer@.title =~= init.title);
        }
        buffer
    }

    /// Tab stops at every eighth column but the first.
    fn default_stops(width: usize) -> (stops: Vec<bool>)
        ensures
            stops@ == default_tab_stops(width as int),
    {
        let mut stops: Vec<bool> = Vec::new();
        let mut x: usize = 0;
        while x < width
            invariant
                x <= width,
                stops.len() == x,
                forall|k: int| 0 <= k < x ==> stops@[k] == (k > 0 && k % 8 == 0),
            decreases width - x,
        {
            stops.push(x > 0 && x % 8 == 0);
            x += 1;
        }
        assert(stops@ =~= default_tab_stops(width as int));
        stops
    }

    pub fn grid(&self) -> (grid: &Grid)
        requires
            self.wf(),
        ensures
            grid.wf(),
            grid@ == self@.grid,
    {
        &self.grid
    }

    /// Column and row of the cursor.
    pub fn cursor_pos(&self) -> (pos: (usize, usize))
        ensures
            pos.0 == self@.cursor_x,
            pos.1 == self@.cursor_y,
    {
        (self.cursor_x, self.cursor_y)
    }

    pub fn current_style(&self) -> (style: CellStyle)
        ensures
            style == self@.style,
    {
        self.current_style
    }

    pub fn scrollback_len(&self) -> (len: usize)
        ensures
            len == self@.scrollback.len(),
    {
        self.scrollback.len()
    }

    pub fn scroll_offset(&self) -> (offset: usize)
        ensures
            offset == self@.scroll_offset,
    {
        self.scroll_offset
    }

    /// Moves the viewport by `delta` rows into the history (or back, if
    /// `delta` is negative), no further than the history goes.
    pub fn scroll_by(&mut self, delta: i32)
        requires
            old(self).wf(),
        ensures
            final(self).wf(),
            final(self)@ == (ScreenView {
                scroll_offset: clamp(
                    old(self)@.scroll_offset + delta,
                    0,
                    old(self)@.scrollback.len() as int,
                ),
                ..old(self)@
            }),
    {
        let len = self.scrollback.len();
        let moved = if delta >= 0 {
            let up = delta as usize;
            if up <= usize::MAX - self.scroll_offset {
                self.scroll_offset + up
            } else {
                usize::MAX
            }
        } else {
            let down = (-(delta as i64)) as usize;
            if down <= self.scroll_offset {
                self.scroll_offset - down
            } else {
                0
            }
        };
        self.scroll_offset = if moved < len {
            moved
        } else {
            len
        };
    }

    /// Moves the viewport to `offset` rows into the history, no further than
    /// the history goes.
    pub fn scroll_to(&mut self, offset: usize)
        requires
            old(self).wf(),
        ensures
            final(self).wf(),
            final(self)@ == (ScreenView {
                scroll_offset: min(offset as int, old(self)@.scrollback.len() as int),
                ..old(self)@
            }),
    {
        let len = self.scrollback.len();
        self.scroll_offset = if offset < len {
            offset
        } else {
            len
        };
    }

    /// Moves the viewport back to the live screen.
    pub fn scroll_to_bottom(&mut self)
        requires
            old(self).wf(),
        ensures
            final(self).wf(),
            final(self)@ == (ScreenView { scroll_offset: 0, ..old(self)@ }),
    {
        self.scroll_offset = 0;
    }

    /// Row `index` of the history, the oldest being row 0.
    pub fn scrollback_row(&self, index: usize) -> (r: Option<&[Cell]>)
        ensures
            r is Some <==> index < self@.scrollback.len(),
            r matches Some(cells) ==> row_view(cells@) == self@.scrollback[index as int],
    {
        if index < self.scrollback.len() {
            Some(self.scrollback[index].as_slice())
        } else {
            None
        }
    }

    /// Sets how many rows of history are kept, and drops the oldest rows
    /// beyond that.
    pub fn set_scrollback_limit(&mut self, limit: usize)
        requires
            old(self).wf(),
        ensures
            final(self).wf(),
            final(self)@ == old(self)@.with_scrollback_limit(limit as int),
    {
        self.scrollback_limit = limit;
        trim_history(&mut self.scrollback, limit);
        let saved = self.alternate_state.take();
        match saved {
            Some(mut state) => {
                trim_history(&mut state.scrollback, limit);
                self.alternate_state = Some(state);
            },
            None => {},
        }
    }

    pub fn is_alternate_screen(&self) -> (b: bool)
        ensures
            b == self@.is_alternate(),
    {
        self.alternate_state.is_some()
    }

    pub fn cursor_style(&self) -> (style: CursorStyle)
        ensures
            style == self@.cursor_style,
    {
        self.cursor_style
    }

    pub fn is_bracketed_paste(&self) -> (b: bool)
        ensures
            b == self@.bracketed_paste,
    {
        self.bracketed_paste
    }

    pub fn charset(&self) -> (charset: Charset)
        ensures
            charset == self@.charset,
    {
        self.charset
    }

    pub fn mouse_mode(&self) -> (mode: MouseMode)
        ensures
            mode == self@.mouse_mode,
    {
        self.mouse_mode
    }

    /// The title last set for the window.
    pub fn title(&self) -> (title: &str)
        ensures
            title@ == self@.title,
    {
        self.title.as_str()
    }

    /// First and last row of the scroll region.
    pub fn scroll_region(&self) -> (region: (usize, usize))
        ensures
            region.0 == self@.scroll_top,
            region.1 == self@.scroll_bottom,
    {
        (self.scroll_top, self.scroll_bottom)
    }

    /// The glyph that stands for `c` in the active character set.
    fn translate_char(&self, c: char) -> (glyph: char)
        ensures
            glyph == translate(self@.charset, c),
    {
        match self.charset {
            Charset::LineDrawing => {
                if c == 'j' {
                    '\u{2518}'
                } else if c == 'k' {
                    '\u{2510}'
                } else if c == 'l' {
                    '\u{250c}'
                } else if c == 'm' {
                    '\u{2514}'
                } else if c == 'n' {
                    '\u{253c}'
                } else if c == 'q' {
                    '\u{2500}'
                } else if c == 't' {
                    '\u{251c}'
                } else if c == 'u' {
                    '\u{2524}'
                } else if c == 'v' {
                    '\u{2534}'
                } else if c == 'w' {
                    '\u{252c}'
                } else if c == 'x' {
                    '\u{2502}'
                } else if c == 'a' {
                    '\u{2592}'
                } else {
                    c
                }
            },
            Charset::Ascii => c,
        }
    }

    /// Moves the scroll region up by `n` rows. On the primary screen the
    /// rows that leave its top go to the history.
    fn scroll_region_up(&mut self, n: usize)
        requires
            old(self).wf(),
        ensures
            final(self).wf(),
            final(self)@ == old(self)@.scroll_region_up(n as int),
    {
        let height = self.grid.height();
        let region = self.scroll_bottom - self.scroll_top + 1;
        let count = if n < region {
            n
        } else {
            region
        };
        if self.alternate_state.is_none() {
            save_rows(&mut self.scrollback, &self.grid, self.scroll_top, count);
            trim_history(&mut self.scrollback, self.scrollback_limit);
        }
        self.grid.shift_up(self.scroll_top, self.scroll_bottom, n);
    }

    /// Scrolls the region up by `n` rows and takes the cursor along.
    fn scroll_up(&mut self, n: usize)
        requires
            old(self).wf(),
        ensures
            final(self).wf(),
            final(self)@ == old(self)@.scroll_up(n as int),
    {
        let height = self.grid.height();
        let region = self.scroll_bottom - self.scroll_top + 1;
        let count = if n < region {
            n
        } else {
            region
        };
        self.scroll_region_up(n);
        self.cursor_y = if self.cursor_y >= count && self.cursor_y - count >= self.scroll_top {
            self.cursor_y - count
        } else {
            self.scroll_top
        };
    }

    /// Scrolls the region down by `n` rows and brings the cursor into it.
    fn scroll_down(&mut self, n: usize)
        requires
            old(self).wf(),
        ensures
            final(self).wf(),
            final(self)@ == old(self)@.scroll_down(n as int),
    {
        self.grid.shift_down(self.scroll_top, self.scroll_bottom, n);
        if self.cursor_y < self.scroll_top {
            self.cursor_y = self.scroll_top;
        } else if self.cursor_y > self.scroll_bottom {
            self.cursor_y = self.scroll_bottom;
        }
    }

    /// Moves the cursor down one row, scrolling at the bottom of the region.
    fn line_feed(&mut self)
        requires
            old(self).wf(),
        ensures
            final(self).wf(),
            final(self)@ == old(self)@.line_feed(),
    {
        if self.cursor_y >= self.scroll_bottom {
            self.scroll_region_up(1);
        } else {
            self.cursor_y += 1;
        }
    }

    /// Moves the cursor to the start of the next row.
    fn new_line(&mut self)
        requires
            old(self).wf(),
        ensures
            final(self).wf(),
            final(self)@ == old(self)@.new_line(),
    {
        self.cursor_x = 0;
        self.line_feed();
    }

    /// Writes `c` at the cursor in the current style and moves the cursor on
    /// by one column, wrapping to the next row past the last column. Control
    /// characters are written like any other.
    pub fn write_char(&mut self, c: char)
        requires
            old(self).wf(),
        ensures
            final(self).wf(),
            final(self)@ == old(self)@.put_char(c),
    {
        let glyph = self.translate_char(c);
        let style = self.current_style;
        let hyperlink = match &self.hyperlink {
            Some(link) => Some(link.clone()),
            None => None,
        };
        match self.grid.get_mut(self.cursor_x, self.cursor_y) {
            Some(cell) => {
                cell.character = glyph;
                cell.style = style;
                cell.hyperlink = hyperlink;
            },
            None => {},
        }
        let width = self.grid.width();
        if self.cursor_x + 1 < width {
            self.cursor_x += 1;
        } else {
            self.new_line();
        }
    }

    /// Moves the cursor to the next tab stop, or to the last column if there
    /// is none.
    fn advance_to_next_tab_stop(&mut self)
        requires
            old(self).wf(),
        ensures
            final(self).wf(),
            final(self)@ == old(self)@.tab(),
    {
        let width = self.grid.width();
        let mut x: usize = self.cursor_x + 1;
        while x < width
            invariant
                self.wf(),
                self.cursor_x < x <= width,
                width == self.grid@.width,
                self.tab_stops@.len() == width,
                *self == *old(self),
                next_tab_stop(self.tab_stops@, x as int, width as int) == next_tab_stop(
                    self.tab_stops@,
                    self.cursor_x + 1,
                    width as int,
                ),
            decreases width - x,
        {
            if self.tab_stops[x] {
                self.cursor_x = x;
                return ;
            }
            x += 1;
        }
        self.cursor_x = width - 1;
    }

    /// `position` moved by `delta` and kept within `0..limit`.
    fn offset_within(position: usize, delta: i32, limit: usize) -> (moved: usize)
        requires
            position < limit,
        ensures
            moved == clamp(position + delta, 0, limit - 1),
    {
        if delta >= 0 {
            let forward = delta as usize;
            if forward < limit - position {
                position + forward
            } else {
                limit - 1
            }
        } else {
            let back = (-(delta as i64)) as usize;
            if back <= position {
                position - back
            } else {
                0
            }
        }
    }

    /// Blanks the screen and puts the cursor in the top left corner.
    pub fn clear(&mut self)
        requires
            old(self).wf(),
        ensures
            final(self).wf(),
            final(self)@ == old(self)@.clear_screen(),
    {
        self.grid.clear();
        self.cursor_x = 0;
        self.cursor_y = 0;
    }

    fn erase_display(&mut self, mode: u8)
        requires
            old(self).wf(),
        ensures
            final(self).wf(),
            final(self)@ == old(self)@.erase_display(mode),
    {
        let width = self.grid.width();
        let height = self.grid.height();
        if mode == 0 {
            self.grid.erase_in_row(self.cursor_y, self.cursor_x, width);
            self.grid.erase_rows(self.cursor_y + 1, height);
        } else if mode == 1 {
            self.grid.erase_rows(0, self.cursor_y);
            self.grid.erase_in_row(self.cursor_y, 0, self.cursor_x + 1);
        } else if mode == 2 {
            self.grid.clear();
        }
    }

    fn erase_line(&mut self, mode: u8)
        requires
            old(self).wf(),
        ensures
            final(self).wf(),
            final(self)@ == old(self)@.erase_line(mode),
    {
        let width = self.grid.width();
        if mode == 0 {
            self.grid.erase_in_row(self.cursor_y, self.cursor_x, width);
        } else if mode == 1 {
            self.grid.erase_in_row(self.cursor_y, 0, self.cursor_x + 1);
        } else if mode == 2 {
            self.grid.erase_in_row(self.cursor_y, 0, width);
        }
    }

    fn set_scroll_region(&mut self, top: usize, bottom: usize)
        requires
            old(self).wf(),
        ensures
            final(self).wf(),
            final(self)@ == old(self)@.set_scroll_region(top as int, bottom as int),
    {
        let last = self.grid.height() - 1;
        let first_row = if top < last {
            top
        } else {
            last
        };
        let within = if bottom < last {
            bottom
        } else {
            last
        };
        self.scroll_top = first_row;
        self.scroll_bottom = if within > first_row {
            within
        } else {
            first_row
        };
    }

    fn print(&mut self, c: char)
        requires
            old(self).wf(),
        ensures
            final(self).wf(),
            final(self)@ == old(self)@.print(c),
    {
        if c == '\n' {
            self.new_line();
        } else if c == '\r' {
            self.cursor_x = 0;
        } else if c == '\t' {
            self.advance_to_next_tab_stop();
        } else {
            self.write_char(c);
        }
    }

    fn execute_control(&mut self, byte: u8)
        requires
            old(self).wf(),
        ensures
            final(self).wf(),
            final(self)@ == old(self)@.execute_control(byte),
    {
        if byte == 0x0a {
            self.new_line();
        } else if byte == 0x0d {
            self.cursor_x = 0;
        } else if byte == 0x09 {
            self.advance_to_next_tab_stop();
        } else if byte == 0x08 {
            if self.cursor_x > 0 {
                self.cursor_x -= 1;
            }
        }
    }

    fn move_cursor(&mut self, x: usize, y: usize)
        requires
            old(self).wf(),
        ensures
            final(self).wf(),
            final(self)@ == old(self)@.move_cursor(x as int, y as int),
    {
        let last_column = self.grid.width() - 1;
        let last_row = self.grid.height() - 1;
        self.cursor_x = if x < last_column {
            x
        } else {
            last_column
        };
        self.cursor_y = if y < last_row {
            y
        } else {
            last_row
        };
    }

    fn move_cursor_relative(&mut self, dx: i32, dy: i32)
        requires
            old(self).wf(),
        ensures
            final(self).wf(),
            final(self)@ == old(self)@.move_cursor_relative(dx as int, dy as int),
    {
        let width = self.grid.width();
        let height = self.grid.height();
        self.cursor_x = Self::offset_within(self.cursor_x, dx, width);
        self.cursor_y = Self::offset_within(self.cursor_y, dy, height);
    }

    fn restore_cursor(&mut self)
        requires
            old(self).wf(),
        ensures
            final(self).wf(),
            final(self)@ == old(self)@.restore_cursor(),
    {
        let last_column = self.grid.width() - 1;
        let last_row = self.grid.height() - 1;
        match self.saved_cursor {
            Some((x, y, style)) => {
                self.cursor_x = if x < last_column {
                    x
                } else {
                    last_column
                };
                self.cursor_y = if y < last_row {
                    y
                } else {
                    last_row
                };
                self.current_style = style;
            },
            None => {},
        }
    }

    fn insert_lines(&mut self, n: usize)
        requires
            old(self).wf(),
        ensures
            final(self).wf(),
            final(self)@ == old(self)@.insert_lines(n as int),
    {
        if self.scroll_top <= self.cursor_y && self.cursor_y <= self.scroll_bottom {
            self.grid.shift_down(self.cursor_y, self.scroll_bottom, n);
        }
    }

    fn delete_lines(&mut self, n: usize)
        requires
            old(self).wf(),
        ensures
            final(self).wf(),
            final(self)@ == old(self)@.delete_lines(n as int),
    {
        if self.scroll_top <= self.cursor_y && self.cursor_y <= self.scroll_bottom {
            self.grid.shift_up(self.cursor_y, self.scroll_bottom, n);
        }
    }

    fn erase_chars(&mut self, n: usize)
        requires
            old(self).wf(),
        ensures
            final(self).wf(),
            final(self)@ == old(self)@.erase_chars(n as int),
    {
        let room = self.grid.width() - self.cursor_x;
        let count = if n < room {
            n
        } else {
            room
        };
        self.grid.erase_in_row(self.cursor_y, self.cursor_x, self.cursor_x + count);
    }

    fn reset(&mut self)
        requires
            old(self).wf(),
        ensures
            final(self).wf(),
            final(self)@ == old(self)@.reset(),
    {
        self.grid.clear();
        self.cursor_x = 0;
        self.cursor_y = 0;
        self.current_style = CellStyle::default();
        self.saved_cursor = None;
    }

    /// Queues the reply to a device-attributes query.
    fn report_device_attributes(&mut self)
        requires
            old(self).wf(),
        ensures
            final(self).wf(),
            final(self)@ == (ScreenView {
                responses: old(self)@.responses.push(device_attributes_reply()),
                ..old(self)@
            }),
    {
        let mut reply: Vec<u8> = Vec::new();
        reply.push(0x1b);
        reply.push(0x5b);
        reply.push(0x3f);
        reply.push(0x31);
        reply.push(0x3b);
        reply.push(0x32);
        reply.push(0x63);
        assert(reply@ =~= device_attributes_reply());
        let ghost before = self.pending_responses@;
        self.pending_responses.push(reply);
        assert(replies_view(self.pending_responses@) =~= replies_view(before).push(
            device_attributes_reply(),
        ));
    }

    fn clear_all_tab_stops(&mut self)
        requires
            old(self).wf(),
        ensures
            final(self).wf(),
            final(self)@ == (ScreenView {
                tab_stops: Seq::new(old(self)@.tab_stops.len(), |x: int| false),
                ..old(self)@
            }),
    {
        clear_flags(&mut self.tab_stops);
    }

    /// Executes one command. No command fails: what lies outside the screen
    /// is brought onto it.
    pub fn execute_command(&mut self, cmd: Command)
        requires
            old(self).wf(),
        ensures
            final(self).wf(),
            final(self)@ == old(self)@.step(cmd@),
    {
        match cmd {
            Command::Print(c) => self.print(c),
            Command::Execute(byte) => self.execute_control(byte),
            Command::MoveCursor(x, y) => self.move_cursor(x, y),
            Command::MoveCursorRelative(dx, dy) => self.move_cursor_relative(dx, dy),
            Command::ClearScreen => self.clear(),
            Command::ClearLine => self.erase_line(2),
            Command::RestoreCursor => self.restore_cursor(),
            Command::ScrollUp(n) => self.scroll_up(n),
            Command::ScrollDown(n) => self.scroll_down(n),
            Command::InsertLine(n) => self.insert_lines(n),
            Command::DeleteLine(n) => self.delete_lines(n),
            Command::EraseChars(n) => self.erase_chars(n),
            Command::EraseDisplay(mode) => self.erase_display(mode),
            Command::EraseLine(mode) => self.erase_line(mode),
            Command::Reset => self.reset(),
            Command::EnterAlternateScreen => self.enter_alternate_screen(),
            Command::ExitAlternateScreen => self.exit_alternate_screen(),
            Command::ClearAllTabStops => self.clear_all_tab_stops(),
            Command::DeviceAttributeQuery => self.report_device_attributes(),
            Command::SetScrollRegion { top, bottom } => self.set_scroll_region(top, bottom),
            Command::InsertChars(n) => self.insert_chars(n),
            Command::DeleteChars(n) => self.delete_chars(n),
            setting => self.apply_setting(setting),
        }
    }

    fn insert_chars(&mut self, n: usize)
        requires
            old(self).wf(),
        ensures
            final(self).wf(),
            final(self)@ == (ScreenView {
                grid: old(self)@.grid.insert_cells(
                    old(self)@.cursor_x,
                    old(self)@.cursor_y,
                    n as int,
                ),
                ..old(self)@
            }),
    {
        self.grid.insert_cells(self.cursor_x, self.cursor_y, n);
    }

    fn delete_chars(&mut self, n: usize)
        requires
            old(self).wf(),
        ensures
            final(self).wf(),
            final(self)@ == (ScreenView {
                grid: old(self)@.grid.delete_cells(
                    old(self)@.cursor_x,
                    old(self)@.cursor_y,
                    n as int,
                ),
                ..old(self)@
            }),
    {
        self.grid.delete_cells(self.cursor_x, self.cursor_y, n);
    }

    /// Executes a command that only sets a value of the state, or that
    /// leaves the state as it is.
    fn apply_setting(&mut self, cmd: Command)
        requires
            old(self).wf(),
            cmd is SetStyle || cmd is SetForeground || cmd is SetBackground || cmd is SaveCursor
                || cmd is SetTitle || cmd is SetCursorStyle || cmd is SetBracketedPaste
                || cmd is SetCharset || cmd is SetTabStop || cmd is ClearTabStop
                || cmd is SetHyperlink || cmd is SetMouseMode || cmd is ShowCursor
                || cmd is HideCursor || cmd is Bell,
        ensures
            final(self).wf(),
            final(self)@ == old(self)@.step(cmd@),
    {
        match cmd {
            Command::SetStyle(style) => self.set_style(style),
            Command::SetForeground(fg) => self.set_style(CellStyle { fg, ..self.current_style }),
            Command::SetBackground(bg) => self.set_style(CellStyle { bg, ..self.current_style }),
            Command::SaveCursor => self.save_cursor(),
            Command::SetTitle(title) => self.set_title(title),
            Command::SetCursorStyle(style) => self.set_cursor_style(style),
            Command::SetBracketedPaste(enabled) => self.set_bracketed_paste(enabled),
            Command::SetCharset(charset) => self.set_charset(charset),
            Command::SetTabStop => self.mark_tab_stop(true),
            Command::ClearTabStop => self.mark_tab_stop(false),
            Command::SetHyperlink(link) => self.set_hyperlink(link),
            Command::SetMouseMode(mode) => self.set_mouse_mode(mode),
            _ => {},
        }
    }

    fn set_style(&mut self, style: CellStyle)
        requires
            old(self).wf(),
        ensures
            final(self).wf(),
            final(self)@ == (ScreenView { style, ..old(self)@ }),
    {
        self.current_style = style;
    }

    fn save_cursor(&mut self)
        requires
            old(self).wf(),
        ensures
            final(self).wf(),
            final(self)@ == (ScreenView {
                saved_cursor: Some(
                    (old(self)@.cursor_x, old(self)@.cursor_y, old(self)@.style),
                ),
                ..old(self)@
            }),
    {
        self.saved_cursor = Some((self.cursor_x, self.cursor_y, self.current_style));
    }

    fn set_title(&mut self, title: String)
        requires
            old(self).wf(),
        ensures
            final(self).wf(),
            final(self)@ == (ScreenView { title: title@, ..old(self)@ }),
    {
        self.title = title;
    }

    fn set_cursor_style(&mut self, cursor_style: CursorStyle)
        requires
            old(self).wf(),
        ensures
            final(self).wf(),
            final(self)@ == (ScreenView { cursor_style, ..old(self)@ }),
    {
        self.cursor_style = cursor_style;
    }

    fn set_bracketed_paste(&mut self, bracketed_paste: bool)
        requires
            old(self).wf(),
        ensures
            final(self).wf(),
            final(self)@ == (ScreenView { bracketed_paste, ..old(self)@ }),
    {
        self.bracketed_paste = bracketed_paste;
    }

    fn set_charset(&mut self, charset: Charset)
        requires
            old(self).wf(),
        ensures
            final(self).wf(),
            final(self)@ == (ScreenView { charset, ..old(self)@ }),
    {
        self.charset = charset;
    }

    /// Sets or clears the tab stop of the cursor's column.
    fn mark_tab_stop(&mut self, stop: bool)
        requires
            old(self).wf(),
        ensures
            final(self).wf(),
            final(self)@ == (ScreenView {
                tab_stops: old(self)@.tab_stops.update(old(self)@.cursor_x, stop),
                ..old(self)@
            }),
    {
        self.tab_stops.set(self.cursor_x, stop);
    }

    fn set_hyperlink(&mut self, link: Option<Hyperlink>)
        requires
            old(self).wf(),
        ensures
            final(self).wf(),
            final(self)@ == (ScreenView { hyperlink: link_view(link), ..old(self)@ }),
    {
        self.hyperlink = link;
    }

    fn set_mouse_mode(&mut self, mouse_mode: MouseMode)
        requires
            old(self).wf(),
        ensures
            final(self).wf(),
            final(self)@ == (ScreenView { mouse_mode, ..old(self)@ }),
    {
        self.mouse_mode = mouse_mode;
    }

    /// Brings the screen to a new size. The top left part of the grid is
    /// kept, tab stops and scroll region start afresh, and the cursor stays
    /// on the grid. A screen of no columns or no rows is refused, and
    /// nothing changes.
    pub fn resize(&mut self, width: usize, height: usize) -> (r: Result<(), ResizeError>)
        requires
            old(self).wf(),
            width * height <= usize::MAX,
        ensures
            final(self).wf(),
            width == 0 || height == 0 ==> r == Err::<(), ResizeError>(ResizeError::Empty)
                && final(self)@ == old(self)@,
            width >= 1 && height >= 1 ==> r is Ok && final(self)@ == old(self)@.resized(
                width as int,
                height as int,
            ),
    {
        if width == 0 || height == 0 {
            return Err(ResizeError::Empty);
        }
        self.grid.resize(width, height);
        if self.cursor_x > width - 1 {
            self.cursor_x = width - 1;
        }
        if self.cursor_y > height - 1 {
            self.cursor_y = height - 1;
        }
        self.tab_stops = Self::default_stops(width);
        self.scroll_top = 0;
        self.scroll_bottom = height - 1;
        let saved = self.alternate_state.take();
        match saved {
            Some(mut state) => {
                state.grid.resize(width, height);
                if state.cursor_x > width - 1 {
                    state.cursor_x = width - 1;
                }
                if state.cursor_y > height - 1 {
                    state.cursor_y = height - 1;
                }
                self.alternate_state = Some(state);
            },
            None => {},
        }
        proof {
            self.grid.lemma_view_wf();
        }
        Ok(())
    }

    /// Switches to the alternate screen: grid, cursor, style and history are
    /// put aside and replaced by fresh ones. Does nothing on the alternate
    /// screen.
    pub fn enter_alternate_screen(&mut self)
        requires
            old(self).wf(),
        ensures
            final(self).wf(),
            final(self)@ == old(self)@.enter_alternate(),
    {
        if self.alternate_state.is_some() {
            return ;
        }
        let width = self.grid.width();
        let height = self.grid.height();
        proof {
            self.grid.lemma_size_fits();
        }
        let mut grid = Grid::new(width, height);
        std::mem::swap(&mut grid, &mut self.grid);
        let mut scrollback: VecDeque<Vec<Cell>> = VecDeque::new();
        std::mem::swap(&mut scrollback, &mut self.scrollback);
        let state = AlternateState {
            grid,
            cursor_x: self.cursor_x,
            cursor_y: self.cursor_y,
            current_style: self.current_style,
            scrollback,
        };
        self.alternate_state = Some(Box::new(state));
        self.cursor_x = 0;
        self.cursor_y = 0;
        self.current_style = CellStyle::default();
        proof {
            self.grid.lemma_view_wf();
            assert(self@.scrollback =~= Seq::<Seq<CellView>>::empty());
        }
    }

    /// Switches back to the primary screen: what was put aside on entering
    /// the alternate screen comes back. Does nothing on the primary screen.
    pub fn exit_alternate_screen(&mut self)
        requires
            old(self).wf(),
        ensures
            final(self).wf(),
            final(self)@ == old(self)@.exit_alternate(),
    {
        let saved = self.alternate_state.take();
        match saved {
            Some(state) => {
                let state = *state;
                self.grid = state.grid;
                self.cursor_x = state.cursor_x;
                self.cursor_y = state.cursor_y;
                self.current_style = state.current_style;
                self.scrollback = state.scrollback;
            },
            None => {},
        }
    }

    /// Marks every row clean: what the host calls once it has drawn a frame.
    pub fn clear_dirty(&mut self)
        requires
            old(self).wf(),
        ensures
            final(self).wf(),
            final(self)@ == (ScreenView { grid: old(self)@.grid.all_clean(), ..old(self)@ }),
    {
        self.grid.clear_dirty();
        proof {
            self.grid.lemma_view_wf();
        }
    }

    /// Hands out the replies that are waiting to be sent to the child, oldest
    /// first, and leaves none waiting.
    pub fn drain_responses(&mut self) -> (replies: Vec<Vec<u8>>)
        requires
            old(self).wf(),
        ensures
            final(self).wf(),
            replies_view(replies@) == old(self)@.responses,
            final(self)@ == (ScreenView { responses: Seq::empty(), ..old(self)@ }),
    {
        let mut replies: Vec<Vec<u8>> = Vec::new();
        std::mem::swap(&mut replies, &mut self.pending_responses);
        assert(self@.responses =~= Seq::<Seq<u8>>::empty());
        replies
    }
}

} // verus!
