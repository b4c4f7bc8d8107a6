//! What holds of the screen whatever commands it is given: the cursor is on
//! the grid, and no history is longer than its limit.

use vstd::prelude::*;

use crate::cell::CellView;
use crate::command::CommandView;
use crate::grid::GridView;
use crate::screen::{evict, min, next_tab_stop, ScreenView};

verus! {

/// The next tab stop lies on the row, and not before where the search began.
pub proof fn lemma_next_tab_stop_on_row(stops: Seq<bool>, from: int, width: int)
    requires
        0 <= from,
        1 <= width,
    ensures
        0 <= next_tab_stop(stops, from, width) < width,
        from < width ==> from <= next_tab_stop(stops, from, width),
    decreases width - from,
{
    if from < width && !stops[from] {
        lemma_next_tab_stop_on_row(stops, from + 1, width);
    }
}

/// Moving the rows of a range leaves a grid well-formed.
pub proof fn lemma_shift_wf(g: GridView, top: int, bottom: int, n: int)
    requires
        g.wf(),
        0 <= top,
        bottom < g.height,
        0 <= n,
    ensures
        g.shift_up(top, bottom, n).wf(),
        g.shift_down(top, bottom, n).wf(),
{
}

/// Erasing and editing cells leaves a grid well-formed.
pub proof fn lemma_grid_edits_wf(g: GridView, a: int, b: int, n: int)
    requires
        g.wf(),
    ensures
        g.erase_rows(a, b).wf(),
        GridView::blank(g.width, g.height).wf(),
        0 <= b < g.height ==> g.erase_in_row(b, a, n).wf(),
        0 <= b < g.height ==> g.insert_cells(a, b, n).wf(),
        0 <= b < g.height ==> g.delete_cells(a, b, n).wf(),
{
}

/// `t` is a well-formed screen of the size and history limit of `s`.
pub open spec fn keeps_shape(s: ScreenView, t: ScreenView) -> bool {
    &&& t.wf()
    &&& t.grid.width == s.grid.width
    &&& t.grid.height == s.grid.height
    &&& t.scrollback_limit == s.scrollback_limit
}

/// A history cut back to a limit is no longer than the limit.
pub proof fn lemma_evict_len(rows: Seq<Seq<CellView>>, limit: int)
    requires
        0 <= limit,
    ensures
        evict(rows, limit).len() <= limit,
        evict(rows, limit).len() <= rows.len(),
{
}

proof fn lemma_scroll_region_up_wf(s: ScreenView, n: int)
    requires
        s.wf(),
        0 <= n,
    ensures
        keeps_shape(s, s.scroll_region_up(n)),
        keeps_shape(s, s.scroll_up(n)),
        keeps_shape(s, s.scroll_down(n)),
{
    lemma_shift_wf(s.grid, s.scroll_top, s.scroll_bottom, n);
    lemma_evict_len(s.scrollback + s.rows_scrolled_off(n), s.scrollback_limit);
}

proof fn lemma_print_wf(s: ScreenView, c: char)
    requires
        s.wf(),
    ensures
        keeps_shape(s, s.print(c)),
        keeps_shape(s, s.put_char(c)),
        keeps_shape(s, s.new_line()),
        keeps_shape(s, s.tab()),
{
    lemma_next_tab_stop_on_row(s.tab_stops, s.cursor_x + 1, s.grid.width);
    let home = ScreenView { cursor_x: 0, ..s };
    lemma_scroll_region_up_wf(home, 1);
    assert(s.written(c).wf());
    lemma_scroll_region_up_wf(ScreenView { cursor_x: 0, ..s.written(c) }, 1);
}

proof fn lemma_erase_wf(s: ScreenView, mode: u8, n: int)
    requires
        s.wf(),
    ensures
        keeps_shape(s, s.erase_display(mode)),
        keeps_shape(s, s.erase_line(mode)),
        keeps_shape(s, s.erase_chars(n)),
        keeps_shape(s, s.clear_screen()),
        keeps_shape(s, s.reset()),
{
    let w = s.grid.width;
    let h = s.grid.height;
    lemma_grid_edits_wf(s.grid, s.cursor_x, s.cursor_y, w);
    lemma_grid_edits_wf(s.grid.erase_in_row(s.cursor_y, s.cursor_x, w), s.cursor_y + 1, h, 0);
    lemma_grid_edits_wf(s.grid, 0, s.cursor_y, 0);
    lemma_grid_edits_wf(s.grid.erase_rows(0, s.cursor_y), 0, s.cursor_y, s.cursor_x + 1);
    lemma_grid_edits_wf(s.grid, 0, s.cursor_y, s.cursor_x + 1);
    lemma_grid_edits_wf(s.grid, 0, s.cursor_y, w);
    lemma_grid_edits_wf(s.grid, s.cursor_x, s.cursor_y, s.cursor_x + min(n, w - s.cursor_x));
}

proof fn lemma_line_edits_wf(s: ScreenView, n: int)
    requires
        s.wf(),
        0 <= n,
    ensures
        keeps_shape(s, s.insert_lines(n)),
        keeps_shape(s, s.delete_lines(n)),
        keeps_shape(s, (ScreenView { grid: s.grid.insert_cells(s.cursor_x, s.cursor_y, n), ..s })),
        keeps_shape(s, (ScreenView { grid: s.grid.delete_cells(s.cursor_x, s.cursor_y, n), ..s })),
{
    if s.cursor_in_region() && 0 <= n {
        lemma_shift_wf(s.grid, s.cursor_y, s.scroll_bottom, n);
    }
    lemma_grid_edits_wf(s.grid, s.cursor_x, s.cursor_y, n);
}

proof fn lemma_alternate_wf(s: ScreenView)
    requires
        s.wf(),
    ensures
        keeps_shape(s, s.enter_alternate()),
        keeps_shape(s, s.exit_alternate()),
{
    lemma_grid_edits_wf(s.grid, 0, 0, 0);
}

/// A command leaves a well-formed screen well-formed, and of the same size:
/// after it the cursor is on the grid and no history is longer than the
/// limit.
pub proof fn lemma_step_wf(s: ScreenView, cmd: CommandView)
    requires
        s.wf(),
    ensures
        keeps_shape(s, s.step(cmd)),
{
    match cmd {
        CommandView::Print(c) => {
            lemma_print_wf(s, c);
        },
        CommandView::Execute(b) => {
            lemma_print_wf(s, ' ');
        },
        CommandView::ClearScreen => {
            lemma_erase_wf(s, 0, 0);
        },
        CommandView::ClearLine => {
            lemma_erase_wf(s, 2, 0);
        },
        CommandView::ScrollUp(n) => {
            lemma_scroll_region_up_wf(s, n as int);
        },
        CommandView::ScrollDown(n) => {
            lemma_scroll_region_up_wf(s, n as int);
        },
        CommandView::InsertLine(n) => {
            lemma_line_edits_wf(s, n as int);
        },
        CommandView::DeleteLine(n) => {
            lemma_line_edits_wf(s, n as int);
        },
        CommandView::EraseChars(n) => {
            lemma_erase_wf(s, 0, n as int);
        },
        CommandView::EraseDisplay(mode) => {
            lemma_erase_wf(s, mode, 0);
        },
        CommandView::EraseLine(mode) => {
            lemma_erase_wf(s, mode, 0);
        },
        CommandView::Reset => {
            lemma_erase_wf(s, 0, 0);
        },
        CommandView::EnterAlternateScreen => {
            lemma_alternate_wf(s);
        },
        CommandView::ExitAlternateScreen => {
            lemma_alternate_wf(s);
        },
        CommandView::InsertChars(n) => {
            lemma_line_edits_wf(s, n as int);
        },
        CommandView::DeleteChars(n) => {
            lemma_line_edits_wf(s, n as int);
        },
        CommandView::MoveCursor(x, y) => {
            assert(keeps_shape(s, s.step(cmd)));
        },
        CommandView::MoveCursorRelative(dx, dy) => {
            assert(keeps_shape(s, s.step(cmd)));
        },
        CommandView::RestoreCursor => {
            assert(keeps_shape(s, s.step(cmd)));
        },
        CommandView::SetScrollRegion { top, bottom } => {
            assert(keeps_shape(s, s.step(cmd)));
        },
        CommandView::SetTabStop => {
            assert(keeps_shape(s, s.step(cmd)));
        },
        CommandView::ClearTabStop => {
            assert(keeps_shape(s, s.step(cmd)));
        },
        CommandView::ClearAllTabStops => {
            assert(keeps_shape(s, s.step(cmd)));
        },
        _ => {
            assert(keeps_shape(s, s.step(cmd)));
        },
    }
}

/// Any list of commands leaves a well-formed screen well-formed, and of the
/// same size.
pub proof fn lemma_run_wf(s: ScreenView, commands: Seq<CommandView>)
    requires
        s.wf(),
    ensures
        keeps_shape(s, s.run(commands)),
    decreases commands.len(),
{
    if commands.len() > 0 {
        lemma_run_wf(s, commands.drop_last());
        lemma_step_wf(s.run(commands.drop_last()), commands.last());
    }
}

/// A new screen is well-formed.
pub proof fn lemma_initial_wf(width: int, height: int)
    requires
        1 <= width,
        1 <= height,
    ensures
        ScreenView::initial(width, height).wf(),
{
}

/// Whatever commands a new screen is given, the cursor stays on the grid.
pub proof fn lemma_cursor_stays_on_screen(width: int, height: int, commands: Seq<CommandView>)
    requires
        1 <= width,
        1 <= height,
    ensures
        0 <= ScreenView::initial(width, height).run(commands).cursor_x < width,
        0 <= ScreenView::initial(width, height).run(commands).cursor_y < height,
{
    lemma_initial_wf(width, height);
    lemma_run_wf(ScreenView::initial(width, height), commands);
}

/// Whatever commands a new screen is given, its history is no longer than
/// the limit.
pub proof fn lemma_history_within_limit(width: int, height: int, commands: Seq<CommandView>)
    requires
        1 <= width,
        1 <= height,
    ensures
        ScreenView::initial(width, height).run(commands).scrollback.len()
            <= ScreenView::initial(width, height).run(commands).scrollback_limit,
{
    lemma_initial_wf(width, height);
    lemma_run_wf(ScreenView::initial(width, height), commands);
}

} // verus!
