//! The laws that relate commands to each other: what goes to the history,
//! what the alternate screen leaves alone, and what comes back as it was.

use vstd::prelude::*;

use crate::cell::CellView;
use crate::command::CommandView;
use crate::grid::GridView;
use crate::invariants::{lemma_run_wf, lemma_step_wf};
use crate::screen::{evict, min, ScreenView};
use crate::text_laws::is_printable;

verus! {

/// On the primary screen the history after a command is the history before
/// it, followed by the rows that the command moved off the top of the scroll
/// region, cut back to the limit. `EnterAlternateScreen` is left out: it
/// puts the history aside.
pub proof fn lemma_history_takes_rows_leaving(s: ScreenView, cmd: CommandView)
    requires
        s.wf(),
        !s.is_alternate(),
        cmd != CommandView::EnterAlternateScreen,
    ensures
        s.step(cmd).scrollback == evict(
            s.scrollback + s.rows_leaving(cmd),
            s.scrollback_limit,
        ),
{
    assert(s.scrollback + Seq::<Seq<CellView>>::empty() =~= s.scrollback);
}

/// On the primary screen, and as long as the limit is not reached, the
/// history grows by as many rows as the command moved off the top.
pub proof fn lemma_history_grows_by_rows_leaving(s: ScreenView, cmd: CommandView)
    requires
        s.wf(),
        !s.is_alternate(),
        cmd != CommandView::EnterAlternateScreen,
        s.scrollback.len() + s.rows_leaving(cmd).len() <= s.scrollback_limit,
    ensures
        s.step(cmd).scrollback.len() - s.scrollback.len() == s.rows_leaving(cmd).len(),
{
    lemma_history_takes_rows_leaving(s, cmd);
}

/// None of the commands is `EnterAlternateScreen`.
pub open spec fn stays_on_primary(commands: Seq<CommandView>) -> bool {
    forall|i: int| 0 <= i < commands.len() ==> commands[i] != CommandView::EnterAlternateScreen
}

/// How many rows a list of commands moves off the top of the scroll region,
/// all commands taken together.
pub open spec fn rows_leaving_count(s: ScreenView, commands: Seq<CommandView>) -> int
    decreases commands.len(),
{
    if commands.len() == 0 {
        0
    } else {
        rows_leaving_count(s, commands.drop_last()) + s.run(commands.drop_last()).rows_leaving(
            commands.last(),
        ).len()
    }
}

proof fn lemma_step_stays_on_primary(s: ScreenView, cmd: CommandView)
    requires
        !s.is_alternate(),
        cmd != CommandView::EnterAlternateScreen,
    ensures
        !s.step(cmd).is_alternate(),
{
    match cmd {
        CommandView::Print(c) => {
            assert(s.print(c).alternate == s.alternate);
        },
        CommandView::Execute(byte) => {
            assert(s.execute_control(byte).alternate == s.alternate);
        },
        CommandView::ScrollUp(n) => {},
        CommandView::ScrollDown(n) => {},
        CommandView::ExitAlternateScreen => {},
        CommandView::EraseDisplay(mode) => {},
        CommandView::EraseLine(mode) => {},
        CommandView::InsertLine(n) => {},
        CommandView::DeleteLine(n) => {},
        CommandView::RestoreCursor => {},
        _ => {},
    }
}

/// Commands that are executed entirely on the primary screen, and that do
/// not push the history over its limit, make the history grow by as many
/// rows as they moved off the top.
pub proof fn lemma_history_grows_by_rows_scrolled(s: ScreenView, commands: Seq<CommandView>)
    requires
        s.wf(),
        !s.is_alternate(),
        stays_on_primary(commands),
        s.scrollback.len() + rows_leaving_count(s, commands) <= s.scrollback_limit,
    ensures
        !s.run(commands).is_alternate(),
        s.run(commands).scrollback.len() - s.scrollback.len() == rows_leaving_count(
            s,
            commands,
        ),
    decreases commands.len(),
{
    if commands.len() > 0 {
        let head = commands.drop_last();
        let before = s.run(head);
        lemma_history_grows_by_rows_scrolled(s, head);
        lemma_run_wf(s, head);
        lemma_step_stays_on_primary(before, commands.last());
        lemma_history_takes_rows_leaving(before, commands.last());
    }
}

/// `ScrollUp(n)` moves `n` rows off the top, or as many as the region has.
pub proof fn lemma_rows_leaving_on_scroll(s: ScreenView, n: usize)
    requires
        s.wf(),
    ensures
        s.rows_leaving(CommandView::ScrollUp(n)).len() == min(n as int, s.region_height()),
{
}

/// The rows that a command moves off the top are as wide as the grid.
pub proof fn lemma_rows_leaving_have_grid_width(s: ScreenView, cmd: CommandView, i: int)
    requires
        s.wf(),
        0 <= i < s.rows_leaving(cmd).len(),
    ensures
        s.rows_leaving(cmd)[i].len() == s.grid.width,
{
    match cmd {
        CommandView::Print(c) => {
            if s.cursor_x + 1 >= s.grid.width && s.cursor_y >= s.scroll_bottom {
                assert(s.written(c).grid.wf());
            }
        },
        _ => {},
    }
}

/// Entering the alternate screen from the alternate screen changes nothing,
/// and neither does leaving it from the primary screen.
pub proof fn lemma_alternate_switches_are_idle(s: ScreenView)
    ensures
        s.is_alternate() ==> s.step(CommandView::EnterAlternateScreen) == s,
        !s.is_alternate() ==> s.step(CommandView::ExitAlternateScreen) == s,
{
}

/// On the alternate screen a command other than `ExitAlternateScreen`
/// leaves the history as it is, and what was put aside too.
pub proof fn lemma_alternate_keeps_history(s: ScreenView, cmd: CommandView)
    requires
        s.is_alternate(),
        cmd != CommandView::ExitAlternateScreen,
    ensures
        s.step(cmd).scrollback == s.scrollback,
        s.step(cmd).alternate == s.alternate,
{
    match cmd {
        CommandView::Print(c) => {
            assert(s.print(c).scrollback == s.scrollback);
            assert(s.print(c).alternate == s.alternate);
        },
        CommandView::Execute(byte) => {
            assert(s.execute_control(byte).scrollback == s.scrollback);
            assert(s.execute_control(byte).alternate == s.alternate);
        },
        CommandView::ScrollUp(n) => {},
        CommandView::ScrollDown(n) => {},
        CommandView::EnterAlternateScreen => {},
        CommandView::EraseDisplay(mode) => {},
        CommandView::EraseLine(mode) => {},
        CommandView::InsertLine(n) => {},
        CommandView::DeleteLine(n) => {},
        CommandView::RestoreCursor => {},
        _ => {},
    }
}

/// None of the commands is `ExitAlternateScreen`.
pub open spec fn stays_on_alternate(commands: Seq<CommandView>) -> bool {
    forall|i: int| 0 <= i < commands.len() ==> commands[i] != CommandView::ExitAlternateScreen
}

/// Commands that are executed entirely on the alternate screen leave the
/// history as it is, and what was put aside too.
pub proof fn lemma_alternate_run_keeps_history(s: ScreenView, commands: Seq<CommandView>)
    requires
        s.is_alternate(),
        stays_on_alternate(commands),
    ensures
        s.run(commands).scrollback == s.scrollback,
        s.run(commands).alternate == s.alternate,
    decreases commands.len(),
{
    if commands.len() > 0 {
        lemma_alternate_run_keeps_history(s, commands.drop_last());
        lemma_alternate_keeps_history(s.run(commands.drop_last()), commands.last());
    }
}

/// Entering the alternate screen, executing any commands on it and leaving
/// it again brings back grid, cursor, style and history of the primary
/// screen as they were.
pub proof fn lemma_alternate_round_trip(s: ScreenView, commands: Seq<CommandView>)
    requires
        !s.is_alternate(),
        stays_on_alternate(commands),
    ensures
        ({
            let back = s.enter_alternate().run(commands).exit_alternate();
            &&& !back.is_alternate()
            &&& back.grid == s.grid
            &&& back.cursor_x == s.cursor_x
            &&& back.cursor_y == s.cursor_y
            &&& back.style == s.style
            &&& back.scrollback == s.scrollback
        }),
{
    lemma_alternate_run_keeps_history(s.enter_alternate(), commands);
}

/// Entering the alternate screen twice and leaving it once brings back the
/// state before the first entering, whole.
pub proof fn lemma_double_enter(s: ScreenView)
    requires
        !s.is_alternate(),
    ensures
        s.enter_alternate().enter_alternate().exit_alternate() == s,
{
}

/// Running one command more is running the commands before it and then it.
pub proof fn lemma_run_push(screen: ScreenView, commands: Seq<CommandView>, cmd: CommandView)
    ensures
        screen.run(commands.push(cmd)) == screen.run(commands).step(cmd),
{
    assert(commands.push(cmd).drop_last() =~= commands);
}

/// A command other than `SaveCursor` and `Reset` leaves the saved cursor as
/// it is.
pub open spec fn keeps_saved_cursor(cmd: CommandView) -> bool {
    cmd != CommandView::SaveCursor && cmd != CommandView::Reset
}

proof fn lemma_step_keeps_saved_cursor(s: ScreenView, cmd: CommandView)
    requires
        keeps_saved_cursor(cmd),
    ensures
        s.step(cmd).saved_cursor == s.saved_cursor,
{
    match cmd {
        CommandView::Print(c) => {
            assert(s.print(c).saved_cursor == s.saved_cursor);
        },
        CommandView::Execute(byte) => {
            assert(s.execute_control(byte).saved_cursor == s.saved_cursor);
        },
        CommandView::ScrollUp(n) => {},
        CommandView::ScrollDown(n) => {},
        CommandView::EnterAlternateScreen => {},
        CommandView::ExitAlternateScreen => {},
        CommandView::EraseDisplay(mode) => {},
        CommandView::EraseLine(mode) => {},
        CommandView::InsertLine(n) => {},
        CommandView::DeleteLine(n) => {},
        CommandView::RestoreCursor => {},
        _ => {},
    }
}

proof fn lemma_run_keeps_saved_cursor(s: ScreenView, commands: Seq<CommandView>)
    requires
        forall|i: int| 0 <= i < commands.len() ==> keeps_saved_cursor(commands[i]),
    ensures
        s.run(commands).saved_cursor == s.saved_cursor,
    decreases commands.len(),
{
    if commands.len() > 0 {
        lemma_run_keeps_saved_cursor(s, commands.drop_last());
        lemma_step_keeps_saved_cursor(s.run(commands.drop_last()), commands.last());
    }
}

/// `SaveCursor`, then any commands that move the cursor or change the
/// screen (any but another `SaveCursor` or a `Reset`), then `RestoreCursor`:
/// cursor and style are what they were at the start.
pub proof fn lemma_save_restore(s: ScreenView, commands: Seq<CommandView>)
    requires
        s.wf(),
        forall|i: int| 0 <= i < commands.len() ==> keeps_saved_cursor(commands[i]),
    ensures
        ({
            let back = s.step(CommandView::SaveCursor).run(commands).step(
                CommandView::RestoreCursor,
            );
            &&& back.cursor_x == s.cursor_x
            &&& back.cursor_y == s.cursor_y
            &&& back.style == s.style
        }),
{
    let saved = s.step(CommandView::SaveCursor);
    lemma_step_wf(s, CommandView::SaveCursor);
    lemma_run_keeps_saved_cursor(saved, commands);
    lemma_run_wf(saved, commands);
}

/// A character written into the last cell of the primary screen, whose
/// scroll region reaches the last row, wraps and scrolls: the top row of the
/// region goes to the history, and the cursor stands at the start of the
/// last row.
pub proof fn lemma_write_at_last_cell(s: ScreenView, c: char)
    requires
        s.wf(),
        !s.is_alternate(),
        is_printable(c),
        s.cursor_x == s.grid.width - 1,
        s.cursor_y == s.grid.height - 1,
        s.scroll_bottom == s.grid.height - 1,
    ensures
        s.print(c).cursor_x == 0,
        s.print(c).cursor_y == s.grid.height - 1,
        s.print(c).scrollback == evict(
            s.scrollback.push(s.written(c).grid.rows[s.scroll_top]),
            s.scrollback_limit,
        ),
        s.scrollback.len() < s.scrollback_limit ==> s.print(c).scrollback.len()
            == s.scrollback.len() + 1,
{
    let w = s.written(c);
    assert(w.rows_scrolled_off(1) =~= seq![w.grid.rows[s.scroll_top]]);
    assert(s.scrollback + seq![w.grid.rows[s.scroll_top]] =~= s.scrollback.push(
        w.grid.rows[s.scroll_top],
    ));
}

/// With the cursor in the top left corner, erasing from the cursor to the
/// end of the screen is erasing the whole screen.
pub proof fn lemma_erase_from_origin(s: ScreenView)
    requires
        s.wf(),
        s.cursor_x == 0,
        s.cursor_y == 0,
    ensures
        s.step(CommandView::EraseDisplay(0)) == s.step(CommandView::EraseDisplay(2)),
        s.step(CommandView::EraseDisplay(0)) == s.step(CommandView::ClearScreen),
{
    let w = s.grid.width;
    let h = s.grid.height;
    let erased = s.grid.erase_in_row(0, 0, w).erase_rows(1, h);
    let blank = GridView::blank(w, h);
    assert forall|y: int| 0 <= y < h implies #[trigger] erased.rows[y] =~= blank.rows[y] by {}
    assert(erased.rows =~= blank.rows);
    assert(erased.dirty =~= blank.dirty);
}

/// A resize keeps every cell that lies on both the old and the new grid.
pub proof fn lemma_resize_keeps_cells(s: ScreenView, width: int, height: int, x: int, y: int)
    requires
        s.wf(),
        1 <= width,
        1 <= height,
        0 <= x < min(s.grid.width, width),
        0 <= y < min(s.grid.height, height),
    ensures
        s.resized(width, height).grid.rows[y][x] == s.grid.rows[y][x],
{
}

/// After a resize every cell that did not lie on the old grid is blank.
pub proof fn lemma_resize_blanks_new_cells(s: ScreenView, width: int, height: int, x: int, y: int)
    requires
        s.wf(),
        0 <= x < width,
        0 <= y < height,
        x >= s.grid.width || y >= s.grid.height,
    ensures
        s.resized(width, height).grid.rows[y][x] == crate::cell::blank_cell(),
{
}

/// A resize leaves a well-formed screen well-formed: the cursor is on the
/// new grid.
pub proof fn lemma_resize_wf(s: ScreenView, width: int, height: int)
    requires
        s.wf(),
        1 <= width,
        1 <= height,
    ensures
        s.resized(width, height).wf(),
        s.resized(width, height).grid.width == width,
        s.resized(width, height).grid.height == height,
{
}

} // verus!
