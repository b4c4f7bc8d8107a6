//! What writing a text does to a row.

use vstd::prelude::*;

use crate::cell::CellView;
use crate::command::CommandView;
use crate::laws::lemma_run_push;
use crate::screen::ScreenView;

verus! {

/// A character that `Print` writes: neither line feed, carriage return nor
/// tab.
pub open spec fn is_printable(c: char) -> bool {
    c != '\n' && c != '\r' && c != '\t'
}

/// The command that prints `c`.
pub open spec fn print_command(c: char) -> CommandView {
    CommandView::Print(c)
}

/// One `Print` for each character of a text.
pub open spec fn print_commands(text: Seq<char>) -> Seq<CommandView> {
    Seq::new(text.len(), |i: int| print_command(text[i]))
}

/// The screen with `text` written from the cursor on, in a row that has
/// room for it: the cells under the text show its characters in the current
/// style, and the cursor stands behind it.
pub open spec fn with_text(s: ScreenView, text: Seq<char>) -> ScreenView {
    ScreenView {
        grid: s.grid.with_row(
            s.cursor_y,
            Seq::new(
                s.grid.width as nat,
                |x: int|
                    if s.cursor_x <= x < s.cursor_x + text.len() {
                        CellView {
                            character: crate::screen::translate(s.charset, text[x - s.cursor_x]),
                            style: s.style,
                            hyperlink: s.hyperlink,
                            zerowidth: s.grid.rows[s.cursor_y][x].zerowidth,
                        }
                    } else {
                        s.grid.rows[s.cursor_y][x]
                    },
            ),
        ),
        cursor_x: s.cursor_x + text.len(),
        ..s
    }
}

/// A printable character written before the last column lands at the cursor
/// and moves the cursor right by one.
proof fn lemma_print_one(s: ScreenView, c: char)
    requires
        is_printable(c),
        s.cursor_x + 1 < s.grid.width,
    ensures
        s.step(CommandView::Print(c)) == (ScreenView {
            cursor_x: s.cursor_x + 1,
            ..s.written(c)
        }),
{
}

/// Writing one character behind a text is writing the longer text.
proof fn lemma_with_text_push(s: ScreenView, text: Seq<char>, c: char)
    requires
        s.wf(),
        s.cursor_x + text.len() + 1 < s.grid.width,
    ensures
        (ScreenView {
            cursor_x: s.cursor_x + text.len() + 1,
            ..with_text(s, text).written(c)
        }) == with_text(s, text.push(c)),
{
    let before = with_text(s, text);
    let after = ScreenView { cursor_x: s.cursor_x + text.len() + 1, ..before.written(c) };
    let target = with_text(s, text.push(c));
    assert(after.grid.rows[s.cursor_y] =~= target.grid.rows[s.cursor_y]);
    assert(after.grid.rows =~= target.grid.rows);
    assert(after.grid.dirty =~= target.grid.dirty);
}

/// Writing no text changes nothing but the dirty flag of the cursor's row.
proof fn lemma_with_no_text(s: ScreenView)
    requires
        s.wf(),
    ensures
        with_text(s, Seq::empty()) == (ScreenView { grid: s.grid.touch(s.cursor_y), ..s }),
{
    let target = with_text(s, Seq::empty());
    assert(target.grid.rows[s.cursor_y] =~= s.grid.rows[s.cursor_y]);
    assert(target.grid.rows =~= s.grid.rows);
}

/// Writing a text of printable characters that ends before the last column
/// moves the cursor right by its length and puts its characters into the
/// cells it passed. The rest of the row, and of the screen, is as it was: on
/// a blank row the text is followed by blank cells.
pub proof fn lemma_print_text(s: ScreenView, text: Seq<char>)
    requires
        s.wf(),
        text.len() > 0,
        s.cursor_x + text.len() < s.grid.width,
        forall|i: int| 0 <= i < text.len() ==> is_printable(text[i]),
    ensures
        s.run(print_commands(text)) == with_text(s, text),
    decreases text.len(),
{
    let head = text.drop_last();
    let c = text.last();
    assert(text =~= head.push(c));
    assert(print_commands(text) =~= print_commands(head).push(CommandView::Print(c)));
    lemma_run_push(s, print_commands(head), CommandView::Print(c));
    if head.len() == 0 {
        assert(head =~= Seq::<char>::empty());
        assert(print_commands(head) =~= Seq::<CommandView>::empty());
        assert(s.run(print_commands(head)) == s);
        lemma_print_one(s, c);
        lemma_with_no_text(s);
        lemma_with_text_push(s, head, c);
        let touched = ScreenView { grid: s.grid.touch(s.cursor_y), ..s };
        assert(touched.written(c).grid.dirty =~= s.written(c).grid.dirty);
        assert(touched.written(c) == s.written(c));
    } else {
        lemma_print_text(s, head);
        lemma_print_one(with_text(s, head), c);
        lemma_with_text_push(s, head, c);
    }
}

} // verus!
