//! What the dispatches of the escape-sequence state machine mean: for each
//! one, the commands it is decoded into.
//!
//! The state machine itself is the `vte` crate's; `ActionView` lists what it
//! hands over, and `PerformerView::perform` says what the performer makes of
//! it. The performer's code is proved against these definitions.

use vstd::prelude::*;
use vstd::utf8::{decode_utf8, valid_utf8};

use crate::cell::{
    default_style, generated_link_id, CellStyle, Color, HyperlinkView, UnderlineStyle,
};
use crate::command::{Charset, CommandView, CursorStyle, MouseMode};
use crate::palette::{base_color, bright_color, palette_color};

verus! {

/// One dispatch of the state machine, with what it carries.
pub enum ActionView {
    /// A character to draw.
    Print(char),
    /// A C0 or C1 control.
    Execute(u8),
    /// An operating system command: its parameters, which `;` separated.
    Osc { strings: Seq<Seq<u8>>, bell_terminated: bool },
    /// A control sequence: its parameters, each with its subparameters, its
    /// intermediate bytes and its final character.
    Csi { params: Seq<Seq<u16>>, intermediates: Seq<u8>, ignore: bool, action: char },
    /// An escape sequence: its intermediate bytes and its final byte.
    Esc { intermediates: Seq<u8>, ignore: bool, byte: u8 },
}

/// The state of a performer: the commands decoded so far, the style that
/// SGR sequences build up, and the serial number for the next link that
/// comes without an identifier.
pub struct PerformerView {
    pub commands: Seq<CommandView>,
    pub style: CellStyle,
    pub link_serial: u32,
}

/// The first value of parameter `index`, or `default` where the sequence has
/// no such parameter.
pub open spec fn param_or(params: Seq<Seq<u16>>, index: int, default: u16) -> u16 {
    if 0 <= index < params.len() && params[index].len() > 0 {
        params[index][0]
    } else {
        default
    }
}

/// `n - 1`, or 0 for 0: a position counted from 1 as one counted from 0.
pub open spec fn from_one_based(n: u16) -> usize {
    if n == 0 {
        0
    } else {
        (n - 1) as usize
    }
}

/// The parameters of a sequence in one row, subparameters in place.
pub open spec fn flatten(params: Seq<Seq<u16>>) -> Seq<u16>
    decreases params.len(),
{
    if params.len() == 0 {
        Seq::empty()
    } else {
        flatten(params.drop_last()) + params.last()
    }
}

/// The low eight bits of a parameter.
pub open spec fn low_byte(n: u16) -> u8 {
    (n % 256) as u8
}

/// The underline that subparameter `n` of SGR 4 selects.
pub open spec fn underline_style(n: u16) -> UnderlineStyle {
    if n == 0 {
        UnderlineStyle::Off
    } else if n == 1 {
        UnderlineStyle::Single
    } else if n == 2 {
        UnderlineStyle::Double
    } else if n == 3 {
        UnderlineStyle::Curly
    } else if n == 4 {
        UnderlineStyle::Dotted
    } else if n == 5 {
        UnderlineStyle::Dashed
    } else {
        UnderlineStyle::Single
    }
}

/// The color that an extended-color parameter (38 or 48) at position `i`
/// selects, and the number of parameters it takes up after its own:
/// `5;n` is color `n` of the palette, `2;r;g;b` is an RGB color. Nothing
/// where the parameters that follow do not have one of these forms.
pub open spec fn extended_color(flat: Seq<u16>, i: int) -> Option<(Color, int)> {
    if i + 1 >= flat.len() {
        None
    } else if flat[i + 1] == 5 {
        if i + 2 < flat.len() {
            Some((palette_color(low_byte(flat[i + 2]) as int), 2))
        } else {
            None
        }
    } else if flat[i + 1] == 2 {
        if i + 4 < flat.len() {
            Some(
                (
                    Color {
                        r: low_byte(flat[i + 2]),
                        g: low_byte(flat[i + 3]),
                        b: low_byte(flat[i + 4]),
                    },
                    4,
                ),
            )
        } else {
            None
        }
    } else {
        None
    }
}

impl PerformerView {
    /// The state with one more command.
    pub open spec fn emit(self, cmd: CommandView) -> PerformerView {
        PerformerView { commands: self.commands.push(cmd), ..self }
    }

    pub open spec fn with_style(self, style: CellStyle) -> PerformerView {
        PerformerView { style, ..self }
    }

    /// A new foreground color: it enters the style and is reported.
    pub open spec fn foreground(self, fg: Color) -> PerformerView {
        self.with_style(CellStyle { fg, ..self.style }).emit(CommandView::SetForeground(fg))
    }

    /// A new background color: it enters the style and is reported.
    pub open spec fn background(self, bg: Color) -> PerformerView {
        self.with_style(CellStyle { bg, ..self.style }).emit(CommandView::SetBackground(bg))
    }

    /// The state after the SGR parameter at position `i`.
    pub open spec fn sgr_param(self, flat: Seq<u16>, i: int) -> PerformerView {
        let p = flat[i];
        let s = self.style;
        if p == 0 {
            self.with_style(default_style())
        } else if p == 1 {
            self.with_style(CellStyle { bold: true, ..s })
        } else if p == 2 {
            self.with_style(CellStyle { dim: true, ..s })
        } else if p == 3 {
            self.with_style(CellStyle { italic: true, ..s })
        } else if p == 4 {
            if i + 1 < flat.len() && flat[i + 1] <= 5 {
                self.with_style(CellStyle { underline: underline_style(flat[i + 1]), ..s })
            } else {
                self.with_style(CellStyle { underline: UnderlineStyle::Single, ..s })
            }
        } else if p == 7 {
            self.with_style(CellStyle { reverse: true, ..s })
        } else if p == 8 {
            self.with_style(CellStyle { hidden: true, ..s })
        } else if p == 9 {
            self.with_style(CellStyle { strikethrough: true, ..s })
        } else if p == 22 {
            self.with_style(CellStyle { bold: false, dim: false, ..s })
        } else if p == 23 {
            self.with_style(CellStyle { italic: false, ..s })
        } else if p == 24 {
            self.with_style(CellStyle { underline: UnderlineStyle::Off, ..s })
        } else if p == 27 {
            self.with_style(CellStyle { reverse: false, ..s })
        } else if p == 28 {
            self.with_style(CellStyle { hidden: false, ..s })
        } else if p == 29 {
            self.with_style(CellStyle { strikethrough: false, ..s })
        } else if 30 <= p <= 37 {
            self.foreground(base_color(p - 30))
        } else if p == 38 {
            match extended_color(flat, i) {
                Some((color, _)) => self.foreground(color),
                None => self,
            }
        } else if p == 39 {
            self.foreground(Color { r: 255, g: 255, b: 255 })
        } else if 40 <= p <= 47 {
            self.background(base_color(p - 40))
        } else if p == 48 {
            match extended_color(flat, i) {
                Some((color, _)) => self.background(color),
                None => self,
            }
        } else if p == 49 {
            self.background(Color { r: 0, g: 0, b: 0 })
        } else if 90 <= p <= 97 {
            self.foreground(bright_color(p - 90))
        } else if 100 <= p <= 107 {
            self.background(bright_color(p - 100))
        } else {
            self
        }
    }

    /// How many parameters the SGR parameter at position `i` takes up, its
    /// own included.
    pub open spec fn sgr_width(flat: Seq<u16>, i: int) -> int {
        let p = flat[i];
        if p == 4 && i + 1 < flat.len() && flat[i + 1] <= 5 {
            2
        } else if p == 38 || p == 48 {
            match extended_color(flat, i) {
                Some((_, taken)) => 1 + taken,
                None => 1,
            }
        } else {
            1
        }
    }

    /// The state after the SGR parameters from position `i` on, read from
    /// left to right.
    pub open spec fn sgr_from(self, flat: Seq<u16>, i: int) -> PerformerView
        decreases flat.len() - i,
    {
        if i < 0 || i >= flat.len() {
            self
        } else {
            self.sgr_param(flat, i).sgr_from(flat, i + Self::sgr_width(flat, i))
        }
    }

    /// `CSI … m`: the parameters change the style one after the other, and
    /// the style that results is reported in one `SetStyle`. Without any
    /// parameter the style is reset.
    pub open spec fn sgr(self, params: Seq<Seq<u16>>) -> PerformerView {
        if params.len() == 0 {
            self.with_style(default_style()).emit(CommandView::SetStyle(default_style()))
        } else {
            let after = self.sgr_from(flatten(params), 0);
            after.emit(CommandView::SetStyle(after.style))
        }
    }

    /// What a dispatch of the state machine makes of the state.
    pub open spec fn perform(self, action: ActionView) -> PerformerView {
        match action {
            ActionView::Print(c) => self.emit(character_command(c)),
            ActionView::Execute(byte) => self.emit(execute_command(byte)),
            ActionView::Osc { strings, bell_terminated } => self.osc(strings),
            ActionView::Csi { params, intermediates, ignore, action } => self.csi(
                params,
                intermediates,
                action,
            ),
            ActionView::Esc { intermediates, ignore, byte } => match esc_command(
                intermediates,
                byte,
            ) {
                Some(cmd) => self.emit(cmd),
                None => self,
            },
        }
    }

    /// What a list of dispatches makes of the state, one after the other.
    pub open spec fn perform_all(self, actions: Seq<ActionView>) -> PerformerView
        decreases actions.len(),
    {
        if actions.len() == 0 {
            self
        } else {
            self.perform_all(actions.drop_last()).perform(actions.last())
        }
    }

    /// A control sequence. One with the private marker `?` sets or resets a
    /// mode; `m` selects the graphic rendition; every other one is at most
    /// one command.
    pub open spec fn csi(self, params: Seq<Seq<u16>>, intermediates: Seq<u8>, action: char)
        -> PerformerView {
        if intermediates.len() > 0 && intermediates[0] == 0x3f {
            match private_mode_command(param_or(params, 0, 0), action) {
                Some(cmd) => self.emit(cmd),
                None => self,
            }
        } else if action == 'm' {
            self.sgr(params)
        } else {
            match csi_command(params, intermediates, action) {
                Some(cmd) => self.emit(cmd),
                None => self,
            }
        }
    }

    /// A link to `uri` is opened. It is known by the identifier that `key`
    /// names. Where `key` names none, it is known by one generated from the
    /// serial number, which then moves on by one (and from the greatest
    /// number back to 0).
    pub open spec fn open_link(self, key: Seq<u8>, uri: Seq<char>) -> PerformerView {
        match link_id(key) {
            Some(id) => self.emit(CommandView::SetHyperlink(Some(HyperlinkView { id, uri }))),
            None => PerformerView {
                link_serial: if self.link_serial == u32::MAX {
                    0
                } else {
                    (self.link_serial + 1) as u32
                },
                ..self.emit(
                    CommandView::SetHyperlink(
                        Some(HyperlinkView { id: generated_link_id(self.link_serial), uri }),
                    ),
                )
            },
        }
    }

    /// An operating system command. OSC 0 and OSC 2 set the title; OSC 8
    /// opens a link, or closes the open one where the address is empty.
    /// Texts that are not UTF-8 make the command void.
    pub open spec fn osc(self, params: Seq<Seq<u8>>) -> PerformerView {
        if params.len() == 0 {
            self
        } else if params[0] == seq![0x30u8] || params[0] == seq![0x32u8] {
            if params.len() > 1 && valid_utf8(params[1]) {
                self.emit(CommandView::SetTitle(decode_utf8(params[1])))
            } else {
                self
            }
        } else if params[0] == seq![0x38u8] {
            if params.len() > 2 && valid_utf8(params[2]) {
                let uri = decode_utf8(params[2]);
                if uri.len() == 0 {
                    self.emit(CommandView::SetHyperlink(None))
                } else {
                    self.open_link(params[1], uri)
                }
            } else {
                self
            }
        } else {
            self
        }
    }
}

/// The command for a character: DEL is a control and is executed, every
/// other character is printed.
pub open spec fn character_command(c: char) -> CommandView {
    if c == '\u{7f}' {
        CommandView::Execute(0x7f)
    } else {
        CommandView::Print(c)
    }
}

/// The command for a control byte: the bell has one of its own.
pub open spec fn execute_command(byte: u8) -> CommandView {
    if byte == 0x07 {
        CommandView::Bell
    } else {
        CommandView::Execute(byte)
    }
}

/// The command for an escape sequence, if it has one.
pub open spec fn esc_command(intermediates: Seq<u8>, byte: u8) -> Option<CommandView> {
    if intermediates.len() > 0 && intermediates[0] == 0x28 && byte == 0x30 {
        Some(CommandView::SetCharset(Charset::LineDrawing))
    } else if intermediates.len() > 0 && intermediates[0] == 0x28 && byte == 0x42 {
        Some(CommandView::SetCharset(Charset::Ascii))
    } else if byte == 0x63 {
        Some(CommandView::Reset)
    } else if byte == 0x37 {
        Some(CommandView::SaveCursor)
    } else if byte == 0x38 {
        Some(CommandView::RestoreCursor)
    } else if byte == 0x48 {
        Some(CommandView::SetTabStop)
    } else {
        None
    }
}

/// The command for setting (`h`) or resetting (`l`) a private mode, if the
/// mode is one the terminal knows.
pub open spec fn private_mode_command(mode: u16, action: char) -> Option<CommandView> {
    if action == 'h' {
        if mode == 1049 || mode == 47 || mode == 1047 {
            Some(CommandView::EnterAlternateScreen)
        } else if mode == 2004 {
            Some(CommandView::SetBracketedPaste(true))
        } else if mode == 25 {
            Some(CommandView::ShowCursor)
        } else if mode == 9 || mode == 1000 {
            Some(CommandView::SetMouseMode(MouseMode::ReportClick))
        } else if mode == 1002 {
            Some(CommandView::SetMouseMode(MouseMode::ReportMotion))
        } else if mode == 1003 {
            Some(CommandView::SetMouseMode(MouseMode::ReportAll))
        } else {
            None
        }
    } else if action == 'l' {
        if mode == 1049 || mode == 47 || mode == 1047 {
            Some(CommandView::ExitAlternateScreen)
        } else if mode == 2004 {
            Some(CommandView::SetBracketedPaste(false))
        } else if mode == 25 {
            Some(CommandView::HideCursor)
        } else if mode == 9 || mode == 1000 || mode == 1002 || mode == 1003 {
            Some(CommandView::SetMouseMode(MouseMode::Off))
        } else {
            None
        }
    } else {
        None
    }
}

/// The cursor style that `CSI n SP q` selects.
pub open spec fn cursor_style(n: u16) -> CursorStyle {
    if n == 2 {
        CursorStyle::SteadyBlock
    } else if n == 3 {
        CursorStyle::BlinkUnderline
    } else if n == 4 {
        CursorStyle::SteadyUnderline
    } else if n == 5 {
        CursorStyle::BlinkBar
    } else if n == 6 {
        CursorStyle::SteadyBar
    } else {
        CursorStyle::BlinkBlock
    }
}

/// The command for a control sequence that is neither private nor SGR, if
/// its final character is one the terminal knows. A count that is left out
/// is 1, a mode that is left out is 0, and positions count from 1.
pub open spec fn csi_command(params: Seq<Seq<u16>>, intermediates: Seq<u8>, action: char)
    -> Option<CommandView> {
    let count = param_or(params, 0, 1);
    let mode = param_or(params, 0, 0);
    if action == 'A' {
        Some(CommandView::MoveCursorRelative(0, (0 - count) as i32))
    } else if action == 'B' {
        Some(CommandView::MoveCursorRelative(0, count as i32))
    } else if action == 'C' {
        Some(CommandView::MoveCursorRelative(count as i32, 0))
    } else if action == 'D' {
        Some(CommandView::MoveCursorRelative((0 - count) as i32, 0))
    } else if action == 'H' || action == 'f' {
        Some(
            CommandView::MoveCursor(
                from_one_based(param_or(params, 1, 1)),
                from_one_based(param_or(params, 0, 1)),
            ),
        )
    } else if action == 'J' {
        if low_byte(mode) == 2 {
            Some(CommandView::ClearScreen)
        } else {
            Some(CommandView::EraseDisplay(low_byte(mode)))
        }
    } else if action == 'K' {
        Some(CommandView::EraseLine(low_byte(mode)))
    } else if action == 'L' {
        Some(CommandView::InsertLine(count as usize))
    } else if action == 'M' {
        Some(CommandView::DeleteLine(count as usize))
    } else if action == '@' {
        Some(CommandView::InsertChars(count as usize))
    } else if action == 'P' {
        Some(CommandView::DeleteChars(count as usize))
    } else if action == 'S' {
        Some(CommandView::ScrollUp(count as usize))
    } else if action == 'T' {
        Some(CommandView::ScrollDown(count as usize))
    } else if action == 's' {
        Some(CommandView::SaveCursor)
    } else if action == 'u' {
        Some(CommandView::RestoreCursor)
    } else if action == 'g' {
        if mode == 0 {
            Some(CommandView::ClearTabStop)
        } else if mode == 3 {
            Some(CommandView::ClearAllTabStops)
        } else {
            None
        }
    } else if action == 'q' {
        if intermediates.len() > 0 && intermediates[0] == 0x20 {
            Some(CommandView::SetCursorStyle(cursor_style(mode)))
        } else {
            None
        }
    } else if action == 'c' {
        Some(CommandView::DeviceAttributeQuery)
    } else if action == 'r' {
        let bottom = param_or(params, 1, 0);
        Some(
            CommandView::SetScrollRegion {
                top: from_one_based(param_or(params, 0, 1)),
                bottom: if bottom == 0 {
                    usize::MAX
                } else {
                    (bottom - 1) as usize
                },
            },
        )
    } else {
        None
    }
}

/// Where the part of `bytes` that starts at `from` and ends before the next
/// `;` ends.
pub open spec fn segment_end(bytes: Seq<u8>, from: int) -> int
    decreases bytes.len() - from,
{
    if from >= bytes.len() || bytes[from] == 0x3b {
        from
    } else {
        segment_end(bytes, from + 1)
    }
}

/// Whether the bytes from `from` on start with `id=`.
pub open spec fn is_id_key(bytes: Seq<u8>, from: int, end: int) -> bool {
    &&& from + 3 <= end
    &&& bytes[from] == 0x69
    &&& bytes[from + 1] == 0x64
    &&& bytes[from + 2] == 0x3d
}

/// The bytes of the value of the first `id=` among the parts of `bytes`
/// that `;` separates, looking from `from` on.
pub open spec fn link_id_bytes(bytes: Seq<u8>, from: int) -> Option<Seq<u8>>
    decreases bytes.len() - from,
{
    if from < 0 || from > bytes.len() {
        None
    } else {
        let end = segment_end(bytes, from);
        if is_id_key(bytes, from, end) {
            Some(bytes.subrange(from + 3, end))
        } else if end < from || end >= bytes.len() {
            None
        } else {
            link_id_bytes(bytes, end + 1)
        }
    }
}

/// The identifier that the parameters of a link name: the value of their
/// first `id=`. None where they are not UTF-8 or name none.
pub open spec fn link_id(bytes: Seq<u8>) -> Option<Seq<char>> {
    if valid_utf8(bytes) {
        match link_id_bytes(bytes, 0) {
            Some(id) => if valid_utf8(id) {
                Some(decode_utf8(id))
            } else {
                None
            },
            None => None,
        }
    } else {
        None
    }
}

/// `CSI 0 m` puts the style back to the default one, whatever it was
/// before, and reports just that.
pub proof fn lemma_sgr_reset(p: PerformerView)
    ensures
        p.sgr(seq![seq![0u16]]).style == default_style(),
        p.sgr(seq![seq![0u16]]).commands == p.commands.push(
            CommandView::SetStyle(default_style()),
        ),
{
    let params = seq![seq![0u16]];
    let flat = seq![0u16];
    assert(params.drop_last() =~= Seq::<Seq<u16>>::empty());
    assert(flatten(params.drop_last()) =~= Seq::<u16>::empty());
    assert(flatten(params) =~= flat);
    let reset = p.sgr_param(flat, 0);
    assert(reset == p.with_style(default_style()));
    assert(PerformerView::sgr_width(flat, 0) == 1);
    assert(reset.sgr_from(flat, 1) == reset);
    assert(p.sgr_from(flat, 0) == reset);
}

} // verus!
