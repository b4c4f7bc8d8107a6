//! The performer: it receives the dispatches of the escape-sequence state
//! machine and turns each into commands.

use vstd::prelude::*;
use vstd::slice::slice_subrange;
use vstd::string::StringExecFns;

use crate::action::{actions_view, strings_view, Action};
use crate::cell::{CellStyle, Color, Hyperlink, UnderlineStyle};
use crate::command::{commands_view, Charset, Command, CursorStyle, MouseMode};
use crate::decode::{
    character_command, esc_command, execute_command, extended_color, flatten, from_one_based,
    link_id, link_id_bytes, low_byte, param_or, private_mode_command, segment_end,
    PerformerView,
};
use crate::palette::{ansi_bright_color, ansi_color, color_256};
use crate::vt::{groups_view, utf8_text};

verus! {

/// Collects the commands that dispatches are decoded into, and keeps what
/// outlasts a dispatch: the style that SGR sequences change step by step.
pub struct AnsiPerformer {
    commands: Vec<Command>,
    current_style: CellStyle,
    link_serial: u32,
}

impl View for AnsiPerformer {
    type V = PerformerView;

    closed spec fn view(&self) -> PerformerView {
        PerformerView {
            commands: commands_view(self.commands@),
            style: self.current_style,
            link_serial: self.link_serial,
        }
    }
}

/// The low eight bits of a parameter.
fn low_byte_of(n: u16) -> (b: u8)
    ensures
        b == low_byte(n),
{
    (n % 256) as u8
}

/// The first value of parameter `index`, or `default`.
fn first_of(params: &Vec<Vec<u16>>, index: usize, default: u16) -> (n: u16)
    ensures
        n == param_or(groups_view(params@), index as int, default),
{
    if index < params.len() && params[index].len() > 0 {
        params[index][0]
    } else {
        default
    }
}

fn position_of(n: u16) -> (p: usize)
    ensures
        p == from_one_based(n),
{
    if n == 0 {
        0
    } else {
        (n - 1) as usize
    }
}

proof fn lemma_flatten_push(groups: Seq<Seq<u16>>, group: Seq<u16>)
    ensures
        flatten(groups.push(group)) == flatten(groups) + group,
{
    assert(groups.push(group).drop_last() =~= groups);
}

/// The parameters of a sequence in one row.
fn flatten_params(params: &Vec<Vec<u16>>) -> (flat: Vec<u16>)
    ensures
        flat@ == flatten(groups_view(params@)),
{
    let mut flat: Vec<u16> = Vec::new();
    let ghost all = groups_view(params@);
    let mut i: usize = 0;
    while i < params.len()
        invariant
            i <= params.len(),
            all == groups_view(params@),
            flat@ == flatten(all.take(i as int)),
        decreases params.len() - i,
    {
        let group = &params[i];
        let ghost before = flat@;
        let mut j: usize = 0;
        while j < group.len()
            invariant
                j <= group.len(),
                flat@ == before + group@.take(j as int),
            decreases group.len() - j,
        {
            flat.push(group[j]);
            assert(flat@ =~= before + group@.take(j + 1));
            j += 1;
        }
        proof {
            assert(group@.take(group@.len() as int) =~= group@);
            assert(all.take(i + 1) =~= all.take(i as int).push(group@));
            lemma_flatten_push(all.take(i as int), group@);
        }
        i += 1;
    }
    assert(all.take(params@.len() as int) =~= all);
    flat
}

/// Where the part of `bytes` that starts at `from` ends: at the next `;` or
/// at the end.
fn find_segment_end(bytes: &[u8], from: usize) -> (end: usize)
    requires
        from <= bytes@.len(),
    ensures
        end == segment_end(bytes@, from as int),
        from <= end <= bytes@.len(),
{
    let mut end: usize = from;
    while end < bytes.len() && bytes[end] != 0x3b
        invariant
            from <= end <= bytes@.len(),
            segment_end(bytes@, end as int) == segment_end(bytes@, from as int),
        decreases bytes@.len() - end,
    {
        end += 1;
    }
    end
}

/// The bytes of the value of the first `id=` among the parts of `bytes`.
fn find_link_id(bytes: &[u8]) -> (id: Option<&[u8]>)
    ensures
        match id {
            Some(value) => link_id_bytes(bytes@, 0) == Some(value@),
            None => link_id_bytes(bytes@, 0) is None,
        },
{
    let mut from: usize = 0;
    loop
        invariant
            from <= bytes@.len(),
            link_id_bytes(bytes@, from as int) == link_id_bytes(bytes@, 0),
        decreases bytes@.len() - from,
    {
        let end = find_segment_end(bytes, from);
        if end - from >= 3 && bytes[from] == 0x69 && bytes[from + 1] == 0x64 && bytes[from + 2]
            == 0x3d {
            return Some(slice_subrange(bytes, from + 3, end));
        }
        if end >= bytes.len() {
            return None;
        }
        from = end + 1;
    }
}

impl AnsiPerformer {
    /// A performer that has decoded nothing yet.
    pub fn new() -> (performer: Self)
        ensures
            performer@ == (PerformerView {
                commands: Seq::empty(),
                style: crate::cell::default_style(),
                link_serial: 0,
            }),
    {
        let performer = AnsiPerformer {
            commands: Vec::new(),
            current_style: CellStyle::default(),
            link_serial: 0,
        };
        assert(performer@.commands =~= Seq::empty());
        performer
    }

    /// Forgets the commands decoded so far.
    pub fn clear_commands(&mut self)
        ensures
            final(self)@ == (PerformerView { commands: Seq::empty(), ..old(self)@ }),
    {
        self.commands.clear();
        assert(self@.commands =~= Seq::empty());
    }

    /// Hands out the commands decoded so far, oldest first, and keeps none.
    pub fn take_commands(&mut self) -> (commands: Vec<Command>)
        ensures
            commands_view(commands@) == old(self)@.commands,
            final(self)@ == (PerformerView { commands: Seq::empty(), ..old(self)@ }),
    {
        let mut commands: Vec<Command> = Vec::new();
        std::mem::swap(&mut commands, &mut self.commands);
        assert(self@.commands =~= Seq::empty());
        commands
    }

    fn emit(&mut self, cmd: Command)
        ensures
            final(self)@ == old(self)@.emit(cmd@),
    {
        self.commands.push(cmd);
        assert(self@.commands =~= old(self)@.commands.push(cmd@));
    }

    fn emit_foreground(&mut self, color: Color)
        ensures
            final(self)@ == old(self)@.foreground(color),
    {
        self.current_style.fg = color;
        self.emit(Command::SetForeground(color));
    }

    fn emit_background(&mut self, color: Color)
        ensures
            final(self)@ == old(self)@.background(color),
    {
        self.current_style.bg = color;
        self.emit(Command::SetBackground(color));
    }

    /// The color that the extended-color parameter at position `i` selects, and
    /// how many parameters it takes up after its own.
    pub fn parse_extended_color(flat: &Vec<u16>, i: usize) -> (r: Option<(Color, usize)>)
        requires
            i < flat.len(),
        ensures
            match r {
                Some((color, taken)) => extended_color(flat@, i as int) == Some((color, taken as int)),
                None => extended_color(flat@, i as int) is None,
            },
    {
        let len = flat.len();
        if len - i < 2 {
            return None;
        }
        let mode = flat[i + 1];
        if mode == 5 {
            if len - i < 3 {
                return None;
            }
            Some((color_256(low_byte_of(flat[i + 2])), 2))
        } else if mode == 2 {
            if len - i < 5 {
                return None;
            }
            let r = low_byte_of(flat[i + 2]);
            let g = low_byte_of(flat[i + 3]);
            let b = low_byte_of(flat[i + 4]);
            Some((Color::new(r, g, b), 4))
        } else {
            None
        }
    }

    /// Sets or resets a private mode.
    fn handle_private_mode(&mut self, mode: u16, c: char)
        ensures
            final(self)@ == match private_mode_command(mode, c) {
                Some(cmd) => old(self)@.emit(cmd),
                None => old(self)@,
            },
    {
        if c == 'h' {
            if mode == 1049 || mode == 47 || mode == 1047 {
                self.emit(Command::EnterAlternateScreen);
            } else if mode == 2004 {
                self.emit(Command::SetBracketedPaste(true));
            } else if mode == 25 {
                self.emit(Command::ShowCursor);
            } else if mode == 9 || mode == 1000 {
                self.emit(Command::SetMouseMode(MouseMode::ReportClick));
            } else if mode == 1002 {
                self.emit(Command::SetMouseMode(MouseMode::ReportMotion));
            } else if mode == 1003 {
                self.emit(Command::SetMouseMode(MouseMode::ReportAll));
            }
        } else if c == 'l' {
            if mode == 1049 || mode == 47 || mode == 1047 {
                self.emit(Command::ExitAlternateScreen);
            } else if mode == 2004 {
                self.emit(Command::SetBracketedPaste(false));
            } else if mode == 25 {
                self.emit(Command::HideCursor);
            } else if mode == 9 || mode == 1000 || mode == 1002 || mode == 1003 {
                self.emit(Command::SetMouseMode(MouseMode::Off));
            }
        }
    }

    fn set_style(&mut self, style: CellStyle)
        ensures
            final(self)@ == old(self)@.with_style(style),
    {
        self.current_style = style;
    }

    /// Applies an SGR parameter below 30, which sets or clears an attribute,
    /// and says how many parameters it took up.
    fn handle_sgr_attribute(&mut self, flat: &Vec<u16>, i: usize) -> (width: usize)
        requires
            i < flat.len(),
            flat[i as int] < 30,
        ensures
            final(self)@ == old(self)@.sgr_param(flat@, i as int),
            width == PerformerView::sgr_width(flat@, i as int),
            1 <= width <= 2,
    {
        let p = flat[i];
        let s = self.current_style;
        if p == 0 {
            self.set_style(CellStyle::default());
            return 1;
        }
        if p == 1 {
            self.set_style(CellStyle { bold: true, ..s });
            return 1;
        }
        if p == 2 {
            self.set_style(CellStyle { dim: true, ..s });
            return 1;
        }
        if p == 3 {
            self.set_style(CellStyle { italic: true, ..s });
            return 1;
        }
        if p == 4 {
            if flat.len() - i >= 2 && flat[i + 1] <= 5 {
                let sub = flat[i + 1];
                let underline = if sub == 0 {
                    UnderlineStyle::Off
                } else if sub == 1 {
                    UnderlineStyle::Single
                } else if sub == 2 {
                    UnderlineStyle::Double
                } else if sub == 3 {
                    UnderlineStyle::Curly
                } else if sub == 4 {
                    UnderlineStyle::Dotted
                } else {
                    UnderlineStyle::Dashed
                };
                self.set_style(CellStyle { underline, ..s });
                return 2;
            }
            self.set_style(CellStyle { underline: UnderlineStyle::Single, ..s });
            return 1;
        }
        if p == 7 {
            self.set_style(CellStyle { reverse: true, ..s });
            return 1;
        }
        if p == 8 {
            self.set_style(CellStyle { hidden: true, ..s });
            return 1;
        }
        if p == 9 {
            self.set_style(CellStyle { strikethrough: true, ..s });
            return 1;
        }
        if p == 22 {
            self.set_style(CellStyle { bold: false, dim: false, ..s });
            return 1;
        }
        if p == 23 {
            self.set_style(CellStyle { italic: false, ..s });
            return 1;
        }
        if p == 24 {
            self.set_style(CellStyle { underline: UnderlineStyle::Off, ..s });
            return 1;
        }
        if p == 27 {
            self.set_style(CellStyle { reverse: false, ..s });
            return 1;
        }
        if p == 28 {
            self.set_style(CellStyle { hidden: false, ..s });
            return 1;
        }
        if p == 29 {
            self.set_style(CellStyle { strikethrough: false, ..s });
            return 1;
        }
        1
    }

    /// Applies an SGR parameter from 30 on, which selects a color, and says
    /// how many parameters it took up.
    fn handle_sgr_color(&mut self, flat: &Vec<u16>, i: usize) -> (width: usize)
        requires
            i < flat.len(),
            flat[i as int] >= 30,
        ensures
            final(self)@ == old(self)@.sgr_param(flat@, i as int),
            width == PerformerView::sgr_width(flat@, i as int),
            1 <= width <= 5,
    {
        let p = flat[i];
        if 30 <= p && p <= 37 {
            self.emit_foreground(ansi_color(p - 30));
            return 1;
        }
        if p == 38 {
            match Self::parse_extended_color(flat, i) {
                Some((color, taken)) => {
                    self.emit_foreground(color);
                    return 1 + taken;
                },
                None => {
                    return 1;
                },
            }
        }
        if p == 39 {
            self.emit_foreground(Color::white());
            return 1;
        }
        if 40 <= p && p <= 47 {
            self.emit_background(ansi_color(p - 40));
            return 1;
        }
        if p == 48 {
            match Self::parse_extended_color(flat, i) {
                Some((color, taken)) => {
                    self.emit_background(color);
                    return 1 + taken;
                },
                None => {
                    return 1;
                },
            }
        }
        if p == 49 {
            self.emit_background(Color::black());
            return 1;
        }
        if 90 <= p && p <= 97 {
            self.emit_foreground(ansi_bright_color(p - 90));
            return 1;
        }
        if 100 <= p && p <= 107 {
            self.emit_background(ansi_bright_color(p - 100));
            return 1;
        }
        1
    }

    /// Applies the SGR parameter at position `i` and says how many
    /// parameters it took up.
    fn handle_sgr_param(&mut self, flat: &Vec<u16>, i: usize) -> (width: usize)
        requires
            i < flat.len(),
        ensures
            final(self)@ == old(self)@.sgr_param(flat@, i as int),
            width == PerformerView::sgr_width(flat@, i as int),
            1 <= width <= 5,
    {
        if flat[i] < 30 {
            self.handle_sgr_attribute(flat, i)
        } else {
            self.handle_sgr_color(flat, i)
        }
    }

    /// Selects the graphic rendition: applies the parameters from left to
    /// right and reports the style that results.
    pub fn handle_sgr(&mut self, params: &Vec<Vec<u16>>)
        ensures
            final(self)@ == old(self)@.sgr(groups_view(params@)),
    {
        if params.len() == 0 {
            self.current_style = CellStyle::default();
            self.emit(Command::SetStyle(self.current_style));
            return ;
        }
        let flat = flatten_params(params);
        let mut i: usize = 0;
        while i < flat.len()
            invariant
                flat@ == flatten(groups_view(params@)),
                self@.sgr_from(flat@, i as int) == old(self)@.sgr_from(flat@, 0),
            decreases flat.len() - i,
        {
            let width = self.handle_sgr_param(&flat, i);
            i = if width <= flat.len() - i {
                i + width
            } else {
                flat.len()
            };
        }
        self.emit(Command::SetStyle(self.current_style));
    }

    /// Decodes a control sequence from its parameters, its intermediate
    /// bytes and its final character.
    pub fn csi_dispatch(
        &mut self,
        params: &Vec<Vec<u16>>,
        intermediates: &[u8],
        ignore: bool,
        action: char,
    )
        ensures
            final(self)@ == old(self)@.csi(groups_view(params@), intermediates@, action),
    {
        if intermediates.len() > 0 && intermediates[0] == 0x3f {
            self.handle_private_mode(first_of(params, 0, 0), action);
            return ;
        }
        if action == 'm' {
            self.handle_sgr(params);
            return ;
        }
        let count = first_of(params, 0, 1);
        let mode = first_of(params, 0, 0);
        if action == 'A' {
            self.emit(Command::MoveCursorRelative(0, -(count as i32)));
        } else if action == 'B' {
            self.emit(Command::MoveCursorRelative(0, count as i32));
        } else if action == 'C' {
            self.emit(Command::MoveCursorRelative(count as i32, 0));
        } else if action == 'D' {
            self.emit(Command::MoveCursorRelative(-(count as i32), 0));
        } else if action == 'H' || action == 'f' {
            let y = position_of(first_of(params, 0, 1));
            let x = position_of(first_of(params, 1, 1));
            self.emit(Command::MoveCursor(x, y));
        } else if action == 'J' {
            let n = low_byte_of(mode);
            if n == 2 {
                self.emit(Command::ClearScreen);
            } else {
                self.emit(Command::EraseDisplay(n));
            }
        } else if action == 'K' {
            self.emit(Command::EraseLine(low_byte_of(mode)));
        } else if action == 'L' {
            self.emit(Command::InsertLine(count as usize));
        } else if action == 'M' {
            self.emit(Command::DeleteLine(count as usize));
        } else if action == '@' {
            self.emit(Command::InsertChars(count as usize));
        } else if action == 'P' {
            self.emit(Command::DeleteChars(count as usize));
        } else if action == 'S' {
            self.emit(Command::ScrollUp(count as usize));
        } else if action == 'T' {
            self.emit(Command::ScrollDown(count as usize));
        } else if action == 's' {
            self.emit(Command::SaveCursor);
        } else if action == 'u' {
            self.emit(Command::RestoreCursor);
        } else if action == 'g' {
            if mode == 0 {
                self.emit(Command::ClearTabStop);
            } else if mode == 3 {
                self.emit(Command::ClearAllTabStops);
            }
        } else if action == 'q' {
            if intermediates.len() > 0 && intermediates[0] == 0x20 {
                let style = if mode == 2 {
                    CursorStyle::SteadyBlock
                } else if mode == 3 {
                    CursorStyle::BlinkUnderline
                } else if mode == 4 {
                    CursorStyle::SteadyUnderline
                } else if mode == 5 {
                    CursorStyle::BlinkBar
                } else if mode == 6 {
                    CursorStyle::SteadyBar
                } else {
                    CursorStyle::BlinkBlock
                };
                self.emit(Command::SetCursorStyle(style));
            }
        } else if action == 'c' {
            self.emit(Command::DeviceAttributeQuery);
        } else if action == 'r' {
            let top = position_of(first_of(params, 0, 1));
            let last = first_of(params, 1, 0);
            let bottom = if last == 0 {
                usize::MAX
            } else {
                (last - 1) as usize
            };
            self.emit(Command::SetScrollRegion { top, bottom });
        }
    }

    /// Opens a link to `uri`, known by the identifier that `key` names or,
    /// where it names none, by a generated one.
    fn open_link(&mut self, key: &[u8], uri: &str)
        ensures
            final(self)@ == old(self)@.open_link(key@, uri@),
    {
        let id: Option<&str> = match utf8_text(key) {
            Some(_) => match find_link_id(key) {
                Some(value) => utf8_text(value),
                None => None,
            },
            None => None,
        };
        let link = Hyperlink::new(id, String::from_str(uri), self.link_serial);
        if id.is_none() {
            self.link_serial = if self.link_serial == u32::MAX {
                0
            } else {
                self.link_serial + 1
            };
        }
        self.emit(Command::SetHyperlink(Some(link)));
    }

    /// Decodes an operating system command from its parameters.
    pub fn osc_dispatch(&mut self, params: &Vec<Vec<u8>>, bell_terminated: bool)
        ensures
            final(self)@ == old(self)@.osc(strings_view(params@)),
    {
        if params.len() == 0 {
            return ;
        }
        let ghost all = strings_view(params@);
        let kind: &[u8] = params[0].as_slice();
        assert(all[0] == kind@);
        if kind.len() == 1 && (kind[0] == 0x30 || kind[0] == 0x32) {
            assert(kind@ =~= seq![kind@[0]]);
            if params.len() > 1 {
                let text: &[u8] = params[1].as_slice();
                assert(all[1] == text@);
                match utf8_text(text) {
                    Some(title) => {
                        self.emit(Command::SetTitle(String::from_str(title)));
                    },
                    None => {},
                }
            }
        } else if kind.len() == 1 && kind[0] == 0x38 {
            assert(kind@ =~= seq![kind@[0]]);
            if params.len() > 2 {
                let key: &[u8] = params[1].as_slice();
                let address: &[u8] = params[2].as_slice();
                assert(all[1] == key@);
                assert(all[2] == address@);
                match utf8_text(address) {
                    Some(uri) => {
                        if uri.is_empty() {
                            self.emit(Command::SetHyperlink(None));
                        } else {
                            self.open_link(key, uri);
                        }
                    },
                    None => {},
                }
            }
        } else {
            assert(all[0] != seq![0x30u8] && all[0] != seq![0x32u8] && all[0] != seq![0x38u8]) by {
                if kind@.len() == 1 {
                    assert(seq![0x30u8][0] == 0x30u8);
                    assert(seq![0x32u8][0] == 0x32u8);
                    assert(seq![0x38u8][0] == 0x38u8);
                } else {
                    assert(seq![0x30u8].len() == 1);
                    assert(seq![0x32u8].len() == 1);
                    assert(seq![0x38u8].len() == 1);
                }
            }
        }
    }

    /// Decodes a character: DEL is executed, every other one is printed.
    pub fn print(&mut self, c: char)
        ensures
            final(self)@ == old(self)@.emit(character_command(c)),
    {
        if c == '\u{7f}' {
            self.emit(Command::Execute(0x7f));
        } else {
            self.emit(Command::Print(c));
        }
    }

    /// Decodes a control byte: the bell has a command of its own.
    pub fn execute(&mut self, byte: u8)
        ensures
            final(self)@ == old(self)@.emit(execute_command(byte)),
    {
        if byte == 0x07 {
            self.emit(Command::Bell);
        } else {
            self.emit(Command::Execute(byte));
        }
    }

    /// Decodes one dispatch of the state machine.
    pub fn perform(&mut self, action: &Action)
        ensures
            final(self)@ == old(self)@.perform(action@),
    {
        match action {
            Action::Print(c) => self.print(*c),
            Action::Execute(byte) => self.execute(*byte),
            Action::Osc { strings, bell_terminated } => self.osc_dispatch(
                strings,
                *bell_terminated,
            ),
            Action::Csi { params, intermediates, ignore, action } => self.csi_dispatch(
                params,
                intermediates.as_slice(),
                *ignore,
                *action,
            ),
            Action::Esc { intermediates, ignore, byte } => self.esc_dispatch(
                intermediates.as_slice(),
                *ignore,
                *byte,
            ),
        }
    }

    /// Decodes a list of dispatches, in order.
    pub fn perform_all(&mut self, actions: &Vec<Action>)
        ensures
            final(self)@ == old(self)@.perform_all(actions_view(actions@)),
    {
        let ghost all = actions_view(actions@);
        let mut i: usize = 0;
        while i < actions.len()
            invariant
                i <= actions.len(),
                all == actions_view(actions@),
                self@ == old(self)@.perform_all(all.take(i as int)),
            decreases actions.len() - i,
        {
            proof {
                assert(all.take(i + 1).drop_last() =~= all.take(i as int));
            }
            self.perform(&actions[i]);
            i += 1;
        }
        assert(all.take(actions@.len() as int) =~= all);
    }

    /// Decodes an escape sequence from its intermediate bytes and its final
    /// byte.
    pub fn esc_dispatch(&mut self, intermediates: &[u8], ignore: bool, byte: u8)
        ensures
            final(self)@ == match esc_command(intermediates@, byte) {
                Some(cmd) => old(self)@.emit(cmd),
                None => old(self)@,
            },
    {
        if intermediates.len() > 0 && intermediates[0] == 0x28 && byte == 0x30 {
            self.emit(Command::SetCharset(Charset::LineDrawing));
        } else if intermediates.len() > 0 && intermediates[0] == 0x28 && byte == 0x42 {
            self.emit(Command::SetCharset(Charset::Ascii));
        } else if byte == 0x63 {
            self.emit(Command::Reset);
        } else if byte == 0x37 {
            self.emit(Command::SaveCursor);
        } else if byte == 0x38 {
            self.emit(Command::RestoreCursor);
        } else if byte == 0x48 {
            self.emit(Command::SetTabStop);
        }
    }
}

} // verus!
