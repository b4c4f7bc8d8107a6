//! The parser: bytes in, commands out. It may be fed a stream in pieces of
//! any size.

use vstd::prelude::*;

use crate::action::{actions_view, ActionLog};
use crate::cell::CellStyle;
use crate::command::{commands_view, Command};
use crate::decode::PerformerView;
use crate::performer::AnsiPerformer;
use crate::vt::{advance, vte_actions};

verus! {

/// The commands of one call of `parse`.
pub type ParseResult = Vec<Command>;

/// Decodes a byte stream into commands. What a call leaves unfinished (an
/// escape sequence cut off, half a character) is finished by the next.
pub struct AnsiParser {
    parser: vte::Parser,
    performer: AnsiPerformer,
}

impl AnsiParser {
    /// The state machine as it stands between two calls.
    pub closed spec fn machine(&self) -> vte::Parser {
        self.parser
    }

    /// The style that earlier SGR sequences have built up.
    pub closed spec fn style(&self) -> CellStyle {
        self.performer@.style
    }

    /// The serial number for the next link that comes without an identifier.
    pub closed spec fn link_serial(&self) -> u32 {
        self.performer@.link_serial
    }

    /// What feeding `data` yields: the commands decoded from the dispatches
    /// that the state machine makes over `data`, and the style and serial
    /// number that stand afterwards.
    pub open spec fn decoded(&self, data: Seq<u8>) -> PerformerView {
        (PerformerView {
            commands: Seq::empty(),
            style: self.style(),
            link_serial: self.link_serial(),
        }).perform_all(vte_actions(self.machine(), data))
    }

    pub fn new() -> (parser: Self)
        ensures
            parser.style() == crate::cell::default_style(),
            parser.link_serial() == 0,
    {
        AnsiParser { parser: vte::Parser::new(), performer: AnsiPerformer::new() }
    }

    /// Feeds `data` to the state machine and returns the commands that its
    /// dispatches decode into, in the order of the bytes.
    pub fn parse(&mut self, data: &[u8]) -> (commands: ParseResult)
        ensures
            commands_view(commands@) == old(self).decoded(data@).commands,
            final(self).style() == old(self).decoded(data@).style,
            final(self).link_serial() == old(self).decoded(data@).link_serial,
    {
        self.performer.clear_commands();
        let mut log = ActionLog::new();
        advance(&mut self.parser, &mut log, data);
        let actions = log.into_actions();
        assert(actions_view(actions@) =~= vte_actions(old(self).machine(), data@));
        self.performer.perform_all(&actions);
        self.performer.take_commands()
    }
}

impl Default for AnsiParser {
    fn default() -> (parser: Self)
        ensures
            parser.style() == crate::cell::default_style(),
            parser.link_serial() == 0,
    {
        Self::new()
    }
}

} // verus!
