//! The dispatches of the escape-sequence state machine as values, and the
//! log that takes them down as the state machine makes them.

use vstd::prelude::*;
use vstd::slice::slice_to_vec;

use crate::decode::ActionView;
use crate::vt::{collect_params, groups_view, param_groups};

verus! {

/// One dispatch of the state machine, with what it carries.
#[derive(Debug, Clone, PartialEq, Eq)]
pub enum Action {
    /// A character to draw.
    Print(char),
    /// A C0 or C1 control.
    Execute(u8),
    /// An operating system command: its parameters, which `;` separated.
    Osc { strings: Vec<Vec<u8>>, bell_terminated: bool },
    /// A control sequence: its parameters, each with its subparameters, its
    /// intermediate bytes and its final character.
    Csi { params: Vec<Vec<u16>>, intermediates: Vec<u8>, ignore: bool, action: char },
    /// An escape sequence: its intermediate bytes and its final byte.
    Esc { intermediates: Vec<u8>, ignore: bool, byte: u8 },
}

/// The byte strings of a list as sequences.
pub open spec fn strings_view(strings: Seq<Vec<u8>>) -> Seq<Seq<u8>> {
    Seq::new(strings.len(), |i: int| strings[i]@)
}

/// The byte strings of a list of slices as sequences.
pub open spec fn slices_view(slices: Seq<&[u8]>) -> Seq<Seq<u8>> {
    Seq::new(slices.len(), |i: int| slices[i]@)
}

impl View for Action {
    type V = ActionView;

    open spec fn view(&self) -> ActionView {
        match *self {
            Action::Print(c) => ActionView::Print(c),
            Action::Execute(byte) => ActionView::Execute(byte),
            Action::Osc { strings, bell_terminated } => ActionView::Osc {
                strings: strings_view(strings@),
                bell_terminated,
            },
            Action::Csi { params, intermediates, ignore, action } => ActionView::Csi {
                params: groups_view(params@),
                intermediates: intermediates@,
                ignore,
                action,
            },
            Action::Esc { intermediates, ignore, byte } => ActionView::Esc {
                intermediates: intermediates@,
                ignore,
                byte,
            },
        }
    }
}

/// The views of a list of actions, in order.
pub open spec fn actions_view(actions: Seq<Action>) -> Seq<ActionView> {
    Seq::new(actions.len(), |i: int| actions[i]@)
}

/// Copies of the byte strings of a list of slices.
fn copy_strings(slices: &[&[u8]]) -> (strings: Vec<Vec<u8>>)
    ensures
        strings_view(strings@) == slices_view(slices@),
{
    let mut strings: Vec<Vec<u8>> = Vec::new();
    let mut i: usize = 0;
    while i < slices.len()
        invariant
            i <= slices.len(),
            strings.len() == i,
            forall|k: int| 0 <= k < i ==> (#[trigger] strings@[k])@ == slices@[k]@,
        decreases slices.len() - i,
    {
        let slice: &[u8] = slices[i];
        strings.push(slice_to_vec(slice));
        i += 1;
    }
    assert(strings_view(strings@) =~= slices_view(slices@));
    strings
}

/// Takes down the dispatches of the state machine, in the order in which it
/// makes them.
pub struct ActionLog {
    actions: Vec<Action>,
}

impl ActionLog {
    /// The dispatches taken down so far.
    pub closed spec fn entries(&self) -> Seq<ActionView> {
        actions_view(self.actions@)
    }

    /// A log without entries.
    pub fn new() -> (log: Self)
        ensures
            log.entries() == Seq::<ActionView>::empty(),
    {
        let log = ActionLog { actions: Vec::new() };
        assert(log.entries() =~= Seq::<ActionView>::empty());
        log
    }

    /// The entries of the log, oldest first.
    pub fn into_actions(self) -> (actions: Vec<Action>)
        ensures
            actions_view(actions@) == self.entries(),
    {
        self.actions
    }

    fn record(&mut self, action: Action)
        ensures
            final(self).entries() == old(self).entries().push(action@),
    {
        self.actions.push(action);
        assert(self.entries() =~= old(self).entries().push(action@));
    }
}

impl vte::Perform for ActionLog {
    fn print(&mut self, c: char)
        ensures
            final(self).entries() == old(self).entries().push(ActionView::Print(c)),
    {
        self.record(Action::Print(c));
    }

    fn execute(&mut self, byte: u8)
        ensures
            final(self).entries() == old(self).entries().push(ActionView::Execute(byte)),
    {
        self.record(Action::Execute(byte));
    }

    fn osc_dispatch(&mut self, params: &[&[u8]], bell_terminated: bool)
        ensures
            final(self).entries() == old(self).entries().push(
                ActionView::Osc { strings: slices_view(params@), bell_terminated },
            ),
    {
        self.record(Action::Osc { strings: copy_strings(params), bell_terminated });
    }

    fn csi_dispatch(
        &mut self,
        params: &vte::Params,
        intermediates: &[u8],
        ignore: bool,
        action: char,
    )
        ensures
            final(self).entries() == old(self).entries().push(
                ActionView::Csi {
                    params: param_groups(*params),
                    intermediates: intermediates@,
                    ignore,
                    action,
                },
            ),
    {
        self.record(
            Action::Csi {
                params: collect_params(params),
                intermediates: slice_to_vec(intermediates),
                ignore,
                action,
            },
        );
    }

    fn esc_dispatch(&mut self, intermediates: &[u8], ignore: bool, byte: u8)
        ensures
            final(self).entries() == old(self).entries().push(
                ActionView::Esc { intermediates: intermediates@, ignore, byte },
            ),
    {
        self.record(Action::Esc { intermediates: slice_to_vec(intermediates), ignore, byte });
    }
}

} // verus!
