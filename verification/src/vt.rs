//! The seam to the `vte` crate, whose state machine splits the byte stream
//! into dispatches. Nothing in this file is proved: each item states what
//! the verified code takes on trust from `vte` or from the standard library.

use vstd::prelude::*;
use vstd::utf8::{decode_utf8, valid_utf8};

use crate::action::ActionLog;
use crate::decode::ActionView;

verus! {

/// `vte::Parser`, the state machine. Its state is opaque here.
#[verifier::external_type_specification]
#[verifier::external_body]
pub struct ExParser<const OSC_RAW_BUF_SIZE: usize>(vte::Parser<OSC_RAW_BUF_SIZE>);

/// `vte::Params`, the parameter list of a control sequence.
#[verifier::external_type_specification]
#[verifier::external_body]
pub struct ExParams(vte::Params);

/// `vte::Parser::new` makes a state machine. Nothing is claimed of it.
pub assume_specification[ vte::Parser::new ]() -> (parser: vte::Parser);

/// The dispatches that a state machine in state `parser` makes when it is
/// advanced over `bytes`: its calls of `print`, `execute`, `osc_dispatch`,
/// `csi_dispatch` and `esc_dispatch`, in order, with their arguments. What
/// it hands over of device control strings is not among them.
pub uninterp spec fn vte_actions(parser: vte::Parser, bytes: Seq<u8>) -> Seq<ActionView>;

/// The parameters that a `vte::Params` holds, each with its subparameters:
/// what its iterator yields.
pub uninterp spec fn param_groups(params: vte::Params) -> Seq<Seq<u16>>;

/// The lists of a list of lists as sequences.
pub open spec fn groups_view(groups: Seq<Vec<u16>>) -> Seq<Seq<u16>> {
    Seq::new(groups.len(), |i: int| groups[i]@)
}

/// `vte::Params::iter`: the parameters of a control sequence, copied out.
/// The result holds what the iterator yields, item by item.
#[verifier::external_body]
pub(crate) fn collect_params(params: &vte::Params) -> (groups: Vec<Vec<u16>>)
    ensures
        groups_view(groups@) == param_groups(*params),
{
    params.iter().map(|group| group.to_vec()).collect()
}

/// `vte::Parser::advance`: feeds `data` to the state machine, which makes
/// its dispatches to the log. The log ends with the dispatches made over
/// `data` behind the entries it had. Nothing is claimed of the state machine
/// afterwards.
#[verifier::external_body]
pub(crate) fn advance(parser: &mut vte::Parser, log: &mut ActionLog, data: &[u8])
    ensures
        final(log).entries() == old(log).entries() + vte_actions(*old(parser), data@),
{
    parser.advance(log, data);
}

/// `std::str::from_utf8`: the text that `bytes` encode, if they are valid
/// UTF-8, and nothing otherwise.
#[verifier::external_body]
pub(crate) fn utf8_text(bytes: &[u8]) -> (text: Option<&str>)
    ensures
        text is Some <==> valid_utf8(bytes@),
        text matches Some(s) ==> s@ == decode_utf8(bytes@),
{
    std::str::from_utf8(bytes).ok()
}

} // verus!
