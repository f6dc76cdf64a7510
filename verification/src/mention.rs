//! The mention filter: decides whether an inbound message in a shared
//! channel activates the bot, and strips the activation token.

use vstd::prelude::*;
use crate::text::{contains, remove_first, spec_contains, spec_remove_first};

verus! {

/// What the filter decides: the message is taken, with the mention token
/// stripped, or it is left alone.
#[derive(Debug)]
pub enum Gate {
    Accepted(String),
    Rejected,
}

/// The mathematical model of a filter decision.
pub enum GateModel {
    Accepted(Seq<char>),
    Rejected,
}

impl View for Gate {
    type V = GateModel;

    open spec fn view(&self) -> GateModel {
        match self {
            Gate::Accepted(s) => GateModel::Accepted(s@),
            Gate::Rejected => GateModel::Rejected,
        }
    }
}

/// The activation policy: a private chat is accepted unconditionally; a
/// shared channel only when the text holds the mention token as a literal,
/// case-sensitive substring. An accepted text loses the first occurrence
/// of the token, wherever it stands.
pub open spec fn spec_gate(text: Seq<char>, is_private: bool, token: Seq<char>) -> GateModel {
    if is_private || spec_contains(text, token) {
        GateModel::Accepted(spec_remove_first(text, token))
    } else {
        GateModel::Rejected
    }
}

/// Applies the activation policy to an inbound message text.
pub fn mention_gate(text: &str, is_private: bool, token: &str) -> (g: Gate)
    ensures
        g@ == spec_gate(text@, is_private, token@),
{
    if is_private || contains(text, token) {
        Gate::Accepted(remove_first(text, token))
    } else {
        Gate::Rejected
    }
}

/// In a private chat the filter never rejects, whatever the text and the
/// token.
pub proof fn lemma_private_never_rejected(text: Seq<char>, token: Seq<char>)
    ensures
        spec_gate(text, true, token) is Accepted,
{
}

} // verus!
