//! Conversation state and the per-chat session store.

use vstd::prelude::*;
use std::collections::HashMap;
use crate::transcript::{clone_transcript, Msg, MsgModel};

verus! {

broadcast use vstd::std_specs::hash::group_hash_axioms;

/// The dialogue state of one chat: muted, or chatting with the transcript
/// accumulated so far.
#[derive(Debug)]
pub enum State {
    Chatting(Vec<Msg>),
    Muted,
}

/// The mathematical model of a conversation state.
pub enum StateModel {
    Chatting(Seq<MsgModel>),
    Muted,
}

impl View for State {
    type V = StateModel;

    open spec fn view(&self) -> StateModel {
        match self {
            State::Chatting(t) => StateModel::Chatting(t.deep_view()),
            State::Muted => StateModel::Muted,
        }
    }
}

impl DeepView for State {
    type V = StateModel;

    open spec fn deep_view(&self) -> StateModel {
        self@
    }
}

impl Clone for State {
    /// Cloning preserves the state exactly.
    fn clone(&self) -> (r: Self)
        ensures
            r@ == self@,
    {
        match self {
            State::Chatting(t) => State::Chatting(clone_transcript(t)),
            State::Muted => State::Muted,
        }
    }
}

/// The state a chat is in before any record exists for it.
pub open spec fn spec_load(m: Map<i64, StateModel>, chat: i64) -> StateModel {
    if m.contains_key(chat) {
        m[chat]
    } else {
        StateModel::Muted
    }
}

/// A chat id never observed before starts out `Muted`.
pub proof fn lemma_fresh_chat_is_muted(m: Map<i64, StateModel>, chat: i64)
    requires
        !m.contains_key(chat),
    ensures
        spec_load(m, chat) == StateModel::Muted,
{
}

/// In-memory keyed storage holding exactly one conversation state per
/// observed chat id.
pub struct SessionStore {
    map: HashMap<i64, State>,
}

impl View for SessionStore {
    type V = Map<i64, StateModel>;

    closed spec fn view(&self) -> Map<i64, StateModel> {
        self.map@.map_values(|s: State| s@)
    }
}

impl SessionStore {
    /// An empty store: no chat has been observed yet.
    pub fn new() -> (s: Self)
        ensures
            s@ == Map::<i64, StateModel>::empty(),
    {
        let s = SessionStore { map: HashMap::new() };
        proof {
            assert(s@ =~= Map::<i64, StateModel>::empty());
        }
        s
    }

    /// The recorded state of `chat`, or `None` when the chat has never been
    /// observed.
    pub fn lookup(&self, chat: i64) -> (r: Option<State>)
        ensures
            match r {
                Some(st) => self@.contains_key(chat) && st@ == self@[chat],
                None => !self@.contains_key(chat),
            },
    {
        match self.map.get(&chat) {
            Some(st) => Some(st.clone()),
            None => None,
        }
    }

    /// The state a transition starts from: the recorded one, or `Muted` for
    /// a chat observed for the first time.
    pub fn load(&self, chat: i64) -> (st: State)
        ensures
            st@ == spec_load(self@, chat),
    {
        match self.lookup(chat) {
            Some(st) => st,
            None => State::Muted,
        }
    }

    /// Records `st` as the current state of `chat`, replacing any earlier
    /// record atomically.
    pub fn save(&mut self, chat: i64, st: State)
        ensures
            final(self)@ == old(self)@.insert(chat, st@),
    {
        let ghost stv = st@;
        self.map.insert(chat, st);
        proof {
            assert(self@ =~= old(self)@.insert(chat, stv));
        }
    }
}

} // verus!
