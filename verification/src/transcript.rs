//! Message roles, transcript entries, and the transcript builder.

use vstd::prelude::*;

verus! {

/// Who spoke a transcript entry.
#[derive(Clone, Copy, Debug, PartialEq, Eq, Structural)]
pub enum Role {
    System,
    User,
    Assistant,
}

impl Role {
    /// The provider-facing name of the role.
    pub fn as_str(&self) -> (r: &'static str)
        ensures
            *self is System ==> r@ == "system"@,
            *self is User ==> r@ == "user"@,
            *self is Assistant ==> r@ == "assistant"@,
    {
        match self {
            Role::System => "system",
            Role::User => "user",
            Role::Assistant => "assistant",
        }
    }
}

/// One transcript entry: a role-tagged text with an optional speaker name.
#[derive(Debug)]
pub struct Msg {
    pub role: Role,
    pub content: String,
    pub name: Option<String>,
}

/// The mathematical model of a transcript entry.
pub struct MsgModel {
    pub role: Role,
    pub content: Seq<char>,
    pub name: Option<Seq<char>>,
}

impl View for Msg {
    type V = MsgModel;

    open spec fn view(&self) -> MsgModel {
        MsgModel {
            role: self.role,
            content: self.content@,
            name: match self.name {
                Some(n) => Some(n@),
                None => None,
            },
        }
    }
}

impl DeepView for Msg {
    type V = MsgModel;

    open spec fn deep_view(&self) -> MsgModel {
        self@
    }
}

impl Clone for Msg {
    /// Cloning preserves the entry exactly.
    fn clone(&self) -> (r: Self)
        ensures
            r@ == self@,
    {
        Msg {
            role: self.role,
            content: self.content.clone(),
            name: match &self.name {
                Some(n) => Some(n.clone()),
                None => None,
            },
        }
    }
}

/// The synthesized persona entry that opens a fresh transcript.
pub open spec fn system_msg(persona: Seq<char>) -> MsgModel {
    MsgModel { role: Role::System, content: persona, name: None }
}

/// A user turn as recorded in the transcript.
pub open spec fn user_msg(content: Seq<char>, name: Option<Seq<char>>) -> MsgModel {
    MsgModel { role: Role::User, content: content, name: name }
}

/// An assistant turn as recorded in the transcript.
pub open spec fn assistant_msg(content: Seq<char>, name: Option<Seq<char>>) -> MsgModel {
    MsgModel { role: Role::Assistant, content: content, name: name }
}

/// An exact copy of a transcript.
pub fn clone_transcript(v: &Vec<Msg>) -> (r: Vec<Msg>)
    ensures
        r.deep_view() == v.deep_view(),
{
    let mut r: Vec<Msg> = Vec::new();
    let mut i: usize = 0;
    while i < v.len()
        invariant
            i <= v.len(),
            r@.len() == i,
            forall|j: int| 0 <= j < i ==> #[trigger] r@[j]@ == v@[j]@,
        decreases v.len() - i,
    {
        let m = v[i].clone();
        r.push(m);
        i += 1;
    }
    proof {
        assert forall|j: int| 0 <= j < v@.len() implies r.deep_view()[j] == v.deep_view()[j] by {
            assert(r@[j]@ == v@[j]@);
        }
        assert(r.deep_view() =~= v.deep_view());
    }
    r
}

/// What the transcript builder submits: the transcript itself, or a single
/// synthesized persona entry when the transcript is empty.
pub open spec fn spec_build_submission(t: Seq<MsgModel>, persona: Seq<char>) -> Seq<MsgModel> {
    if t.len() == 0 {
        seq![system_msg(persona)]
    } else {
        t
    }
}

/// Assembles the message list to submit for completion. An empty transcript
/// is replaced by one `System` entry carrying the configured persona text;
/// a non-empty transcript passes through unchanged.
pub fn build_submission(transcript: &Vec<Msg>, persona: &str) -> (r: Vec<Msg>)
    ensures
        r.deep_view() == spec_build_submission(transcript.deep_view(), persona@),
{
    if transcript.len() == 0 {
        let mut r: Vec<Msg> = Vec::new();
        r.push(Msg { role: Role::System, content: persona.to_owned(), name: None });
        proof {
            assert(r.deep_view() =~= seq![system_msg(persona@)]);
        }
        r
    } else {
        clone_transcript(transcript)
    }
}

} // verus!
