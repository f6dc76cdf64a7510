//! The dialogue controller: a single transition function over the
//! two-state machine, the message-handling algorithm around the gateway
//! call, and the laws the machine obeys.

use vstd::prelude::*;
use vstd::string::StringExecFns;
use crate::gateway::{CompletionModel, CompletionResult, GatewayFailure, Usage};
use crate::markup::{escape, spec_escape};
use crate::mention::{mention_gate, spec_gate, Gate, GateModel};
use crate::report::{failure_reply, spec_failure_reply, Cause, ErrorRecord, ErrorRecordModel};
use crate::session::{State, StateModel};
use crate::text::{
    is_blank, lemma_contains_iff_exists, match_at, spec_blank, spec_dec, u64_to_dec,
};
use crate::transcript::{
    assistant_msg, build_submission, spec_build_submission, system_msg, user_msg, Msg, MsgModel,
    Role,
};
use crate::usage::{apply_usage, spec_apply_usage};

verus! {

/// A recognized command keyword.
#[derive(Clone, Copy, Debug, PartialEq, Eq, Structural)]
pub enum Command {
    State,
    Reset,
    Mute,
    Chat,
    History,
}

/// What the controller knows of its surroundings: the bot's mention token
/// and handle, the configured persona, and the usage high-water mark.
#[derive(Debug)]
pub struct Config {
    pub mention: String,
    pub bot_name: Option<String>,
    pub persona: String,
    pub usage_threshold: u32,
}

/// The mathematical model of a configuration.
pub struct ConfigModel {
    pub mention: Seq<char>,
    pub bot_name: Option<Seq<char>>,
    pub persona: Seq<char>,
    pub usage_threshold: u32,
}

impl View for Config {
    type V = ConfigModel;

    open spec fn view(&self) -> ConfigModel {
        ConfigModel {
            mention: self.mention@,
            bot_name: self.bot_name.deep_view(),
            persona: self.persona@,
            usage_threshold: self.usage_threshold,
        }
    }
}

/// What one transition yields: the state to persist (`None` leaves the
/// store untouched), the reply to send, if any, and the failure record to
/// log, if any.
#[derive(Debug)]
pub struct StepResult {
    pub new_state: Option<State>,
    pub reply: Option<String>,
    pub error: Option<ErrorRecord>,
}

/// The mathematical model of a transition's yield.
pub struct StepResultModel {
    pub new_state: Option<StateModel>,
    pub reply: Option<Seq<char>>,
    pub error: Option<ErrorRecordModel>,
}

impl View for StepResult {
    type V = StepResultModel;

    open spec fn view(&self) -> StepResultModel {
        StepResultModel {
            new_state: match self.new_state {
                Some(st) => Some(st@),
                None => None,
            },
            reply: match self.reply {
                Some(r) => Some(r@),
                None => None,
            },
            error: match self.error {
                Some(e) => Some(e@),
                None => None,
            },
        }
    }
}

/// The confirmation sent when a private chat is activated.
pub open spec fn spec_private_start_reply() -> Seq<char> {
    "`Starting private chat mode, REPL`"@
}

/// The confirmation sent when a shared channel is activated: it names the
/// mention token to prefix messages with.
pub open spec fn spec_shared_start_reply(mention: Seq<char>) -> Seq<char> {
    "`Starting group chat mode, REPL. Prepend messages with "@ + mention + "`"@
}

/// The confirmation sent on activation, by channel privacy.
pub open spec fn spec_start_reply(is_private: bool, mention: Seq<char>) -> Seq<char> {
    if is_private {
        spec_private_start_reply()
    } else {
        spec_shared_start_reply(mention)
    }
}

/// The confirmation sent on the mute command.
pub open spec fn spec_mute_reply() -> Seq<char> {
    "`Muted until futher notice`"@
}

/// The confirmation sent on the reset command.
pub open spec fn spec_reset_reply() -> Seq<char> {
    "`Conversation history has been deleted. Still in chat, REPL mode`"@
}

/// The rendering of the current state for the state-query command.
pub open spec fn spec_render_state(cur: Option<StateModel>) -> Seq<char> {
    match cur {
        None => "No active conversation"@,
        Some(StateModel::Muted) => "State: muted"@,
        Some(StateModel::Chatting(t)) => "State: chatting ("@ + spec_dec(t.len()) + " msgs)"@,
    }
}

/// One transcript line of the history dump: the speaker (or `System` when
/// unnamed), a colon, the content, a newline.
pub open spec fn spec_history_line(m: MsgModel) -> Seq<char> {
    (match m.name {
        Some(n) => n,
        None => "System"@,
    }) + ": "@ + m.content + "\n"@
}

/// The raw history dump: the lines of all entries in order.
pub open spec fn spec_history_dump(t: Seq<MsgModel>) -> Seq<char>
    decreases t.len(),
{
    if t.len() == 0 {
        Seq::empty()
    } else {
        spec_history_dump(t.drop_last()) + spec_history_line(t.last())
    }
}

/// The rendering of the transcript for the history-query command. A
/// non-empty dump is escaped before it is sent with markup.
pub open spec fn spec_render_history(cur: Option<StateModel>) -> Seq<char> {
    match cur {
        None => "No active conversation"@,
        Some(StateModel::Muted) => "Bot is muted"@,
        Some(StateModel::Chatting(t)) => if t.len() == 0 {
            "`there is no history`"@
        } else {
            spec_escape(spec_history_dump(t))
        },
    }
}

/// The catch-all transition: every (state, input) pair with no defined
/// transition exits to `Muted` and surfaces a traceable failure carrying
/// only a correlation id.
pub open spec fn spec_catch_all(cid: Seq<char>) -> StepResultModel {
    StepResultModel {
        new_state: Some(StateModel::Muted),
        reply: Some(spec_failure_reply(cid)),
        error: Some(ErrorRecordModel { correlation_id: cid, cause: Cause::UnexpectedInput }),
    }
}

/// The transition function for recognized commands. `cur` is the stored
/// state, `None` when the chat was never observed; `cid` is the fresh
/// correlation id the catch-all consumes.
pub open spec fn spec_step_command(
    cur: Option<StateModel>,
    cmd: Command,
    is_private: bool,
    mention: Seq<char>,
    cid: Seq<char>,
) -> StepResultModel {
    match cmd {
        Command::Chat => StepResultModel {
            new_state: Some(StateModel::Chatting(Seq::empty())),
            reply: Some(spec_start_reply(is_private, mention)),
            error: None,
        },
        Command::State => StepResultModel {
            new_state: None,
            reply: Some(spec_render_state(cur)),
            error: None,
        },
        Command::History => StepResultModel {
            new_state: None,
            reply: Some(spec_render_history(cur)),
            error: None,
        },
        Command::Mute => StepResultModel {
            new_state: Some(StateModel::Muted),
            reply: Some(spec_mute_reply()),
            error: None,
        },
        Command::Reset => match cur {
            Some(StateModel::Chatting(_)) => StepResultModel {
                new_state: Some(StateModel::Chatting(Seq::empty())),
                reply: Some(spec_reset_reply()),
                error: None,
            },
            _ => spec_catch_all(cid),
        },
    }
}

/// Renders the current state for the state-query command.
pub fn render_state(cur: &Option<State>) -> (r: String)
    ensures
        r@ == spec_render_state(cur.deep_view()),
{
    match cur {
        None => String::from_str("No active conversation"),
        Some(State::Muted) => String::from_str("State: muted"),
        Some(State::Chatting(t)) => {
            let mut r = String::from_str("State: chatting (");
            let n = u64_to_dec(t.len() as u64);
            r.append(n.as_str());
            r.append(" msgs)");
            proof {
                assert(r@ =~= spec_render_state(cur.deep_view()));
            }
            r
        },
    }
}

/// Renders the transcript for the history-query command.
pub fn render_history(cur: &Option<State>) -> (r: String)
    ensures
        r@ == spec_render_history(cur.deep_view()),
{
    match cur {
        None => String::from_str("No active conversation"),
        Some(State::Muted) => String::from_str("Bot is muted"),
        Some(State::Chatting(t)) => {
            if t.len() == 0 {
                let r = String::from_str("`there is no history`");
                proof {
                    assert(t.deep_view().len() == 0);
                }
                r
            } else {
                let mut dump = String::new();
                let mut i: usize = 0;
                while i < t.len()
                    invariant
                        i <= t.len(),
                        dump@ == spec_history_dump(t.deep_view().take(i as int)),
                    decreases t.len() - i,
                {
                    match &t[i].name {
                        Some(n) => dump.append(n.as_str()),
                        None => dump.append("System"),
                    }
                    dump.append(": ");
                    dump.append(t[i].content.as_str());
                    dump.append("\n");
                    proof {
                        let dv = t.deep_view();
                        assert(dv.take(i + 1).drop_last() =~= dv.take(i as int));
                        assert(dv.take(i + 1).last() == dv[i as int]);
                        assert(dump@ =~= spec_history_dump(dv.take(i as int)) + spec_history_line(
                            dv[i as int],
                        ));
                    }
                    i += 1;
                }
                proof {
                    assert(t.deep_view().take(t.len() as int) =~= t.deep_view());
                }
                escape(dump.as_str())
            }
        },
    }
}

/// Handles a (state, input) pair with no defined transition: exits to
/// `Muted` and surfaces only the given fresh correlation id.
pub fn step_unrecognized(cid: String) -> (r: StepResult)
    ensures
        r@ == spec_catch_all(cid@),
{
    let reply = failure_reply(cid.as_str());
    StepResult {
        new_state: Some(State::Muted),
        reply: Some(reply),
        error: Some(ErrorRecord { correlation_id: cid, cause: Cause::UnexpectedInput }),
    }
}

/// Applies one recognized command to the stored state. `cid` is a fresh
/// correlation id, consumed only by the catch-all transition.
pub fn step_command(
    cur: &Option<State>,
    cmd: Command,
    is_private: bool,
    mention: &str,
    cid: String,
) -> (r: StepResult)
    ensures
        r@ == spec_step_command(cur.deep_view(), cmd, is_private, mention@, cid@),
{
    match cmd {
        Command::Chat => {
            let reply = if is_private {
                String::from_str("`Starting private chat mode, REPL`")
            } else {
                let mut r = String::from_str(
                    "`Starting group chat mode, REPL. Prepend messages with ",
                );
                r.append(mention);
                r.append("`");
                proof {
                    assert(r@ =~= spec_shared_start_reply(mention@));
                }
                r
            };
            let empty: Vec<Msg> = Vec::new();
            proof {
                assert(empty.deep_view() =~= Seq::<MsgModel>::empty());
            }
            StepResult {
                new_state: Some(State::Chatting(empty)),
                reply: Some(reply),
                error: None,
            }
        },
        Command::State => StepResult {
            new_state: None,
            reply: Some(render_state(cur)),
            error: None,
        },
        Command::History => StepResult {
            new_state: None,
            reply: Some(render_history(cur)),
            error: None,
        },
        Command::Mute => StepResult {
            new_state: Some(State::Muted),
            reply: Some(String::from_str("`Muted until futher notice`")),
            error: None,
        },
        Command::Reset => match cur {
            Some(State::Chatting(_)) => {
                let empty: Vec<Msg> = Vec::new();
                proof {
                    assert(empty.deep_view() =~= Seq::<MsgModel>::empty());
                }
                StepResult {
                    new_state: Some(State::Chatting(empty)),
                    reply: Some(
                        String::from_str(
                            "`Conversation history has been deleted. Still in chat, REPL mode`",
                        ),
                    ),
                    error: None,
                }
            },
            _ => step_unrecognized(cid),
        },
    }
}

/// What the message-handling algorithm decides before any gateway call:
/// stay silent, or submit a working transcript.
#[derive(Debug)]
pub enum TurnPlan {
    Silent,
    Submit(Vec<Msg>),
}

/// The mathematical model of a turn plan.
pub enum TurnPlanModel {
    Silent,
    Submit(Seq<MsgModel>),
}

impl View for TurnPlan {
    type V = TurnPlanModel;

    open spec fn view(&self) -> TurnPlanModel {
        match self {
            TurnPlan::Silent => TurnPlanModel::Silent,
            TurnPlan::Submit(w) => TurnPlanModel::Submit(w.deep_view()),
        }
    }
}

/// The working transcript a submitted turn starts from: the persisted one,
/// opened with the persona when empty, with the user's entry appended.
pub open spec fn spec_working(
    t: Seq<MsgModel>,
    body: Seq<char>,
    sender: Option<Seq<char>>,
    persona: Seq<char>,
) -> Seq<MsgModel> {
    spec_build_submission(t, persona).push(user_msg(body, sender))
}

/// The decision taken on a plain message. While `Muted` nothing moves and
/// nothing is answered; while `Chatting`, a turn is submitted exactly when
/// the mention filter accepts and the stripped body is not blank.
pub open spec fn spec_begin_message_turn(
    st: StateModel,
    text: Seq<char>,
    is_private: bool,
    sender: Option<Seq<char>>,
    cfg: ConfigModel,
) -> TurnPlanModel {
    match st {
        StateModel::Muted => TurnPlanModel::Silent,
        StateModel::Chatting(t) => match spec_gate(text, is_private, cfg.mention) {
            GateModel::Rejected => TurnPlanModel::Silent,
            GateModel::Accepted(body) => if spec_blank(body) {
                TurnPlanModel::Silent
            } else {
                TurnPlanModel::Submit(spec_working(t, body, sender, cfg.persona))
            },
        },
    }
}

/// Runs the pre-gateway half of the message-handling algorithm.
pub fn begin_message_turn(
    st: &State,
    text: &str,
    is_private: bool,
    sender: &Option<String>,
    cfg: &Config,
) -> (p: TurnPlan)
    ensures
        p@ == spec_begin_message_turn(st@, text@, is_private, sender.deep_view(), cfg@),
{
    match st {
        State::Muted => TurnPlan::Silent,
        State::Chatting(t) => match mention_gate(text, is_private, cfg.mention.as_str()) {
            Gate::Rejected => TurnPlan::Silent,
            Gate::Accepted(body) => {
                if is_blank(body.as_str()) {
                    TurnPlan::Silent
                } else {
                    let mut working = build_submission(t, cfg.persona.as_str());
                    let name = match sender {
                        Some(n) => Some(n.clone()),
                        None => None,
                    };
                    let ghost before = working.deep_view();
                    working.push(Msg { role: Role::User, content: body, name });
                    proof {
                        assert(working.deep_view() =~= before.push(
                            working.deep_view().last(),
                        ));
                        assert(working.deep_view() =~= spec_working(
                            t.deep_view(),
                            spec_gate(text@, is_private, cfg.mention@)->Accepted_0,
                            sender.deep_view(),
                            cfg.persona@,
                        ));
                    }
                    TurnPlan::Submit(working)
                }
            },
        },
    }
}

/// Each completion text as an assistant entry under the bot's handle.
pub open spec fn completions_as_msgs(texts: Seq<Seq<char>>, bot: Option<Seq<char>>) -> Seq<
    MsgModel,
> {
    texts.map_values(|c: Seq<char>| assistant_msg(c, bot))
}

/// All completion texts joined into one outbound reply, in provider order.
pub open spec fn spec_join(texts: Seq<Seq<char>>) -> Seq<char>
    decreases texts.len(),
{
    if texts.len() == 0 {
        Seq::empty()
    } else {
        spec_join(texts.drop_last()) + texts.last()
    }
}

/// The turn's outcome once the gateway has answered. A failure persists
/// nothing and surfaces only the correlation id; a success persists the
/// working transcript extended by one assistant entry per completion, and
/// replies with the escaped join of the texts under the usage footer.
pub open spec fn spec_finish_message_turn(
    working: Seq<MsgModel>,
    result: Result<CompletionModel, GatewayFailure>,
    cid: Seq<char>,
    cfg: ConfigModel,
) -> StepResultModel {
    match result {
        Result::Err(f) => StepResultModel {
            new_state: None,
            reply: Some(spec_failure_reply(cid)),
            error: Some(ErrorRecordModel { correlation_id: cid, cause: Cause::Gateway(f) }),
        },
        Result::Ok(c) => StepResultModel {
            new_state: Some(
                StateModel::Chatting(working + completions_as_msgs(c.texts, cfg.bot_name)),
            ),
            reply: Some(
                spec_apply_usage(spec_escape(spec_join(c.texts)), c.usage, cfg.usage_threshold),
            ),
            error: None,
        },
    }
}

/// Runs the post-gateway half of the message-handling algorithm. `cid` is
/// a fresh correlation id, consumed only on failure.
pub fn finish_message_turn(
    working: Vec<Msg>,
    result: Result<CompletionResult, GatewayFailure>,
    cid: String,
    cfg: &Config,
) -> (r: StepResult)
    ensures
        r@ == spec_finish_message_turn(
            working.deep_view(),
            match result {
                Result::Ok(c) => Result::Ok(c@),
                Result::Err(f) => Result::Err(f),
            },
            cid@,
            cfg@,
        ),
{
    match result {
        Result::Err(f) => {
            let reply = failure_reply(cid.as_str());
            StepResult {
                new_state: None,
                reply: Some(reply),
                error: Some(ErrorRecord { correlation_id: cid, cause: Cause::Gateway(f) }),
            }
        },
        Result::Ok(c) => {
            let ghost w0 = working.deep_view();
            let ghost texts = c.texts.deep_view();
            let ghost bot = cfg@.bot_name;
            let mut working = working;
            let mut joined = String::new();
            let mut i: usize = 0;
            while i < c.texts.len()
                invariant
                    i <= c.texts.len(),
                    texts == c.texts.deep_view(),
                    bot == cfg@.bot_name,
                    joined@ == spec_join(texts.take(i as int)),
                    working.deep_view() =~= w0 + completions_as_msgs(texts.take(i as int), bot),
                decreases c.texts.len() - i,
            {
                let txt = c.texts[i].clone();
                joined.append(txt.as_str());
                let name = match &cfg.bot_name {
                    Some(n) => Some(n.clone()),
                    None => None,
                };
                let entry = Msg { role: Role::Assistant, content: txt, name };
                let ghost prev = working.deep_view();
                let ghost entry_model = entry@;
                proof {
                    assert(entry_model == assistant_msg(texts[i as int], bot));
                }
                working.push(entry);
                proof {
                    assert(working.deep_view() =~= prev.push(entry_model));
                    assert(texts.take(i + 1).drop_last() =~= texts.take(i as int));
                    assert(texts.take(i + 1).last() == texts[i as int]);
                    assert(joined@ =~= spec_join(texts.take(i + 1)));
                    assert(completions_as_msgs(texts.take(i + 1), bot) =~= completions_as_msgs(
                        texts.take(i as int),
                        bot,
                    ).push(assistant_msg(texts[i as int], bot)));
                    assert(working.deep_view() =~= w0 + completions_as_msgs(
                        texts.take(i + 1),
                        bot,
                    ));
                }
                i += 1;
            }
            proof {
                assert(texts.take(texts.len() as int) =~= texts);
            }
            let reply = apply_usage(escape(joined.as_str()), &c.usage, cfg.usage_threshold);
            StepResult {
                new_state: Some(State::Chatting(working)),
                reply: Some(reply),
                error: None,
            }
        },
    }
}

/// Muting is idempotent: issued from `Muted` as from any other state, the
/// mute command yields `Muted`, the same confirmation, and no error.
pub proof fn lemma_mute_idempotent(
    cur1: Option<StateModel>,
    cur2: Option<StateModel>,
    is_private: bool,
    mention: Seq<char>,
    cid: Seq<char>,
)
    ensures
        spec_step_command(cur1, Command::Mute, is_private, mention, cid) == spec_step_command(
            cur2,
            Command::Mute,
            is_private,
            mention,
            cid,
        ),
        spec_step_command(cur1, Command::Mute, is_private, mention, cid).new_state == Some(
            StateModel::Muted,
        ),
        spec_step_command(cur1, Command::Mute, is_private, mention, cid).error is None,
{
}

/// A shared-channel message in which the mention token occurs nowhere,
/// while chatting, moves no state and answers nothing.
pub proof fn lemma_shared_without_mention_is_silent(
    t: Seq<MsgModel>,
    text: Seq<char>,
    sender: Option<Seq<char>>,
    cfg: ConfigModel,
)
    requires
        forall|i: int| !match_at(text, cfg.mention, i),
    ensures
        spec_begin_message_turn(StateModel::Chatting(t), text, false, sender, cfg)
            is Silent,
{
    lemma_contains_iff_exists(text, cfg.mention);
}

/// A failed gateway turn is never partially recorded: nothing is
/// persisted, and the reply carries only the correlation id.
pub proof fn lemma_failure_persists_nothing(
    working: Seq<MsgModel>,
    f: GatewayFailure,
    cid: Seq<char>,
    cfg: ConfigModel,
)
    ensures
        spec_finish_message_turn(working, Result::Err(f), cid, cfg).new_state is None,
        spec_finish_message_turn(working, Result::Err(f), cid, cfg).reply == Some(
            spec_failure_reply(cid),
        ),
{
}

/// Round trip: from a freshly activated chat, a message whose stripped
/// body is `body`, answered by the single completion `c`, persists exactly
/// the transcript `[System(persona), User(body), Assistant(c)]`.
pub proof fn lemma_round_trip(
    text: Seq<char>,
    is_private: bool,
    sender: Option<Seq<char>>,
    c: Seq<char>,
    usage: Option<Usage>,
    cid: Seq<char>,
    cfg: ConfigModel,
)
    requires
        spec_gate(text, is_private, cfg.mention) is Accepted,
        !spec_blank(spec_gate(text, is_private, cfg.mention)->Accepted_0),
    ensures
        ({
            let body = spec_gate(text, is_private, cfg.mention)->Accepted_0;
            let plan = spec_begin_message_turn(
                StateModel::Chatting(Seq::empty()),
                text,
                is_private,
                sender,
                cfg,
            );
            let comp = CompletionModel { texts: seq![c], usage };
            &&& plan matches TurnPlanModel::Submit(w)
            &&& spec_finish_message_turn(
                plan->Submit_0,
                Result::Ok(comp),
                cid,
                cfg,
            ).new_state == Some(
                StateModel::Chatting(
                    seq![
                        system_msg(cfg.persona),
                        user_msg(body, sender),
                        assistant_msg(c, cfg.bot_name),
                    ],
                ),
            )
        }),
{
    let body = spec_gate(text, is_private, cfg.mention)->Accepted_0;
    let w = spec_working(Seq::empty(), body, sender, cfg.persona);
    assert(spec_build_submission(Seq::<MsgModel>::empty(), cfg.persona) =~= seq![
        system_msg(cfg.persona),
    ]);
    assert(w =~= seq![system_msg(cfg.persona), user_msg(body, sender)]);
    assert(completions_as_msgs(seq![c], cfg.bot_name) =~= seq![assistant_msg(c, cfg.bot_name)]);
    assert(w + completions_as_msgs(seq![c], cfg.bot_name) =~= seq![
        system_msg(cfg.persona),
        user_msg(body, sender),
        assistant_msg(c, cfg.bot_name),
    ]);
}

} // verus!
