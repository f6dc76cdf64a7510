use know_it_all_bot::controller::{
    begin_message_turn, finish_message_turn, step_command, step_unrecognized, Command, Config,
    TurnPlan,
};
use know_it_all_bot::gateway::{CompletionResult, GatewayFailure, Usage};
use know_it_all_bot::report::{failure_reply, new_correlation_id, Cause};
use know_it_all_bot::session::{SessionStore, State};
use know_it_all_bot::transcript::{Msg, Role};
use know_it_all_bot::CONTEXT_HIGH_WATER;

fn test_config() -> Config {
    Config {
        mention: String::from("@know_it_all_bot"),
        bot_name: Some(String::from("know_it_all_bot")),
        persona: String::from("You are GTP-4 a Telegram chat bot"),
        usage_threshold: CONTEXT_HIGH_WATER,
    }
}

fn cid() -> String {
    String::from("0123456789abcdef0123456789abcdef")
}

#[test]
fn fresh_chat_id_starts_muted() {
    let store = SessionStore::new();
    assert!(store.lookup(42).is_none());
    assert!(matches!(store.load(42), State::Muted));
}

#[test]
fn store_returns_most_recently_saved_state() {
    let mut store = SessionStore::new();
    let t = vec![Msg { role: Role::User, content: String::from("hi"), name: None }];
    store.save(7, State::Chatting(t));
    match store.load(7) {
        State::Chatting(msgs) => {
            assert_eq!(msgs.len(), 1);
            assert_eq!(msgs[0].content, "hi");
        },
        State::Muted => panic!("saved state was lost"),
    }
    store.save(7, State::Muted);
    assert!(matches!(store.load(7), State::Muted));
}

#[test]
fn mute_is_idempotent_from_muted() {
    let cfg = test_config();
    let from_muted = step_command(
        &Some(State::Muted),
        Command::Mute,
        true,
        cfg.mention.as_str(),
        cid(),
    );
    let from_chatting = step_command(
        &Some(State::Chatting(Vec::new())),
        Command::Mute,
        true,
        cfg.mention.as_str(),
        cid(),
    );
    assert!(matches!(from_muted.new_state, Some(State::Muted)));
    assert!(matches!(from_chatting.new_state, Some(State::Muted)));
    assert_eq!(from_muted.reply.unwrap(), "`Muted until futher notice`");
    assert_eq!(from_chatting.reply.unwrap(), "`Muted until futher notice`");
    assert!(from_muted.error.is_none());
    assert!(from_chatting.error.is_none());
}

#[test]
fn activation_replies_by_channel_privacy() {
    let cfg = test_config();
    let private = step_command(&None, Command::Chat, true, cfg.mention.as_str(), cid());
    assert_eq!(private.reply.unwrap(), "`Starting private chat mode, REPL`");
    match private.new_state {
        Some(State::Chatting(t)) => assert!(t.is_empty()),
        _ => panic!("activation did not open an empty transcript"),
    }
    let shared = step_command(&None, Command::Chat, false, cfg.mention.as_str(), cid());
    assert_eq!(
        shared.reply.unwrap(),
        "`Starting group chat mode, REPL. Prepend messages with @know_it_all_bot`"
    );
}

#[test]
fn reset_clears_transcript_but_stays_chatting() {
    let cfg = test_config();
    let t = vec![Msg { role: Role::User, content: String::from("hi"), name: None }];
    let r = step_command(
        &Some(State::Chatting(t)),
        Command::Reset,
        true,
        cfg.mention.as_str(),
        cid(),
    );
    match r.new_state {
        Some(State::Chatting(t)) => assert!(t.is_empty()),
        _ => panic!("reset left chatting"),
    }
    assert_eq!(
        r.reply.unwrap(),
        "`Conversation history has been deleted. Still in chat, REPL mode`"
    );
    assert!(r.error.is_none());
}

#[test]
fn reset_while_muted_takes_the_catch_all() {
    let cfg = test_config();
    let r = step_command(
        &Some(State::Muted),
        Command::Reset,
        true,
        cfg.mention.as_str(),
        cid(),
    );
    assert!(matches!(r.new_state, Some(State::Muted)));
    let reply = r.reply.unwrap();
    assert!(reply.contains("0123456789abcdef0123456789abcdef"));
    assert!(matches!(r.error.unwrap().cause, Cause::UnexpectedInput));
}

#[test]
fn state_query_renders_each_state() {
    let cfg = test_config();
    let none = step_command(&None, Command::State, true, cfg.mention.as_str(), cid());
    assert_eq!(none.reply.unwrap(), "No active conversation");
    assert!(none.new_state.is_none());

    let muted = step_command(
        &Some(State::Muted),
        Command::State,
        true,
        cfg.mention.as_str(),
        cid(),
    );
    assert_eq!(muted.reply.unwrap(), "State: muted");

    let t = vec![
        Msg { role: Role::User, content: String::from("a"), name: None },
        Msg { role: Role::Assistant, content: String::from("b"), name: None },
    ];
    let chatting = step_command(
        &Some(State::Chatting(t)),
        Command::State,
        true,
        cfg.mention.as_str(),
        cid(),
    );
    assert_eq!(chatting.reply.unwrap(), "State: chatting (2 msgs)");
}

#[test]
fn history_query_renders_dump_or_placeholders() {
    let cfg = test_config();
    let none = step_command(&None, Command::History, true, cfg.mention.as_str(), cid());
    assert_eq!(none.reply.unwrap(), "No active conversation");

    let muted = step_command(
        &Some(State::Muted),
        Command::History,
        true,
        cfg.mention.as_str(),
        cid(),
    );
    assert_eq!(muted.reply.unwrap(), "Bot is muted");

    let empty = step_command(
        &Some(State::Chatting(Vec::new())),
        Command::History,
        true,
        cfg.mention.as_str(),
        cid(),
    );
    assert_eq!(empty.reply.unwrap(), "`there is no history`");

    let t = vec![
        Msg { role: Role::System, content: String::from("persona"), name: None },
        Msg { role: Role::User, content: String::from("hi."), name: Some(String::from("alice")) },
    ];
    let dump = step_command(
        &Some(State::Chatting(t)),
        Command::History,
        true,
        cfg.mention.as_str(),
        cid(),
    );
    assert_eq!(dump.reply.unwrap(), "System: persona\nalice: hi\\.\n");
}

#[test]
fn message_while_muted_is_silent() {
    let cfg = test_config();
    let plan = begin_message_turn(&State::Muted, "hello", true, &None, &cfg);
    assert!(matches!(plan, TurnPlan::Silent));
}

#[test]
fn shared_message_without_mention_is_silent() {
    let cfg = test_config();
    let plan = begin_message_turn(
        &State::Chatting(Vec::new()),
        "random chatter",
        false,
        &None,
        &cfg,
    );
    assert!(matches!(plan, TurnPlan::Silent));
}

#[test]
fn blank_message_after_stripping_is_silent() {
    let cfg = test_config();
    let plan = begin_message_turn(
        &State::Chatting(Vec::new()),
        "@know_it_all_bot   ",
        false,
        &None,
        &cfg,
    );
    assert!(matches!(plan, TurnPlan::Silent));
}

#[test]
fn round_trip_persists_system_user_assistant() {
    let cfg = test_config();
    let activated = step_command(&None, Command::Chat, true, cfg.mention.as_str(), cid());
    assert_eq!(activated.reply.unwrap(), "`Starting private chat mode, REPL`");
    let state = activated.new_state.unwrap();

    let plan = begin_message_turn(&state, "hello", true, &None, &cfg);
    let working = match plan {
        TurnPlan::Submit(w) => w,
        TurnPlan::Silent => panic!("accepted message produced no submission"),
    };
    assert_eq!(working.len(), 2);
    assert!(matches!(working[0].role, Role::System));
    assert_eq!(working[0].content, "You are GTP-4 a Telegram chat bot");
    assert!(matches!(working[1].role, Role::User));
    assert_eq!(working[1].content, "hello");

    let completion = CompletionResult {
        texts: vec![String::from("hi there")],
        usage: Some(Usage { prompt_tokens: 10, completion_tokens: 2, total_tokens: 12 }),
    };
    let r = finish_message_turn(working, Ok(completion), cid(), &cfg);
    assert_eq!(
        r.reply.unwrap(),
        "hi there\n\n`usage 12 tokens = 10 prompt + 2 completion`"
    );
    assert!(r.error.is_none());
    match r.new_state.unwrap() {
        State::Chatting(t) => {
            assert_eq!(t.len(), 3);
            assert!(matches!(t[0].role, Role::System));
            assert!(matches!(t[1].role, Role::User));
            assert_eq!(t[1].content, "hello");
            assert!(matches!(t[2].role, Role::Assistant));
            assert_eq!(t[2].content, "hi there");
            assert_eq!(t[2].name.as_deref(), Some("know_it_all_bot"));
        },
        State::Muted => panic!("successful turn muted the chat"),
    }
}

#[test]
fn high_usage_total_adds_reset_advisory() {
    let cfg = test_config();
    let working = vec![
        Msg { role: Role::System, content: cfg.persona.clone(), name: None },
        Msg { role: Role::User, content: String::from("hello"), name: None },
    ];
    let completion = CompletionResult {
        texts: vec![String::from("hi there")],
        usage: Some(Usage { prompt_tokens: 10, completion_tokens: 2, total_tokens: 7000 }),
    };
    let r = finish_message_turn(working, Ok(completion), cid(), &cfg);
    assert_eq!(
        r.reply.unwrap(),
        "hi there\n\n`usage 7000 tokens = 10 prompt + 2 completion`\n`Reaching 8k limit, consider running /reset soon`"
    );
}

#[test]
fn multiple_completions_are_joined_never_dropped() {
    let cfg = test_config();
    let completion = CompletionResult {
        texts: vec![String::from("first"), String::from(" second")],
        usage: None,
    };
    let r = finish_message_turn(Vec::new(), Ok(completion), cid(), &cfg);
    assert_eq!(r.reply.unwrap(), "first second");
    match r.new_state.unwrap() {
        State::Chatting(t) => {
            assert_eq!(t.len(), 2);
            assert_eq!(t[0].content, "first");
            assert_eq!(t[1].content, " second");
        },
        State::Muted => panic!("successful turn muted the chat"),
    }
}

#[test]
fn gateway_failure_persists_nothing_and_reports_id() {
    let cfg = test_config();
    let working = vec![
        Msg { role: Role::System, content: cfg.persona.clone(), name: None },
        Msg { role: Role::User, content: String::from("hello"), name: None },
    ];
    let r = finish_message_turn(working, Err(GatewayFailure::Network), cid(), &cfg);
    assert!(r.new_state.is_none());
    let reply = r.reply.unwrap();
    assert_eq!(
        reply,
        "there was an error processing your request, you can use this ID to track the issue `0123456789abcdef0123456789abcdef`"
    );
    let err = r.error.unwrap();
    assert_eq!(err.correlation_id, cid());
    assert!(matches!(err.cause, Cause::Gateway(GatewayFailure::Network)));
}

#[test]
fn unrecognized_command_while_muted_reports_and_stays_muted() {
    let id = new_correlation_id();
    let r = step_unrecognized(id.clone());
    assert!(matches!(r.new_state, Some(State::Muted)));
    let reply = r.reply.unwrap();
    assert!(reply.contains(id.as_str()));
    assert!(matches!(r.error.unwrap().cause, Cause::UnexpectedInput));
}

#[test]
fn correlation_ids_are_32_hex_digits_and_vary() {
    let a = new_correlation_id();
    let b = new_correlation_id();
    assert_eq!(a.len(), 32);
    assert!(a.chars().all(|c| c.is_ascii_hexdigit() && !c.is_ascii_uppercase()));
    assert_ne!(a, b);
}

#[test]
fn failure_reply_carries_only_the_id() {
    assert_eq!(
        failure_reply("deadbeef"),
        "there was an error processing your request, you can use this ID to track the issue `deadbeef`"
    );
}

#[test]
fn sender_handle_is_recorded_on_the_user_entry() {
    let cfg = test_config();
    let plan = begin_message_turn(
        &State::Chatting(Vec::new()),
        "@know_it_all_bot what is up",
        false,
        &Some(String::from("alice")),
        &cfg,
    );
    let working = match plan {
        TurnPlan::Submit(w) => w,
        TurnPlan::Silent => panic!("mentioned message produced no submission"),
    };
    assert_eq!(working.len(), 2);
    assert!(matches!(working[1].role, Role::User));
    assert_eq!(working[1].content, " what is up");
    assert_eq!(working[1].name.as_deref(), Some("alice"));
}
