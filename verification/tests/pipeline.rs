//! End-to-end tests of the routing core: decoding, the eligibility gate,
//! registration, and multi-match dispatch.

use slackbot_core::dispatch::{dispatch, CommandHandler, InvocationRecord};
use slackbot_core::errors::HandlerError;
use slackbot_core::handler::{EventOutcome, SlackBotEventHandler};
use slackbot_core::json::normalize;
use slackbot_core::message::eligible;
use slackbot_core::registry::CommandRegistry;
use slackbot_core::reply::{MatchData, ReplyContext, SendCapability};
use slackbot_core::users::{find_user, User};
use std::cell::RefCell;
use std::rc::Rc;

/// A transport stand-in that records every reply it is asked to deliver.
struct RecordingSender {
    sent: RefCell<Vec<(String, String)>>,
    fail_sends: bool,
}

impl RecordingSender {
    fn new() -> Self {
        RecordingSender { sent: RefCell::new(Vec::new()), fail_sends: false }
    }
}

impl SendCapability for RecordingSender {
    fn send_to(&self, channel_id: &str, text: &str) -> Result<(), slackbot_core::errors::SendError> {
        if self.fail_sends {
            return Err(slackbot_core::errors::SendError { message: "connection lost".to_string() });
        }
        self.sent.borrow_mut().push((channel_id.to_string(), text.to_string()));
        Ok(())
    }
}

/// One recorded handler invocation: handler label, bound channel, resolved
/// user id, and the capture groups handed over.
type Call = (String, String, String, Vec<Option<String>>);

/// A command handler stand-in that records its invocations and can be told
/// to fail.
struct TestHandler {
    label: &'static str,
    fail: bool,
    reply: Option<&'static str>,
    calls: Rc<RefCell<Vec<Call>>>,
}

impl CommandHandler<RecordingSender> for TestHandler {
    fn handle(
        &self,
        ctx: &ReplyContext<RecordingSender>,
        m: &MatchData,
    ) -> Result<(), HandlerError> {
        let mut groups: Vec<Option<String>> = Vec::new();
        let mut i = 0;
        while i < m.len() {
            groups.push(m.group(i).cloned());
            i += 1;
        }
        self.calls.borrow_mut().push((
            self.label.to_string(),
            ctx.channel_id().clone(),
            ctx.user().id.clone(),
            groups,
        ));
        if self.fail {
            return Err(HandlerError { message: "handler failed".to_string() });
        }
        if let Some(text) = self.reply {
            ctx.send(text).map_err(|e| HandlerError { message: e.message })?;
        }
        Ok(())
    }
}

fn directory() -> Vec<User> {
    vec![
        User { id: "U0".to_string(), name: "ada".to_string() },
        User { id: "U1".to_string(), name: "grace".to_string() },
    ]
}

fn handler(label: &'static str, calls: &Rc<RefCell<Vec<Call>>>) -> TestHandler {
    TestHandler { label, fail: false, reply: None, calls: calls.clone() }
}

#[test]
fn normalize_reads_the_recognized_keys() {
    let payload = r#"{"type":"message","user":"U1","text":"!ping 42","channel":"C1"}"#;
    let msg = normalize(payload).unwrap();
    let gated = eligible(&msg).unwrap();
    assert_eq!(gated.sender_id(), "U1");
    assert_eq!(gated.text(), "!ping 42");
    assert_eq!(gated.channel_id(), "C1");
}

#[test]
fn normalize_ignores_unknown_keys() {
    let payload = r#"{"type":"message","user":"U1","text":"hi","channel":"C1","ts":"123.45","team":"T1"}"#;
    let msg = normalize(payload).unwrap();
    assert!(eligible(&msg).is_some());
}

#[test]
fn normalize_rejects_malformed_payloads() {
    assert!(normalize("{\"type\": ").is_err());
    assert!(normalize("").is_err());
    assert!(normalize("42").is_err());
    assert!(normalize("[1, 2]").is_err());
}

#[test]
fn eligibility_requires_every_field_and_no_subtype() {
    // Missing `type`, `user`, `text`, `channel` in turn, then a subtype.
    let missing = [
        r#"{"user":"U1","text":"hi","channel":"C1"}"#,
        r#"{"type":"message","text":"hi","channel":"C1"}"#,
        r#"{"type":"message","user":"U1","channel":"C1"}"#,
        r#"{"type":"message","user":"U1","text":"hi"}"#,
        r#"{"type":"message","subtype":"message_changed","user":"U1","text":"hi","channel":"C1"}"#,
        r#"{"type":"presence_change","user":"U1","text":"hi","channel":"C1"}"#,
    ];
    for payload in missing {
        let msg = normalize(payload).unwrap();
        assert!(eligible(&msg).is_none(), "wrongly eligible: {payload}");
    }
}

#[test]
fn ineligible_events_invoke_no_handler() {
    let calls: Rc<RefCell<Vec<Call>>> = Rc::new(RefCell::new(Vec::new()));
    let mut registry = CommandRegistry::new();
    registry.register(".*", handler("catch-all", &calls)).unwrap();
    let bot = SlackBotEventHandler::new("bot".to_string(), registry);
    let sender = RecordingSender::new();
    let outcome = bot.on_event(
        r#"{"type":"user_typing","user":"U1","channel":"C1"}"#,
        &directory(),
        &sender,
    );
    assert!(matches!(outcome, EventOutcome::Ignored));
    assert!(calls.borrow().is_empty());
}

#[test]
fn ping_scenario_invokes_the_handler_once_with_the_capture() {
    let calls: Rc<RefCell<Vec<Call>>> = Rc::new(RefCell::new(Vec::new()));
    let mut registry = CommandRegistry::new();
    registry
        .register(
            r"^!ping (\d+)$",
            TestHandler { label: "ping", fail: false, reply: Some("pong"), calls: calls.clone() },
        )
        .unwrap();
    let bot = SlackBotEventHandler::new("bot".to_string(), registry);
    let sender = RecordingSender::new();
    let outcome = bot.on_event(
        r#"{"type":"message","user":"U1","text":"!ping 42","channel":"C1"}"#,
        &directory(),
        &sender,
    );
    let report = match outcome {
        EventOutcome::Dispatched(report) => report,
        other => panic!("expected a dispatch, got {other:?}"),
    };
    assert_eq!(report.len(), 1);
    assert_eq!(report[0].pattern_index, 0);
    assert_eq!(report[0].channel_id, "C1");
    assert_eq!(report[0].user_id, "U1");
    assert!(report[0].succeeded);
    assert_eq!(report[0].match_data.len(), 2);
    assert_eq!(report[0].match_data.group(0), Some(&"!ping 42".to_string()));
    assert_eq!(report[0].match_data.group(1), Some(&"42".to_string()));

    let recorded = calls.borrow();
    assert_eq!(recorded.len(), 1);
    let (label, channel, user_id, groups) = &recorded[0];
    assert_eq!(label, "ping");
    assert_eq!(channel, "C1");
    assert_eq!(user_id, "U1");
    assert_eq!(
        groups,
        &vec![Some("!ping 42".to_string()), Some("42".to_string())],
    );
    // The handler's reply went out to the bound channel.
    assert_eq!(*sender.sent.borrow(), vec![("C1".to_string(), "pong".to_string())]);
}

#[test]
fn bot_subtype_invokes_no_handler() {
    let calls: Rc<RefCell<Vec<Call>>> = Rc::new(RefCell::new(Vec::new()));
    let mut registry = CommandRegistry::new();
    registry.register(r"^!ping (\d+)$", handler("ping", &calls)).unwrap();
    let bot = SlackBotEventHandler::new("bot".to_string(), registry);
    let sender = RecordingSender::new();
    let outcome = bot.on_event(
        r#"{"type":"message","subtype":"bot_message","user":"U1","text":"!ping 42","channel":"C1"}"#,
        &directory(),
        &sender,
    );
    assert!(matches!(outcome, EventOutcome::Ignored));
    assert!(calls.borrow().is_empty());
}

#[test]
fn unknown_sender_reports_and_invokes_no_handler() {
    let calls: Rc<RefCell<Vec<Call>>> = Rc::new(RefCell::new(Vec::new()));
    let mut registry = CommandRegistry::new();
    registry.register(r"^!ping (\d+)$", handler("ping", &calls)).unwrap();
    let bot = SlackBotEventHandler::new("bot".to_string(), registry);
    let sender = RecordingSender::new();
    let outcome = bot.on_event(
        r#"{"type":"message","user":"U9","text":"!ping 42","channel":"C1"}"#,
        &directory(),
        &sender,
    );
    let err = match outcome {
        EventOutcome::UnknownUser(err) => err,
        other => panic!("expected an unknown-user report, got {other:?}"),
    };
    assert_eq!(err.sender_id, "U9");
    assert!(calls.borrow().is_empty());
}

#[test]
fn all_matching_handlers_run_in_registration_order() {
    let calls: Rc<RefCell<Vec<Call>>> = Rc::new(RefCell::new(Vec::new()));
    let mut registry = CommandRegistry::new();
    registry.register("deploy", handler("word", &calls)).unwrap();
    registry.register("^nope$", handler("never", &calls)).unwrap();
    registry.register(r"deploy (\w+)", handler("target", &calls)).unwrap();
    let bot = SlackBotEventHandler::new("bot".to_string(), registry);
    let sender = RecordingSender::new();
    let outcome = bot.on_event(
        r#"{"type":"message","user":"U0","text":"please deploy api now","channel":"C2"}"#,
        &directory(),
        &sender,
    );
    let report = match outcome {
        EventOutcome::Dispatched(report) => report,
        other => panic!("expected a dispatch, got {other:?}"),
    };
    assert_eq!(report.len(), 2);
    assert_eq!(report[0].pattern_index, 0);
    assert_eq!(report[1].pattern_index, 2);
    let recorded = calls.borrow();
    assert_eq!(recorded.len(), 2);
    assert_eq!(recorded[0].0, "word");
    assert_eq!(recorded[1].0, "target");
    assert_eq!(recorded[1].3, vec![Some("deploy api".to_string()), Some("api".to_string())]);
}

#[test]
fn failing_handler_does_not_stop_the_rest() {
    let calls: Rc<RefCell<Vec<Call>>> = Rc::new(RefCell::new(Vec::new()));
    let mut registry = CommandRegistry::new();
    registry
        .register("hello", TestHandler { label: "first", fail: true, reply: None, calls: calls.clone() })
        .unwrap();
    registry.register("hel+o", handler("second", &calls)).unwrap();
    let bot = SlackBotEventHandler::new("bot".to_string(), registry);
    let sender = RecordingSender::new();
    let outcome = bot.on_event(
        r#"{"type":"message","user":"U0","text":"hello there","channel":"C3"}"#,
        &directory(),
        &sender,
    );
    let report = match outcome {
        EventOutcome::Dispatched(report) => report,
        other => panic!("expected a dispatch, got {other:?}"),
    };
    assert_eq!(report.len(), 2);
    assert!(!report[0].succeeded);
    assert!(report[1].succeeded);
    let recorded = calls.borrow();
    assert_eq!(recorded.len(), 2);
    assert_eq!(recorded[0].0, "first");
    assert_eq!(recorded[1].0, "second");
}

#[test]
fn invalid_pattern_fails_registration_and_leaves_the_registry_unchanged() {
    let calls: Rc<RefCell<Vec<Call>>> = Rc::new(RefCell::new(Vec::new()));
    let mut registry = CommandRegistry::new();
    registry.register("^!echo", handler("echo", &calls)).unwrap();
    let result = registry.register("(unclosed", handler("bad", &calls));
    assert!(result.is_err());
    assert_eq!(registry.len(), 1);
    assert_eq!(registry.pattern_source_at(0), "^!echo");
}

#[test]
fn reregistering_a_pattern_replaces_its_handler_in_place() {
    let calls: Rc<RefCell<Vec<Call>>> = Rc::new(RefCell::new(Vec::new()));
    let mut registry = CommandRegistry::new();
    registry.register("first", handler("a", &calls)).unwrap();
    registry.register("ping", handler("old", &calls)).unwrap();
    registry.register("last", handler("z", &calls)).unwrap();
    registry.register("ping", handler("new", &calls)).unwrap();
    assert_eq!(registry.len(), 3);
    assert_eq!(registry.pattern_source_at(1), "ping");

    let users = directory();
    let sender = RecordingSender::new();
    let msg = normalize(r#"{"type":"message","user":"U0","text":"ping","channel":"C1"}"#).unwrap();
    let gated = eligible(&msg).unwrap();
    let report = dispatch(&gated, &registry, &users, &sender).unwrap();
    assert_eq!(report.len(), 1);
    assert_eq!(report[0].pattern_index, 1);
    let recorded = calls.borrow();
    assert_eq!(recorded.len(), 1);
    assert_eq!(recorded[0].0, "new");
}

#[test]
fn empty_text_matches_no_nonempty_pattern_but_empty_pattern_matches_all() {
    let calls: Rc<RefCell<Vec<Call>>> = Rc::new(RefCell::new(Vec::new()));
    let mut registry = CommandRegistry::new();
    registry.register("ping", handler("word", &calls)).unwrap();
    let users = directory();
    let sender = RecordingSender::new();
    let msg = normalize(r#"{"type":"message","user":"U0","text":"","channel":"C1"}"#).unwrap();
    let gated = eligible(&msg).unwrap();
    let report = dispatch(&gated, &registry, &users, &sender).unwrap();
    assert!(report.is_empty());
    assert!(calls.borrow().is_empty());

    // A pattern matching the empty string matches every eligible message:
    // permitted by design, a pitfall for registrants rather than an error.
    let mut registry2 = CommandRegistry::new();
    registry2.register("", handler("empty", &calls)).unwrap();
    let report2 = dispatch(&gated, &registry2, &users, &sender).unwrap();
    assert_eq!(report2.len(), 1);
    assert_eq!(calls.borrow().len(), 1);
}

#[test]
fn send_failures_are_surfaced_to_the_handler() {
    let calls: Rc<RefCell<Vec<Call>>> = Rc::new(RefCell::new(Vec::new()));
    let mut registry = CommandRegistry::new();
    registry
        .register(
            "hi",
            TestHandler { label: "greet", fail: false, reply: Some("hello"), calls: calls.clone() },
        )
        .unwrap();
    let mut sender = RecordingSender::new();
    sender.fail_sends = true;
    let users = directory();
    let msg = normalize(r#"{"type":"message","user":"U0","text":"hi","channel":"C1"}"#).unwrap();
    let gated = eligible(&msg).unwrap();
    let report = dispatch(&gated, &registry, &users, &sender).unwrap();
    assert_eq!(report.len(), 1);
    // The handler forwarded the send failure, so its invocation failed.
    assert!(!report[0].succeeded);
    assert!(sender.sent.borrow().is_empty());
}

#[test]
fn find_user_returns_the_first_match() {
    let users = vec![
        User { id: "U2".to_string(), name: "one".to_string() },
        User { id: "U3".to_string(), name: "two".to_string() },
        User { id: "U2".to_string(), name: "three".to_string() },
    ];
    assert_eq!(find_user(&users, "U2"), Some(0));
    assert_eq!(find_user(&users, "U3"), Some(1));
    assert_eq!(find_user(&users, "U4"), None);
    assert_eq!(find_user(&Vec::new(), "U2"), None);
}

#[test]
fn the_bot_keeps_its_name_and_registry() {
    let calls: Rc<RefCell<Vec<Call>>> = Rc::new(RefCell::new(Vec::new()));
    let mut registry = CommandRegistry::new();
    registry.register("a", handler("a", &calls)).unwrap();
    registry.register("b", handler("b", &calls)).unwrap();
    let bot: SlackBotEventHandler<TestHandler> =
        SlackBotEventHandler::new("robbie".to_string(), registry);
    assert_eq!(bot.bot_name(), "robbie");
    assert_eq!(bot.registry().len(), 2);
    assert_eq!(bot.registry().pattern_source_at(0), "a");
    assert_eq!(bot.registry().pattern_source_at(1), "b");
    let entries = bot.registry().entries();
    assert_eq!(entries.len(), 2);
    assert_eq!(entries[0].0, "a");
    assert_eq!(entries[1].0, "b");
    assert_eq!(entries[0].1.label, "a");
    assert_eq!(entries[1].1.label, "b");
}

#[test]
fn match_data_exposes_unmatched_groups_as_none() {
    let calls: Rc<RefCell<Vec<Call>>> = Rc::new(RefCell::new(Vec::new()));
    let mut registry = CommandRegistry::new();
    registry.register(r"!cmd (a)|!cmd (b)", handler("alt", &calls)).unwrap();
    let users = directory();
    let sender = RecordingSender::new();
    let msg = normalize(r#"{"type":"message","user":"U0","text":"!cmd b","channel":"C1"}"#).unwrap();
    let gated = eligible(&msg).unwrap();
    let report = dispatch(&gated, &registry, &users, &sender).unwrap();
    assert_eq!(report.len(), 1);
    let md: &slackbot_core::reply::MatchData = &report[0].match_data;
    assert_eq!(md.len(), 3);
    assert_eq!(md.group(0), Some(&"!cmd b".to_string()));
    assert_eq!(md.group(1), None);
    assert_eq!(md.group(2), Some(&"b".to_string()));
}
