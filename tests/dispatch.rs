use fishbot::commands::{find_user_argument, standard_registry, ArgValue, Argument, Data, User};
use fishbot::dispatch::{dispatch, settle, Action, Event, Outcome};
use fishbot::registry::{Command, CommandDescriptor, InvocationKind, InvocationKinds, Registry};
use fishbot::reply::{ButtonStyle, WireMessage};

fn user(id: u64, name: &str, created_at: &str) -> User {
    User { id, display_name: name.to_string(), created_at: created_at.to_string() }
}

fn alice() -> User {
    user(1, "Alice", "2020-01-01T00:00:00Z")
}

fn event(name: &str, kind: InvocationKind, arguments: Vec<Argument>) -> Event {
    Event { command_name: name.to_string(), kind, invoker: alice(), channel: 77, arguments }
}

fn sent(a: Action) -> (u64, WireMessage) {
    match a {
        Action::Send { channel, message } => (channel, message),
        Action::Ignore => panic!("expected a reply"),
    }
}

#[test]
fn unknown_command_is_ignored() {
    let r = standard_registry();
    assert_eq!(dispatch(&r, &Data {}, &event("ping", InvocationKind::Slash, vec![])), Action::Ignore);
    assert_eq!(dispatch(&r, &Data {}, &event("AGE", InvocationKind::Prefix, vec![])), Action::Ignore);
}

#[test]
fn kind_mismatch_is_ignored() {
    let mut r = Registry::new();
    let d = CommandDescriptor { name: "age".to_string(), kinds: InvocationKinds::SlashOnly, command: Command::Age };
    assert_eq!(r.register(d), Ok(()));
    assert_eq!(dispatch(&r, &Data {}, &event("age", InvocationKind::Prefix, vec![])), Action::Ignore);
    let (channel, _) = sent(dispatch(&r, &Data {}, &event("age", InvocationKind::Slash, vec![])));
    assert_eq!(channel, 77);
}

#[test]
fn age_targets_invoker_without_argument() {
    let r = standard_registry();
    let (channel, m) = sent(dispatch(&r, &Data {}, &event("age", InvocationKind::Slash, vec![])));
    assert_eq!(channel, 77);
    assert_eq!(m.content, Some("Alice's account was created at 2020-01-01T00:00:00Z".to_string()));
    assert!(m.embeds.is_empty());
}

#[test]
fn age_targets_user_argument() {
    let r = standard_registry();
    let args = vec![Argument { name: "user".to_string(), value: ArgValue::User(user(2, "Bob", "2019-05-05T00:00:00Z")) }];
    let (_, m) = sent(dispatch(&r, &Data {}, &event("age", InvocationKind::Slash, args)));
    assert_eq!(m.content, Some("Bob's account was created at 2019-05-05T00:00:00Z".to_string()));
}

#[test]
fn help_is_ephemeral_embed_with_one_link_button() {
    let r = standard_registry();
    let (_, m) = sent(dispatch(&r, &Data {}, &event("help", InvocationKind::Slash, vec![])));
    assert!(m.ephemeral);
    assert_eq!(m.content, None);
    assert_eq!(m.embeds.len(), 1);
    assert_eq!(m.embeds[0].title, "Help");
    assert_eq!(m.components.len(), 1);
    assert_eq!(m.components[0].buttons.len(), 1);
    let b = &m.components[0].buttons[0];
    assert_eq!(b.style, ButtonStyle::Link);
    assert!(b.url.as_deref().unwrap_or("").starts_with("https://"));
    assert_eq!(b.custom_id, None);
}

#[test]
fn help_by_prefix_is_not_ephemeral() {
    let r = standard_registry();
    let (_, m) = sent(dispatch(&r, &Data {}, &event("help", InvocationKind::Prefix, vec![])));
    assert!(!m.ephemeral);
    assert_eq!(m.components.len(), 1);
}

#[test]
fn fishproof_is_fixed_text() {
    let r = standard_registry();
    let (_, a) = sent(dispatch(&r, &Data {}, &event("fishproof", InvocationKind::Slash, vec![])));
    let (_, b) = sent(dispatch(&r, &Data {}, &event("fishproof", InvocationKind::Prefix, vec![])));
    assert!(a.content.as_deref().unwrap_or("").starts_with("Fish are real."));
    assert_eq!(a, b);
}

#[test]
fn failure_is_reported_and_next_event_is_served() {
    let r = standard_registry();
    let (_, _partial) = sent(dispatch(&r, &Data {}, &event("age", InvocationKind::Slash, vec![])));
    let outcome = settle(&"age".to_string(), Err("connection reset".to_string()));
    assert_eq!(
        outcome,
        Outcome::Failed { command: "age".to_string(), error: "connection reset".to_string() }
    );
    let (channel, m) = sent(dispatch(&r, &Data {}, &event("help", InvocationKind::Slash, vec![])));
    assert_eq!(channel, 77);
    assert_eq!(m.embeds.len(), 1);
    assert_eq!(settle(&"help".to_string(), Ok(())), Outcome::Completed);
}

#[test]
fn user_argument_is_first_user_named_user() {
    let args = vec![
        Argument { name: "note".to_string(), value: ArgValue::User(user(3, "Carol", "x")) },
        Argument { name: "user".to_string(), value: ArgValue::Text("not a user".to_string()) },
        Argument { name: "user".to_string(), value: ArgValue::User(user(4, "Dan", "y")) },
        Argument { name: "user".to_string(), value: ArgValue::User(user(5, "Eve", "z")) },
    ];
    assert_eq!(find_user_argument(&args).map(|u| u.id), Some(4));
    assert_eq!(find_user_argument(&vec![]), None);
    let only_text = vec![Argument { name: "user".to_string(), value: ArgValue::Text("t".to_string()) }];
    assert_eq!(find_user_argument(&only_text), None);
}
