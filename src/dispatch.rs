//! The dispatcher: from an inbound event to the action to take, and from the
//! result of that action to the invocation's outcome.

use vstd::prelude::*;
use crate::commands::{args_view, reply_of, run, Argument, Data, InvocationContext, User};
use crate::registry::{answers, has_name, names_distinct, resolve, InvocationKind, Registry};
use crate::reply::{build, wire_of, WireMessage, WireMessageView};

verus! {

/// An inbound interaction: which command, how it was invoked, by whom, in
/// which channel, and with which named arguments.
#[derive(Debug, PartialEq, Eq)]
pub struct Event {
    pub command_name: String,
    pub kind: InvocationKind,
    pub invoker: User,
    pub channel: u64,
    pub arguments: Vec<Argument>,
}

/// What the event loop does for one event.
#[derive(Debug, PartialEq, Eq)]
pub enum Action {
    /// Nothing: the event names no command that accepts its kind.
    Ignore,
    /// Send `message` to `channel`.
    Send { channel: u64, message: WireMessage },
}

/// A message as it goes out in reply to an invocation of `kind`: only a slash
/// invocation can be answered ephemerally.
pub open spec fn for_kind(m: WireMessageView, kind: InvocationKind) -> WireMessageView {
    WireMessageView {
        content: m.content,
        embeds: m.embeds,
        components: m.components,
        ephemeral: m.ephemeral && kind == InvocationKind::Slash,
    }
}

/// What the dispatcher sends for `event`, if anything.
pub open spec fn planned_reply(registry: Registry, event: Event) -> Option<WireMessageView> {
    match resolve(registry@, event.command_name@, event.kind) {
        Some(c) => Some(
            for_kind(wire_of(reply_of(c, event.invoker@, args_view(event.arguments@))), event.kind),
        ),
        None => None,
    }
}

/// Routes `event` to the command registered under its name and builds that
/// command's reply for the event's channel. An event whose name is unknown, or
/// whose kind the command does not accept, is dropped without a reply.
pub fn dispatch(registry: &Registry, data: &Data, event: &Event) -> (a: Action)
    ensures
        planned_reply(*registry, *event) is None <==> a is Ignore,
        a matches Action::Send { channel, message } ==> channel == event.channel && Some(message@)
            == planned_reply(*registry, *event),
{
    match registry.lookup(&event.command_name, event.kind) {
        None => Action::Ignore,
        Some(command) => {
            let ctx = InvocationContext { invoker: &event.invoker, channel: event.channel, kind: event.kind };
            let intent = run(command, data, &ctx, &event.arguments);
            let mut message = build(&intent);
            message.ephemeral = message.ephemeral && event.kind == InvocationKind::Slash;
            Action::Send { channel: event.channel, message }
        },
    }
}

/// How one invocation ended.
#[derive(Debug, PartialEq, Eq)]
pub enum Outcome {
    /// The reply went out.
    Completed,
    /// The reply could not be sent; the error goes to the operator's log and
    /// the event loop carries on with the next event.
    Failed { command: String, error: String },
}

/// The outcome of an invocation of `command` whose reply was sent with
/// result `sent`. A failure is reported once and never retried.
pub fn settle(command: &String, sent: Result<(), String>) -> (o: Outcome)
    ensures
        sent is Ok <==> o is Completed,
        sent matches Err(e) ==> (o matches Outcome::Failed { command: c, error } && c@ == command@
            && error@ == e@),
{
    match sent {
        Ok(()) => Outcome::Completed,
        Err(error) => Outcome::Failed { command: command.clone(), error },
    }
}

/// An event whose name no command is registered under is dropped: nothing is
/// sent, and nothing is reported.
pub proof fn lemma_unknown_command_ignored(registry: Registry, event: Event)
    requires
        !has_name(registry@, event.command_name@),
    ensures
        planned_reply(registry, event) is None,
{
    assert forall|i: int| !answers(registry@, i, event.command_name@, event.kind) by {
        if 0 <= i < registry@.len() {
            assert(registry@[i].name != event.command_name@);
        }
    }
}

/// An event whose kind the command of that name does not accept is treated
/// as naming no command: nothing is sent.
pub proof fn lemma_kind_mismatch_ignored(registry: Registry, event: Event, i: int)
    requires
        names_distinct(registry@),
        0 <= i < registry@.len(),
        registry@[i].name == event.command_name@,
        !registry@[i].kinds.spec_allows(event.kind),
    ensures
        planned_reply(registry, event) is None,
{
    assert forall|j: int| !answers(registry@, j, event.command_name@, event.kind) by {
        if 0 <= j < registry@.len() && j != i {
            assert(registry@[j].name != registry@[i].name);
        }
    }
}

} // verus!
