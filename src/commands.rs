//! The bot's commands: what each one replies, and the registry that holds them.

use vstd::prelude::*;
use crate::registry::{has_name, Command, CommandDescriptor, DescriptorView, InvocationKind, InvocationKinds, Registry};
use crate::reply::{ActionRow, Button, ButtonStyle, ButtonView, Color, ReplyIntent, ReplyView};

verus! {

/// State shared by every invocation. Nothing is kept in it yet; it is the
/// place where state that commands share would live.
pub struct Data {}

/// A user as the gateway describes one.
#[derive(Debug, PartialEq, Eq)]
pub struct User {
    pub id: u64,
    pub display_name: String,
    /// When the account was created, as the gateway renders the timestamp.
    pub created_at: String,
}

pub struct UserView {
    pub id: u64,
    pub display_name: Seq<char>,
    pub created_at: Seq<char>,
}

impl View for User {
    type V = UserView;

    open spec fn view(&self) -> UserView {
        UserView { id: self.id, display_name: self.display_name@, created_at: self.created_at@ }
    }
}

/// The value of one named argument of an event.
#[derive(Debug, PartialEq, Eq)]
pub enum ArgValue {
    User(User),
    Text(String),
}

pub enum ArgValueView {
    User(UserView),
    Text(Seq<char>),
}

#[derive(Debug, PartialEq, Eq)]
pub struct Argument {
    pub name: String,
    pub value: ArgValue,
}

pub struct ArgumentView {
    pub name: Seq<char>,
    pub value: ArgValueView,
}

impl View for Argument {
    type V = ArgumentView;

    open spec fn view(&self) -> ArgumentView {
        ArgumentView {
            name: self.name@,
            value: match self.value {
                ArgValue::User(u) => ArgValueView::User(u@),
                ArgValue::Text(t) => ArgValueView::Text(t@),
            },
        }
    }
}

pub open spec fn args_view(args: Seq<Argument>) -> Seq<ArgumentView> {
    args.map_values(|a: Argument| a@)
}

/// Who invoked a command, where, and how. It lives for one dispatch.
pub struct InvocationContext<'a> {
    pub invoker: &'a User,
    pub channel: u64,
    pub kind: InvocationKind,
}

/// The user passed as the argument named `user`: the first argument of that
/// name that holds a user.
pub open spec fn user_argument(args: Seq<ArgumentView>) -> Option<UserView>
    decreases args.len(),
{
    if args.len() == 0 {
        None
    } else if args[0].name == "user"@ && args[0].value is User {
        Some(args[0].value->User_0)
    } else {
        user_argument(args.drop_first())
    }
}

/// The line that `age` replies with for `u`.
pub open spec fn age_line(u: UserView) -> Seq<char> {
    u.display_name + "'s account was created at "@ + u.created_at
}

pub open spec fn help_reply() -> ReplyView {
    ReplyView::Embed {
        title: "Help"@,
        description: "/age [user]: when an account was created\n/help: this message\n/fishproof: the case for fish"@,
        color: Color { r: 43, g: 154, b: 217 },
        ephemeral: true,
        components: seq![
            seq![
                ButtonView {
                    label: "Framework"@,
                    style: ButtonStyle::Link,
                    target: "https://github.com/serenity-rs/poise"@,
                },
            ],
        ],
    }
}

pub open spec fn fishproof_reply() -> ReplyView {
    ReplyView::Text {
        body: "Fish are real. They swim in every sea and river, they breathe through gills, and they have been seen, caught and eaten by people for as long as there have been people."@,
    }
}

/// What `command` replies when invoked by `invoker` with `args`.
pub open spec fn reply_of(command: Command, invoker: UserView, args: Seq<ArgumentView>) -> ReplyView {
    match command {
        Command::Age => ReplyView::Text {
            body: age_line(
                match user_argument(args) {
                    Some(u) => u,
                    None => invoker,
                },
            ),
        },
        Command::Help => help_reply(),
        Command::Fishproof => fishproof_reply(),
    }
}

/// Finds the user passed as the argument named `user`.
pub fn find_user_argument(args: &Vec<Argument>) -> (r: Option<&User>)
    ensures
        match r {
            Some(u) => user_argument(args_view(args@)) == Some(u@),
            None => user_argument(args_view(args@)) is None,
        },
{
    let key = String::from_str("user");
    let ghost all = args_view(args@);
    let mut i: usize = 0;
    assert(all.subrange(0, all.len() as int) =~= all);
    while i < args.len()
        invariant
            i <= args.len(),
            all == args_view(args@),
            key@ == "user"@,
            user_argument(all) == user_argument(all.subrange(i as int, all.len() as int)),
        decreases args.len() - i,
    {
        let ghost rest = all.subrange(i as int, all.len() as int);
        assert(rest[0] == args@[i as int]@);
        assert(rest.drop_first() =~= all.subrange(i + 1, all.len() as int));
        if args[i].name == key {
            match &args[i].value {
                ArgValue::User(u) => {
                    return Some(u);
                },
                ArgValue::Text(_) => {},
            }
        }
        i = i + 1;
    }
    assert(all.subrange(i as int, all.len() as int).len() == 0);
    None
}

/// `age`: when the target's account was created. The target is `user` if
/// given, else the invoking user.
pub fn age(_data: &Data, ctx: &InvocationContext, user: Option<&User>) -> (r: ReplyIntent)
    ensures
        r@ == (ReplyView::Text {
            body: age_line(
                match user {
                    Some(u) => u@,
                    None => ctx.invoker@,
                },
            ),
        }),
{
    let target: &User = match user {
        Some(u) => u,
        None => ctx.invoker,
    };
    let mut body = target.display_name.clone();
    body.append("'s account was created at ");
    body.append(target.created_at.as_str());
    ReplyIntent::Text { body }
}

/// `help`: a fixed embed, seen by the invoking user alone, with one row that
/// holds one link button.
pub fn help(_data: &Data, _ctx: &InvocationContext) -> (r: ReplyIntent)
    ensures
        r@ == help_reply(),
{
    let button = Button {
        label: String::from_str("Framework"),
        style: ButtonStyle::Link,
        target: String::from_str("https://github.com/serenity-rs/poise"),
    };
    let row = ActionRow { buttons: vec![button] };
    assert(row@ =~= seq![
        ButtonView {
            label: "Framework"@,
            style: ButtonStyle::Link,
            target: "https://github.com/serenity-rs/poise"@,
        },
    ]);
    let ghost rv = row@;
    let components = vec![row];
    assert(components@.map_values(|row: ActionRow| row@) =~= seq![rv]);
    let r = ReplyIntent::Embed {
        title: String::from_str("Help"),
        description: String::from_str(
            "/age [user]: when an account was created\n/help: this message\n/fishproof: the case for fish",
        ),
        color: Color { r: 43, g: 154, b: 217 },
        ephemeral: true,
        components,
    };
    assert(r@ =~~= help_reply());
    r
}

/// `fishproof`: a fixed text reply.
pub fn fishproof(_data: &Data, _ctx: &InvocationContext) -> (r: ReplyIntent)
    ensures
        r@ == fishproof_reply(),
{
    ReplyIntent::Text {
        body: String::from_str(
            "Fish are real. They swim in every sea and river, they breathe through gills, and they have been seen, caught and eaten by people for as long as there have been people.",
        ),
    }
}

/// Runs the handler of `command`.
pub fn run(command: Command, data: &Data, ctx: &InvocationContext, args: &Vec<Argument>) -> (r: ReplyIntent)
    ensures
        r@ == reply_of(command, ctx.invoker@, args_view(args@)),
{
    match command {
        Command::Age => {
            let user = find_user_argument(args);
            age(data, ctx, user)
        },
        Command::Help => help(data, ctx),
        Command::Fishproof => fishproof(data, ctx),
    }
}

pub open spec fn descriptor(name: Seq<char>, command: Command) -> DescriptorView {
    DescriptorView { name, kinds: InvocationKinds::Both, command }
}

/// The registry of this bot: `age`, `help` and `fishproof`, in that order,
/// each accepting slash and prefix invocations.
pub fn standard_registry() -> (r: Registry)
    ensures
        r@ == seq![
            descriptor("age"@, Command::Age),
            descriptor("help"@, Command::Help),
            descriptor("fishproof"@, Command::Fishproof),
        ],
{
    proof {
        reveal_strlit("age");
        reveal_strlit("help");
        reveal_strlit("fishproof");
    }
    let mut r = Registry::new();
    let age_name = String::from_str("age");
    let help_name = String::from_str("help");
    let fish_name = String::from_str("fishproof");
    let _ = r.register(CommandDescriptor { name: age_name, kinds: InvocationKinds::Both, command: Command::Age });
    assert(r@ =~= seq![descriptor("age"@, Command::Age)]);
    assert(!has_name(r@, help_name@)) by {
        assert(r@[0].name.len() != help_name@.len());
    }
    let _ = r.register(CommandDescriptor { name: help_name, kinds: InvocationKinds::Both, command: Command::Help });
    assert(r@ =~= seq![descriptor("age"@, Command::Age), descriptor("help"@, Command::Help)]);
    assert(!has_name(r@, fish_name@)) by {
        assert(r@[0].name.len() != fish_name@.len());
        assert(r@[1].name.len() != fish_name@.len());
    }
    let _ = r.register(
        CommandDescriptor { name: fish_name, kinds: InvocationKinds::Both, command: Command::Fishproof },
    );
    assert(r@ =~= seq![
        descriptor("age"@, Command::Age),
        descriptor("help"@, Command::Help),
        descriptor("fishproof"@, Command::Fishproof),
    ]);
    r
}

} // verus!
