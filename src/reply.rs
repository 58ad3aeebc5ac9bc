//! Reply intents, the wire message they become, and the pure builder between them.

use vstd::prelude::*;

verus! {

/// An accent colour, one byte per channel.
#[derive(Clone, Copy, Debug, PartialEq, Eq, Structural)]
pub struct Color {
    pub r: u8,
    pub g: u8,
    pub b: u8,
}

impl Color {
    /// The colour packed as `0xRRGGBB`.
    pub open spec fn spec_value(self) -> nat {
        self.r as nat * 65536 + self.g as nat * 256 + self.b as nat
    }

    /// Packs the colour as `0xRRGGBB`.
    pub fn value(&self) -> (v: u32)
        ensures
            v == self.spec_value(),
    {
        (self.r as u32) * 65536 + (self.g as u32) * 256 + (self.b as u32)
    }
}


/// How a button is drawn, and whether pressing it opens a link.
#[derive(Clone, Copy, Debug, PartialEq, Eq, Structural)]
pub enum ButtonStyle {
    Link,
    Primary,
    Secondary,
    Success,
    Danger,
}

/// A button of an action row. The target of a `Link` button is a URL; the
/// target of any other button is an opaque id handed back on a press.
#[derive(Clone, Debug, PartialEq, Eq)]
pub struct Button {
    pub label: String,
    pub style: ButtonStyle,
    pub target: String,
}

pub struct ButtonView {
    pub label: Seq<char>,
    pub style: ButtonStyle,
    pub target: Seq<char>,
}

impl View for Button {
    type V = ButtonView;

    open spec fn view(&self) -> ButtonView {
        ButtonView { label: self.label@, style: self.style, target: self.target@ }
    }
}

/// An ordered row of buttons.
#[derive(Clone, Debug, PartialEq, Eq)]
pub struct ActionRow {
    pub buttons: Vec<Button>,
}

impl View for ActionRow {
    type V = Seq<ButtonView>;

    open spec fn view(&self) -> Seq<ButtonView> {
        self.buttons@.map_values(|b: Button| b@)
    }
}

/// What a command handler asks to be sent back.
#[derive(Clone, Debug, PartialEq, Eq)]
pub enum ReplyIntent {
    Text { body: String },
    Embed {
        title: String,
        description: String,
        color: Color,
        ephemeral: bool,
        components: Vec<ActionRow>,
    },
}

pub enum ReplyView {
    Text { body: Seq<char> },
    Embed {
        title: Seq<char>,
        description: Seq<char>,
        color: Color,
        ephemeral: bool,
        components: Seq<Seq<ButtonView>>,
    },
}

impl View for ReplyIntent {
    type V = ReplyView;

    open spec fn view(&self) -> ReplyView {
        match self {
            ReplyIntent::Text { body } => ReplyView::Text { body: body@ },
            ReplyIntent::Embed { title, description, color, ephemeral, components } => {
                ReplyView::Embed {
                    title: title@,
                    description: description@,
                    color: *color,
                    ephemeral: *ephemeral,
                    components: components@.map_values(|row: ActionRow| row@),
                }
            },
        }
    }
}

/// A button as the gateway receives it: a link button carries a URL and no
/// custom id, any other button a custom id and no URL.
#[derive(Clone, Debug, PartialEq, Eq)]
pub struct WireButton {
    pub label: String,
    pub style: ButtonStyle,
    pub url: Option<String>,
    pub custom_id: Option<String>,
}

pub struct WireButtonView {
    pub label: Seq<char>,
    pub style: ButtonStyle,
    pub url: Option<Seq<char>>,
    pub custom_id: Option<Seq<char>>,
}

pub open spec fn opt_view(o: Option<String>) -> Option<Seq<char>> {
    match o {
        Some(s) => Some(s@),
        None => None,
    }
}

impl View for WireButton {
    type V = WireButtonView;

    open spec fn view(&self) -> WireButtonView {
        WireButtonView {
            label: self.label@,
            style: self.style,
            url: opt_view(self.url),
            custom_id: opt_view(self.custom_id),
        }
    }
}

#[derive(Clone, Debug, PartialEq, Eq)]
pub struct WireRow {
    pub buttons: Vec<WireButton>,
}

impl View for WireRow {
    type V = Seq<WireButtonView>;

    open spec fn view(&self) -> Seq<WireButtonView> {
        self.buttons@.map_values(|b: WireButton| b@)
    }
}

#[derive(Clone, Debug, PartialEq, Eq)]
pub struct WireEmbed {
    pub title: String,
    pub description: String,
    pub color: u32,
}

pub struct WireEmbedView {
    pub title: Seq<char>,
    pub description: Seq<char>,
    pub color: nat,
}

impl View for WireEmbed {
    type V = WireEmbedView;

    open spec fn view(&self) -> WireEmbedView {
        WireEmbedView { title: self.title@, description: self.description@, color: self.color as nat }
    }
}

/// The outbound message: optional plain content, embeds, rows of components,
/// and whether only the invoking user sees it.
#[derive(Clone, Debug, PartialEq, Eq)]
pub struct WireMessage {
    pub content: Option<String>,
    pub embeds: Vec<WireEmbed>,
    pub components: Vec<WireRow>,
    pub ephemeral: bool,
}

pub struct WireMessageView {
    pub content: Option<Seq<char>>,
    pub embeds: Seq<WireEmbedView>,
    pub components: Seq<Seq<WireButtonView>>,
    pub ephemeral: bool,
}

impl View for WireMessage {
    type V = WireMessageView;

    open spec fn view(&self) -> WireMessageView {
        WireMessageView {
            content: opt_view(self.content),
            embeds: self.embeds@.map_values(|e: WireEmbed| e@),
            components: self.components@.map_values(|row: WireRow| row@),
            ephemeral: self.ephemeral,
        }
    }
}

/// The wire form of one button: its target goes to `url` for a link button
/// and to `custom_id` for any other.
pub open spec fn wire_button(b: ButtonView) -> WireButtonView {
    WireButtonView {
        label: b.label,
        style: b.style,
        url: if b.style == ButtonStyle::Link { Some(b.target) } else { None },
        custom_id: if b.style == ButtonStyle::Link { None } else { Some(b.target) },
    }
}

pub open spec fn wire_row(row: Seq<ButtonView>) -> Seq<WireButtonView> {
    row.map_values(|b: ButtonView| wire_button(b))
}

/// The message that a reply intent becomes.
pub open spec fn wire_of(intent: ReplyView) -> WireMessageView {
    match intent {
        ReplyView::Text { body } => WireMessageView {
            content: Some(body),
            embeds: Seq::empty(),
            components: Seq::empty(),
            ephemeral: false,
        },
        ReplyView::Embed { title, description, color, ephemeral, components } => WireMessageView {
            content: None,
            embeds: seq![WireEmbedView { title, description, color: color.spec_value() }],
            components: components.map_values(|row: Seq<ButtonView>| wire_row(row)),
            ephemeral,
        },
    }
}

fn build_button(b: &Button) -> (w: WireButton)
    ensures
        w@ == wire_button(b@),
{
    match b.style {
        ButtonStyle::Link => WireButton {
            label: b.label.clone(),
            style: b.style,
            url: Some(b.target.clone()),
            custom_id: None,
        },
        _ => WireButton {
            label: b.label.clone(),
            style: b.style,
            url: None,
            custom_id: Some(b.target.clone()),
        },
    }
}

fn build_row(row: &ActionRow) -> (w: WireRow)
    ensures
        w@ == wire_row(row@),
{
    let mut buttons: Vec<WireButton> = Vec::new();
    let mut i: usize = 0;
    while i < row.buttons.len()
        invariant
            i <= row.buttons.len(),
            buttons.len() == i,
            forall|j: int| 0 <= j < i ==> buttons@[j]@ == wire_button(#[trigger] row.buttons@[j]@),
        decreases row.buttons.len() - i,
    {
        buttons.push(build_button(&row.buttons[i]));
        i = i + 1;
    }
    let w = WireRow { buttons };
    assert(w@ =~= wire_row(row@));
    w
}

/// Builds the outbound message for a reply intent. Pure: the result depends on
/// the intent alone, and `ephemeral` is carried through as it is.
pub fn build(intent: &ReplyIntent) -> (m: WireMessage)
    ensures
        m@ == wire_of(intent@),
{
    match intent {
        ReplyIntent::Text { body } => {
            let m = WireMessage {
                content: Some(body.clone()),
                embeds: Vec::new(),
                components: Vec::new(),
                ephemeral: false,
            };
            assert(m@.embeds =~= Seq::<WireEmbedView>::empty());
            assert(m@.components =~= Seq::<Seq<WireButtonView>>::empty());
            m
        },
        ReplyIntent::Embed { title, description, color, ephemeral, components } => {
            let mut rows: Vec<WireRow> = Vec::new();
            let mut i: usize = 0;
            while i < components.len()
                invariant
                    i <= components.len(),
                    rows.len() == i,
                    forall|j: int| 0 <= j < i ==> rows@[j]@ == wire_row(#[trigger] components@[j]@),
                decreases components.len() - i,
            {
                rows.push(build_row(&components[i]));
                i = i + 1;
            }
            let embed = WireEmbed {
                title: title.clone(),
                description: description.clone(),
                color: color.value(),
            };
            let embeds: Vec<WireEmbed> = vec![embed];
            let m = WireMessage { content: None, embeds, components: rows, ephemeral: *ephemeral };
            assert(m@.embeds =~= seq![WireEmbedView { title: title@, description: description@, color: color.spec_value() }]);
            assert(m@.components =~= components@.map_values(|row: ActionRow| row@).map_values(
                |row: Seq<ButtonView>| wire_row(row),
            ));
            m
        },
    }
}

/// A text reply is sent with its body exactly as given.
pub proof fn lemma_text_body_unchanged(body: Seq<char>)
    ensures
        wire_of(ReplyView::Text { body }).content == Some(body),
        wire_of(ReplyView::Text { body }).embeds.len() == 0,
{
}

/// Building is deterministic: two intents that are equal give equal messages.
pub proof fn lemma_build_deterministic(a: ReplyIntent, b: ReplyIntent, ma: WireMessage, mb: WireMessage)
    requires
        a@ == b@,
        ma@ == wire_of(a@),
        mb@ == wire_of(b@),
    ensures
        ma@ == mb@,
{
}

} // verus!
