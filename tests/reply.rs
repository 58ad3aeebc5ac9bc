use fishbot::reply::{build, ActionRow, Button, ButtonStyle, Color, ReplyIntent, WireButton, WireEmbed, WireRow};

fn sample_embed() -> ReplyIntent {
    ReplyIntent::Embed {
        title: "Title".to_string(),
        description: "Body text".to_string(),
        color: Color { r: 1, g: 2, b: 3 },
        ephemeral: false,
        components: vec![ActionRow {
            buttons: vec![
                Button { label: "Site".to_string(), style: ButtonStyle::Link, target: "https://example.org".to_string() },
                Button { label: "Press".to_string(), style: ButtonStyle::Primary, target: "press-id".to_string() },
            ],
        }],
    }
}

#[test]
fn text_reply_body_is_unchanged() {
    for body in ["hello", "", "  spaced  *markdown* ünïcödé\nsecond line"] {
        let m = build(&ReplyIntent::Text { body: body.to_string() });
        assert_eq!(m.content, Some(body.to_string()));
        assert!(m.embeds.is_empty());
        assert!(m.components.is_empty());
        assert!(!m.ephemeral);
    }
}

#[test]
fn embed_build_is_deterministic() {
    let a = sample_embed();
    let b = sample_embed();
    assert_eq!(build(&a), build(&b));
    assert_eq!(build(&a), build(&a));
}

#[test]
fn color_packs_as_rgb() {
    assert_eq!(Color { r: 0x12, g: 0x34, b: 0x56 }.value(), 0x123456);
    assert_eq!(Color { r: 255, g: 255, b: 255 }.value(), 0xFFFFFF);
    assert_eq!(Color { r: 0, g: 0, b: 0 }.value(), 0);
}

#[test]
fn embed_renders_title_description_color_and_rows() {
    let m = build(&sample_embed());
    assert_eq!(m.content, None);
    assert_eq!(
        m.embeds,
        vec![WireEmbed { title: "Title".to_string(), description: "Body text".to_string(), color: 0x010203 }]
    );
    assert_eq!(
        m.components,
        vec![WireRow {
            buttons: vec![
                WireButton {
                    label: "Site".to_string(),
                    style: ButtonStyle::Link,
                    url: Some("https://example.org".to_string()),
                    custom_id: None,
                },
                WireButton {
                    label: "Press".to_string(),
                    style: ButtonStyle::Primary,
                    url: None,
                    custom_id: Some("press-id".to_string()),
                },
            ],
        }]
    );
}

#[test]
fn embed_ephemeral_flag_is_carried_through() {
    let intent = ReplyIntent::Embed {
        title: "t".to_string(),
        description: "d".to_string(),
        color: Color { r: 0, g: 0, b: 0 },
        ephemeral: true,
        components: vec![],
    };
    let m = build(&intent);
    assert!(m.ephemeral);
    assert!(m.components.is_empty());
}
