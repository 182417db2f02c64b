use pumpkin_core::text::{
    ClickEvent, Color, HoverEvent, NamedColor, RGBColor, TextComponent, TextContent,
};

#[test]
fn test_text_builder_roundtrip() {
    let c = TextComponent::text("hello");
    assert_eq!(c.get_text(), "hello".to_string());
}

#[test]
fn test_translate_holds_key_and_args() {
    let c = TextComponent::translate(
        "multiplayer.player.joined",
        vec![TextComponent::text("NAME")],
    );
    match &c.0.content {
        TextContent::Translate { translate, with } => {
            assert_eq!(translate.as_str(), "multiplayer.player.joined");
            assert_eq!(with.len(), 1);
            match &with[0].content {
                TextContent::Text { text } => assert_eq!(text.as_str(), "NAME"),
                _ => panic!("expected text argument"),
            }
        }
        _ => panic!("expected translate content"),
    }
    // Without a language table loaded the key stands for itself.
    assert_eq!(c.get_text(), "multiplayer.player.joined".to_string());
}

#[test]
fn test_style_builders_set_single_fields() {
    let c = TextComponent::text("styled")
        .color_named(NamedColor::Yellow)
        .bold()
        .italic()
        .underlined()
        .strikethrough()
        .obfuscated()
        .insertion("put this".to_string())
        .click_event(ClickEvent::RunCommand { command: "/help".to_string() })
        .hover_event(HoverEvent::show_text(TextComponent::text("tip")))
        .font("minecraft:default".to_string());
    let style = &c.0.style;
    assert_eq!(style.color, Some(Color::Named(NamedColor::Yellow)));
    assert_eq!(style.bold, Some(true));
    assert_eq!(style.italic, Some(true));
    assert_eq!(style.underlined, Some(true));
    assert_eq!(style.strikethrough, Some(true));
    assert_eq!(style.obfuscated, Some(true));
    assert!(style.insertion.is_some());
    assert!(style.click_event.is_some());
    assert!(style.hover_event.is_some());
    assert!(style.font.is_some());
}

#[test]
fn test_children_append_in_order() {
    let c = TextComponent::text("a")
        .add_child(TextComponent::text("b"))
        .add_text("c");
    assert_eq!(c.0.extra.len(), 2);
}

#[test]
fn test_pretty_console_plain_is_plain_text() {
    let c = TextComponent::text("head")
        .add_child(TextComponent::text(" tail"))
        .add_text("!");
    assert_eq!(c.to_pretty_console(), "head tail!".to_string());
}

#[test]
fn test_pretty_console_styled_contains_text() {
    let c = TextComponent::text("warning").color_named(NamedColor::Red).bold();
    let rendered = c.to_pretty_console();
    assert!(rendered.contains("warning"));
}

#[test]
fn test_pretty_console_rgb_contains_text() {
    let c = TextComponent::text("tinted").color_rgb(RGBColor { red: 1, green: 2, blue: 3 });
    let rendered = c.to_pretty_console();
    assert!(rendered.contains("tinted"));
}

#[test]
fn test_chat_decorated_replaces_markers() {
    let c = TextComponent::chat_decorated(
        "&7[{DISPLAYNAME}] {MESSAGE}".to_string(),
        "steve".to_string(),
        "hi there".to_string(),
    );
    assert_eq!(c.get_text(), "\u{a7}7[steve] hi there".to_string());
}

#[test]
fn test_chat_decorated_repeated_markers() {
    let c = TextComponent::chat_decorated(
        "{MESSAGE}&{MESSAGE}".to_string(),
        "p".to_string(),
        "x".to_string(),
    );
    assert_eq!(c.get_text(), "x\u{a7}x".to_string());
}

#[test]
fn test_hover_show_text_wraps_component() {
    let hover = HoverEvent::show_text(TextComponent::text("tooltip"));
    match hover {
        HoverEvent::ShowText { value } => {
            assert_eq!(value.len(), 1);
        }
        _ => panic!("expected show-text hover"),
    }
}

#[test]
fn test_hover_show_entity_fields() {
    let hover = HoverEvent::show_entity(
        "123e4567-e89b-12d3-a456-426614174000".to_string(),
        "minecraft:pig".to_string(),
        Some(TextComponent::text("Piggy")),
    );
    match hover {
        HoverEvent::ShowEntity { id, uuid, name } => {
            assert_eq!(id.as_str(), "minecraft:pig");
            assert_eq!(uuid.as_str(), "123e4567-e89b-12d3-a456-426614174000");
            assert!(name.is_some());
        }
        _ => panic!("expected show-entity hover"),
    }
}

#[test]
fn test_from_content_keybind() {
    let c = TextComponent::from_content(TextContent::Keybind {
        keybind: "key.jump".to_string(),
    });
    assert_eq!(c.get_text(), "key.jump".to_string());
}

#[test]
fn test_serialize_text_component() {
    let msg_comp = TextComponent::translate(
        "multiplayer.player.joined",
        vec![TextComponent::text("NAME")],
    )
    .color_named(NamedColor::Yellow);

    let bytes = msg_comp.encode();

    let expected_bytes = [
        0x0A, 0x08, 0x00, 0x09, 0x74, 0x72, 0x61, 0x6E, 0x73, 0x6C, 0x61, 0x74, 0x65, 0x00,
        0x19, 0x6D, 0x75, 0x6C, 0x74, 0x69, 0x70, 0x6C, 0x61, 0x79, 0x65, 0x72, 0x2E, 0x70,
        0x6C, 0x61, 0x79, 0x65, 0x72, 0x2E, 0x6A, 0x6F, 0x69, 0x6E, 0x65, 0x64, 0x09, 0x00,
        0x04, 0x77, 0x69, 0x74, 0x68, 0x0A, 0x00, 0x00, 0x00, 0x01, 0x08, 0x00, 0x04, 0x74,
        0x65, 0x78, 0x74, 0x00, 0x04, 0x4E, 0x41, 0x4D, 0x45, 0x00, 0x08, 0x00, 0x05, 0x63,
        0x6F, 0x6C, 0x6F, 0x72, 0x00, 0x06, 0x79, 0x65, 0x6C, 0x6C, 0x6F, 0x77, 0x00,
    ];

    assert_eq!(bytes, expected_bytes.to_vec());
}

#[test]
fn test_serialize_plain_text_component() {
    let bytes = TextComponent::text("hi").encode();
    let expected: Vec<u8> = vec![
        0x0A, 0x08, 0x00, 0x04, 0x74, 0x65, 0x78, 0x74, 0x00, 0x02, 0x68, 0x69, 0x00,
    ];
    assert_eq!(bytes, expected);
}

#[test]
fn test_serialize_flags_and_rgb() {
    let bytes = TextComponent::text("x")
        .color_rgb(RGBColor { red: 0xAB, green: 0x01, blue: 0xFF })
        .bold()
        .encode();
    // text field, then color "#AB01FF", then the bold byte, then the end.
    let mut expected: Vec<u8> = vec![0x0A];
    expected.extend([0x08, 0x00, 0x04]);
    expected.extend(b"text");
    expected.extend([0x00, 0x01]);
    expected.extend(b"x");
    expected.extend([0x08, 0x00, 0x05]);
    expected.extend(b"color");
    expected.extend([0x00, 0x07]);
    expected.extend(b"#AB01FF");
    expected.extend([0x01, 0x00, 0x04]);
    expected.extend(b"bold");
    expected.push(0x01);
    expected.push(0x00);
    assert_eq!(bytes, expected);
}

#[test]
fn test_pretty_console_children_in_order() {
    // Styled or not, each node's text appears in the rendering, children
    // after the root and in order.
    let c = TextComponent::text("alpha")
        .bold()
        .color_named(NamedColor::Aqua)
        .add_child(TextComponent::text("beta").italic())
        .add_child(TextComponent::text("gamma"));
    let rendered = c.to_pretty_console();
    let a = rendered.find("alpha").expect("root text missing");
    let b = rendered.find("beta").expect("first child missing");
    let g = rendered.find("gamma").expect("second child missing");
    assert!(a < b && b < g);
}
