use ui2::components::assistant_panel::{AssistantPanel, AssistantPanelStory};
use ui2::elements::{ElementId, Icon, IconButton, Label};
use ui2::panel::{AbsoluteLength, FlexDirection, PanelSide};
use ui2::story::StoryItem;

#[test]
fn element_id_wraps_text() {
    let id = ElementId::new("chat-body");
    assert_eq!(id.name, "chat-body");
}

#[test]
fn icon_button_holds_identity_and_icon() {
    let button = IconButton::new("menu", Icon::Menu);
    assert_eq!(button.id.name, "menu");
    assert_eq!(button.icon, Icon::Menu);
}

#[test]
fn label_holds_text() {
    let label = Label::new("New Conversation");
    assert_eq!(label.text, "New Conversation");
}

#[test]
fn default_side_matches_documented_default() {
    assert_eq!(PanelSide::default(), PanelSide::Left);
    let panel = AssistantPanel::new("assistant-panel");
    assert_eq!(panel.current_side, PanelSide::Left);
}

#[test]
fn construct_configure_render_keeps_identifier_and_side() {
    let cases = vec![
        ("assistant-panel", PanelSide::Left),
        ("assistant-panel", PanelSide::Right),
        ("assistant-panel", PanelSide::Bottom),
        ("another-panel", PanelSide::Right),
        ("p", PanelSide::Bottom),
    ];
    for (id, side) in cases {
        let tree = AssistantPanel::new(id).side(side).render();
        assert_eq!(tree.id.name, id);
        assert_eq!(tree.side, side);
    }
}

#[test]
fn header_has_five_action_buttons_in_order() {
    let tree = AssistantPanel::new("assistant-panel").side(PanelSide::Right).render();
    let buttons = &tree.content.header.right.buttons;
    assert_eq!(buttons.len(), 5);
    assert_eq!(buttons[0].icon, Icon::SplitMessage);
    assert_eq!(buttons[1].icon, Icon::Quote);
    assert_eq!(buttons[2].icon, Icon::MagicWand);
    assert_eq!(buttons[3].icon, Icon::Plus);
    assert_eq!(buttons[4].icon, Icon::Maximize);
    assert_eq!(buttons[0].id.name, "split_message");
    assert_eq!(buttons[1].id.name, "quote");
    assert_eq!(buttons[2].id.name, "magic_wand");
    assert_eq!(buttons[3].id.name, "plus");
    assert_eq!(buttons[4].id.name, "maximize");
}

#[test]
fn body_is_scrollable_with_placeholder() {
    let tree = AssistantPanel::new("assistant-panel").render();
    let body = &tree.content.body;
    assert!(body.scrollable);
    assert!(body.full_width);
    assert_eq!(body.direction, FlexDirection::Column);
    assert_eq!(body.id.name, "chat-body");
    assert_eq!(body.messages.len(), 1);
    assert_eq!(body.messages[0].text, "Is this thing on?");
}

#[test]
fn width_is_32_rems_for_every_side_and_identifier() {
    let cases = vec![
        ("assistant-panel", PanelSide::Left),
        ("assistant-panel", PanelSide::Right),
        ("assistant-panel", PanelSide::Bottom),
        ("other", PanelSide::Left),
    ];
    for (id, side) in cases {
        let tree = AssistantPanel::new(id).side(side).render();
        assert_eq!(tree.width, Some(AbsoluteLength::Rems(32)));
    }
}

#[test]
fn default_assistant_panel_scenario() {
    let tree = AssistantPanel::new("assistant-panel").render();
    assert_eq!(tree.id.name, "assistant-panel");
    assert_eq!(tree.side, PanelSide::Left);
    assert_eq!(tree.width, Some(AbsoluteLength::Rems(32)));
    assert_eq!(tree.content.header.left.title.text, "New Conversation");
    assert_eq!(tree.content.header.left.menu_button.icon, Icon::Menu);
    assert_eq!(tree.content.header.left.menu_button.id.name, "menu");
}

#[test]
fn panel_content_layout_is_fixed() {
    let tree = AssistantPanel::new("assistant-panel").render();
    let content = &tree.content;
    assert_eq!(content.direction, FlexDirection::Column);
    assert!(content.full_height);
    assert_eq!(content.padding_x, 2);
    assert_eq!(content.gap, 2);
    assert!(content.header.justify_between);
    assert_eq!(content.header.gap, 2);
    assert!(content.header.right.items_center);
    assert!(content.header.right.pixel_gap);
    assert_eq!(content.body.gap, 3);
}

#[test]
fn rendered_panel_can_be_redocked_and_resized() {
    let tree = AssistantPanel::new("assistant-panel").render();
    let tree = tree.side(PanelSide::Bottom).width(AbsoluteLength::Pixels(100));
    assert_eq!(tree.side, PanelSide::Bottom);
    assert_eq!(tree.width, Some(AbsoluteLength::Pixels(100)));
    assert_eq!(tree.id.name, "assistant-panel");
}

#[test]
fn story_renders_titled_container_with_default_panel() {
    let story = AssistantPanelStory::new().render();
    assert_eq!(story.children.len(), 3);
    match &story.children[0] {
        StoryItem::Title(title) => assert_eq!(title, "AssistantPanel"),
        _ => panic!("first story child must be the title"),
    }
    match &story.children[1] {
        StoryItem::Caption(caption) => assert_eq!(caption, "Default"),
        _ => panic!("second story child must be the caption"),
    }
    match &story.children[2] {
        StoryItem::Panel(panel) => {
            assert_eq!(panel.id.name, "assistant-panel");
            assert_eq!(panel.side, PanelSide::Left);
            assert_eq!(panel.width, Some(AbsoluteLength::Rems(32)));
        }
        _ => panic!("third story child must be the panel"),
    }
}
