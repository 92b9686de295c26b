//! The assistant side panel: a fluent builder that renders a fixed element
//! tree — a header row (menu toggle, title, five action buttons) above a
//! scrollable chat body — wrapped in a dockable panel container of fixed
//! width.

use vstd::prelude::*;
use crate::elements::{ElementId, Icon, IconButton, IconButtonView, Label, LabelView};
use crate::panel::{AbsoluteLength, FlexDirection, Panel, PanelSide, PanelView};
use crate::story::{StoryContainer, StoryContainerView, StoryItem, StoryItemView};

verus! {

/// The left-hand group of the header row: the menu toggle and the title.
pub struct HeaderLeftGroup {
    pub menu_button: IconButton,
    pub title: Label,
}

/// The view of a [`HeaderLeftGroup`].
#[verifier::ext_equal]
pub struct HeaderLeftGroupView {
    pub menu_button: IconButtonView,
    pub title: LabelView,
}

impl View for HeaderLeftGroup {
    type V = HeaderLeftGroupView;

    open spec fn view(&self) -> HeaderLeftGroupView {
        HeaderLeftGroupView { menu_button: self.menu_button@, title: self.title@ }
    }
}

/// The right-hand group of the header row: the action buttons, vertically
/// centered, one pixel of gap between neighbours.
pub struct HeaderRightGroup {
    pub items_center: bool,
    pub pixel_gap: bool,
    pub buttons: Vec<IconButton>,
}

/// The view of a [`HeaderRightGroup`].
#[verifier::ext_equal]
pub struct HeaderRightGroupView {
    pub items_center: bool,
    pub pixel_gap: bool,
    pub buttons: Seq<IconButtonView>,
}

impl View for HeaderRightGroup {
    type V = HeaderRightGroupView;

    open spec fn view(&self) -> HeaderRightGroupView {
        HeaderRightGroupView {
            items_center: self.items_center,
            pixel_gap: self.pixel_gap,
            buttons: self.buttons@.map_values(|b: IconButton| b@),
        }
    }
}

/// The header row: the two groups pushed to opposite ends of the row.
/// `gap` counts steps on the toolkit's spacing scale.
pub struct HeaderRow {
    pub justify_between: bool,
    pub gap: u32,
    pub left: HeaderLeftGroup,
    pub right: HeaderRightGroup,
}

/// The view of a [`HeaderRow`].
#[verifier::ext_equal]
pub struct HeaderRowView {
    pub justify_between: bool,
    pub gap: u32,
    pub left: HeaderLeftGroupView,
    pub right: HeaderRightGroupView,
}

impl View for HeaderRow {
    type V = HeaderRowView;

    open spec fn view(&self) -> HeaderRowView {
        HeaderRowView {
            justify_between: self.justify_between,
            gap: self.gap,
            left: self.left@,
            right: self.right@,
        }
    }
}

/// The chat body: a scrollable, full-width column of message labels.
/// `gap` counts steps on the toolkit's spacing scale.
pub struct ChatBody {
    pub id: ElementId,
    pub direction: FlexDirection,
    pub full_width: bool,
    pub gap: u32,
    pub scrollable: bool,
    pub messages: Vec<Label>,
}

/// The view of a [`ChatBody`].
#[verifier::ext_equal]
pub struct ChatBodyView {
    pub id: Seq<char>,
    pub direction: FlexDirection,
    pub full_width: bool,
    pub gap: u32,
    pub scrollable: bool,
    pub messages: Seq<LabelView>,
}

impl View for ChatBody {
    type V = ChatBodyView;

    open spec fn view(&self) -> ChatBodyView {
        ChatBodyView {
            id: self.id@,
            direction: self.direction,
            full_width: self.full_width,
            gap: self.gap,
            scrollable: self.scrollable,
            messages: self.messages@.map_values(|l: Label| l@),
        }
    }
}

/// The panel's whole content: a full-height column holding the header row
/// above the chat body, with horizontal padding and vertical gaps, both
/// counted in steps on the toolkit's spacing scale.
pub struct PanelContent {
    pub direction: FlexDirection,
    pub full_height: bool,
    pub padding_x: u32,
    pub gap: u32,
    pub header: HeaderRow,
    pub body: ChatBody,
}

/// The view of a [`PanelContent`].
#[verifier::ext_equal]
pub struct PanelContentView {
    pub direction: FlexDirection,
    pub full_height: bool,
    pub padding_x: u32,
    pub gap: u32,
    pub header: HeaderRowView,
    pub body: ChatBodyView,
}

impl View for PanelContent {
    type V = PanelContentView;

    open spec fn view(&self) -> PanelContentView {
        PanelContentView {
            direction: self.direction,
            full_height: self.full_height,
            padding_x: self.padding_x,
            gap: self.gap,
            header: self.header@,
            body: self.body@,
        }
    }
}

/// The five action buttons of the header's right-hand group, in their fixed
/// order: split-message, quote, magic-wand, plus, maximize.
pub open spec fn action_buttons() -> Seq<IconButtonView> {
    seq![
        (IconButtonView { id: "split_message"@, icon: Icon::SplitMessage }),
        (IconButtonView { id: "quote"@, icon: Icon::Quote }),
        (IconButtonView { id: "magic_wand"@, icon: Icon::MagicWand }),
        (IconButtonView { id: "plus"@, icon: Icon::Plus }),
        (IconButtonView { id: "maximize"@, icon: Icon::Maximize }),
    ]
}

/// The element tree the assistant panel renders for identifier `id` docked
/// to `side`: the fixed header-and-body content, wrapped in a panel
/// container keyed by `id`, docked to `side`, 32 root-relative units wide.
pub open spec fn assistant_panel_tree(id: Seq<char>, side: PanelSide) -> PanelView<
    PanelContentView,
> {
    PanelView {
        id: id,
        side: side,
        width: Some(AbsoluteLength::Rems(32)),
        content: PanelContentView {
            direction: FlexDirection::Column,
            full_height: true,
            padding_x: 2,
            gap: 2,
            header: HeaderRowView {
                justify_between: true,
                gap: 2,
                left: HeaderLeftGroupView {
                    menu_button: IconButtonView { id: "menu"@, icon: Icon::Menu },
                    title: LabelView { text: "New Conversation"@ },
                },
                right: HeaderRightGroupView {
                    items_center: true,
                    pixel_gap: true,
                    buttons: action_buttons(),
                },
            },
            body: ChatBodyView {
                id: "chat-body"@,
                direction: FlexDirection::Column,
                full_width: true,
                gap: 3,
                scrollable: true,
                messages: seq![(LabelView { text: "Is this thing on?"@ })],
            },
        },
    }
}

/// A fluent builder for the assistant side panel: it stores an element
/// identity and a docking side, and renders the fixed tree described by
/// [`assistant_panel_tree`].
pub struct AssistantPanel {
    pub id: ElementId,
    pub current_side: PanelSide,
}

impl AssistantPanel {
    /// Builds the panel builder with the given identifier, docked to the
    /// default side.
    pub fn new(id: &str) -> (r: AssistantPanel)
        ensures
            r.id@ == id@,
            r.current_side == PanelSide::Left,
    {
        AssistantPanel { id: ElementId::new(id), current_side: PanelSide::default() }
    }

    /// Re-docks the panel to `side`, returning the builder by value.
    pub fn side(self, side: PanelSide) -> (r: AssistantPanel)
        ensures
            r.id@ == self.id@,
            r.current_side == side,
    {
        AssistantPanel { current_side: side, ..self }
    }

    /// Renders the builder into its element tree: exactly
    /// [`assistant_panel_tree`] for the stored identifier and side.
    pub fn render(self) -> (r: Panel<PanelContent>)
        ensures
            r@ == assistant_panel_tree(self.id@, self.current_side),
    {
        let mut buttons: Vec<IconButton> = Vec::new();
        buttons.push(IconButton::new("split_message", Icon::SplitMessage));
        buttons.push(IconButton::new("quote", Icon::Quote));
        buttons.push(IconButton::new("magic_wand", Icon::MagicWand));
        buttons.push(IconButton::new("plus", Icon::Plus));
        buttons.push(IconButton::new("maximize", Icon::Maximize));
        let header = HeaderRow {
            justify_between: true,
            gap: 2,
            left: HeaderLeftGroup {
                menu_button: IconButton::new("menu", Icon::Menu),
                title: Label::new("New Conversation"),
            },
            right: HeaderRightGroup { items_center: true, pixel_gap: true, buttons },
        };
        let mut messages: Vec<Label> = Vec::new();
        messages.push(Label::new("Is this thing on?"));
        let body = ChatBody {
            id: ElementId::new("chat-body"),
            direction: FlexDirection::Column,
            full_width: true,
            gap: 3,
            scrollable: true,
            messages,
        };
        let content = PanelContent {
            direction: FlexDirection::Column,
            full_height: true,
            padding_x: 2,
            gap: 2,
            header,
            body,
        };
        let ghost id0: Seq<char> = self.id@;
        let ghost side0: PanelSide = self.current_side;
        let panel = Panel::new(self.id, content).side(self.current_side).width(
            AbsoluteLength::Rems(32),
        );
        proof {
            assert(panel@.content.header.right.buttons =~~= action_buttons());
            assert(panel@.content.body.messages =~~= seq![(LabelView { text: "Is this thing on?"@ })]);
            assert(panel@ =~~= assistant_panel_tree(id0, side0));
        }
        panel
    }
}

/// Law: for every identifier and every docking side, rendering the builder
/// yields a tree rooted in a panel container keyed by that exact identifier
/// and docked to that exact side.
pub proof fn lemma_tree_keyed_and_docked(id: Seq<char>, side: PanelSide)
    ensures
        assistant_panel_tree(id, side).id == id,
        assistant_panel_tree(id, side).side == side,
{
}

/// Law: whatever the identifier and side, the header's right-hand group
/// holds exactly five action buttons, in the fixed order split-message,
/// quote, magic-wand, plus, maximize.
pub proof fn lemma_five_action_buttons(id: Seq<char>, side: PanelSide)
    ensures
        assistant_panel_tree(id, side).content.header.right.buttons.len() == 5,
        assistant_panel_tree(id, side).content.header.right.buttons[0].icon == Icon::SplitMessage,
        assistant_panel_tree(id, side).content.header.right.buttons[1].icon == Icon::Quote,
        assistant_panel_tree(id, side).content.header.right.buttons[2].icon == Icon::MagicWand,
        assistant_panel_tree(id, side).content.header.right.buttons[3].icon == Icon::Plus,
        assistant_panel_tree(id, side).content.header.right.buttons[4].icon == Icon::Maximize,
{
}

/// Law: whatever the identifier and side, the body region is scrollable and
/// holds exactly the placeholder label.
pub proof fn lemma_body_scrollable_with_placeholder(id: Seq<char>, side: PanelSide)
    ensures
        assistant_panel_tree(id, side).content.body.scrollable,
        assistant_panel_tree(id, side).content.body.messages =~~= seq![
            (LabelView { text: "Is this thing on?"@ }),
        ],
{
}

/// Law: whatever the identifier and side, the panel's width resolves to
/// exactly 32 root-relative units.
pub proof fn lemma_fixed_width(id: Seq<char>, side: PanelSide)
    ensures
        assistant_panel_tree(id, side).width == Some(AbsoluteLength::Rems(32)),
{
}

/// The tree the assistant-panel story renders: a demo container titled with
/// the component's name, a caption, and one default-configured panel keyed
/// by "assistant-panel".
pub open spec fn assistant_panel_story_tree() -> StoryContainerView<PanelContentView> {
    StoryContainerView {
        children: seq![
            StoryItemView::Title("AssistantPanel"@),
            StoryItemView::Caption("Default"@),
            StoryItemView::Panel(assistant_panel_tree("assistant-panel"@, PanelSide::Left)),
        ],
    }
}

/// A story showing one default-configured assistant panel for visual
/// inspection.
pub struct AssistantPanelStory {}

impl AssistantPanelStory {
    /// Builds the story; it has no configuration surface.
    pub fn new() -> (r: AssistantPanelStory)
        ensures
            r == (AssistantPanelStory {  }),
    {
        AssistantPanelStory {  }
    }

    /// Renders the story into its demo container: exactly
    /// [`assistant_panel_story_tree`].
    pub fn render(self) -> (r: StoryContainer<PanelContent>)
        ensures
            r@ == assistant_panel_story_tree(),
    {
        let mut children: Vec<StoryItem<PanelContent>> = Vec::new();
        children.push(StoryItem::Title("AssistantPanel".to_owned()));
        children.push(StoryItem::Caption("Default".to_owned()));
        children.push(StoryItem::Panel(AssistantPanel::new("assistant-panel").render()));
        let story = StoryContainer { children };
        proof {
            assert(story@ =~~= assistant_panel_story_tree());
        }
        story
    }
}

} // verus!
