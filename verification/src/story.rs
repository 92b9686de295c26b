//! The story harness: a titled demo container that shows one component for
//! visual inspection.

use vstd::prelude::*;
use crate::panel::{Panel, PanelView};

verus! {

/// One child of a story container: its title, an explanatory caption, or
/// the panel under inspection.
pub enum StoryItem<C> {
    Title(String),
    Caption(String),
    Panel(Panel<C>),
}

/// The view of a [`StoryItem`], over the view `V` of the panel content.
#[verifier::ext_equal]
pub enum StoryItemView<V> {
    Title(Seq<char>),
    Caption(Seq<char>),
    Panel(PanelView<V>),
}

impl<C: View> View for StoryItem<C> {
    type V = StoryItemView<C::V>;

    open spec fn view(&self) -> StoryItemView<C::V> {
        match self {
            StoryItem::Title(t) => StoryItemView::Title(t@),
            StoryItem::Caption(t) => StoryItemView::Caption(t@),
            StoryItem::Panel(p) => StoryItemView::Panel(p@),
        }
    }
}

/// A standalone demo container listing a component and its captions.
pub struct StoryContainer<C> {
    pub children: Vec<StoryItem<C>>,
}

/// The view of a [`StoryContainer`].
#[verifier::ext_equal]
pub struct StoryContainerView<V> {
    pub children: Seq<StoryItemView<V>>,
}

impl<C: View> View for StoryContainer<C> {
    type V = StoryContainerView<C::V>;

    open spec fn view(&self) -> StoryContainerView<C::V> {
        StoryContainerView { children: self.children@.map_values(|c: StoryItem<C>| c@) }
    }
}

} // verus!
