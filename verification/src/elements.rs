//! Leaf widgets of the element tree: element identities, icons, icon
//! buttons and text labels, each with a mathematical view.

use vstd::prelude::*;

verus! {

/// An opaque key naming a UI node within its parent tree, used for
/// identity-preserving updates. Its view is the identifier text.
pub struct ElementId {
    pub name: String,
}

impl View for ElementId {
    type V = Seq<char>;

    open spec fn view(&self) -> Seq<char> {
        self.name@
    }
}

impl ElementId {
    /// Wraps identifier text as an element identity.
    pub fn new(name: &str) -> (r: ElementId)
        ensures
            r@ == name@,
    {
        ElementId { name: name.to_owned() }
    }
}

/// The icons this widget draws on its buttons.
#[derive(Clone, Copy, Debug, PartialEq, Eq, Structural)]
pub enum Icon {
    Menu,
    SplitMessage,
    Quote,
    MagicWand,
    Plus,
    Maximize,
}

/// A clickable button showing a single icon.
pub struct IconButton {
    pub id: ElementId,
    pub icon: Icon,
}

/// The view of an [`IconButton`].
#[verifier::ext_equal]
pub struct IconButtonView {
    pub id: Seq<char>,
    pub icon: Icon,
}

impl View for IconButton {
    type V = IconButtonView;

    open spec fn view(&self) -> IconButtonView {
        IconButtonView { id: self.id@, icon: self.icon }
    }
}

impl IconButton {
    /// Builds a button with the given identity and icon.
    pub fn new(id: &str, icon: Icon) -> (r: IconButton)
        ensures
            r@ == (IconButtonView { id: id@, icon: icon }),
    {
        IconButton { id: ElementId::new(id), icon }
    }
}

/// A leaf widget showing a piece of text.
pub struct Label {
    pub text: String,
}

/// The view of a [`Label`].
#[verifier::ext_equal]
pub struct LabelView {
    pub text: Seq<char>,
}

impl View for Label {
    type V = LabelView;

    open spec fn view(&self) -> LabelView {
        LabelView { text: self.text@ }
    }
}

impl Label {
    /// Builds a label showing the given text.
    pub fn new(text: &str) -> (r: Label)
        ensures
            r@ == (LabelView { text: text@ }),
    {
        Label { text: text.to_owned() }
    }
}

} // verus!
