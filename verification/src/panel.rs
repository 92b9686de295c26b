//! The side-dockable panel container: a fixed-width region attached to one
//! edge of the containing surface, holding arbitrary content.

use vstd::prelude::*;
use crate::elements::ElementId;

verus! {

/// The edge of the containing surface a panel docks to.
#[derive(Clone, Copy, Debug, PartialEq, Eq, Structural)]
pub enum PanelSide {
    Left,
    Right,
    Bottom,
}

impl Default for PanelSide {
    /// The documented default docking side of a panel.
    fn default() -> (r: PanelSide)
        ensures
            r == PanelSide::Left,
    {
        PanelSide::Left
    }
}

/// The main axis along which a flex container lays out its children.
#[derive(Clone, Copy, Debug, PartialEq, Eq, Structural)]
pub enum FlexDirection {
    Row,
    Column,
}

/// A length measured either in pixels or in root-relative units (rems).
#[derive(Clone, Copy, Debug, PartialEq, Eq, Structural)]
pub enum AbsoluteLength {
    Pixels(u32),
    Rems(u32),
}

/// A dockable container keyed by an element identity, docked to a side,
/// optionally given a fixed width, and holding content of type `C`.
pub struct Panel<C> {
    pub id: ElementId,
    pub side: PanelSide,
    pub width: Option<AbsoluteLength>,
    pub content: C,
}

/// The view of a [`Panel`], over the view `V` of its content.
#[verifier::ext_equal]
pub struct PanelView<V> {
    pub id: Seq<char>,
    pub side: PanelSide,
    pub width: Option<AbsoluteLength>,
    pub content: V,
}

impl<C: View> View for Panel<C> {
    type V = PanelView<C::V>;

    open spec fn view(&self) -> PanelView<C::V> {
        PanelView {
            id: self.id@,
            side: self.side,
            width: self.width,
            content: self.content@,
        }
    }
}

impl<C: View> Panel<C> {
    /// Builds a panel holding `content`, docked to the default side, with
    /// no width override.
    pub fn new(id: ElementId, content: C) -> (r: Panel<C>)
        ensures
            r@ == (PanelView {
                id: id@,
                side: PanelSide::Left,
                width: None::<AbsoluteLength>,
                content: content@,
            }),
    {
        Panel { id, side: PanelSide::default(), width: None, content }
    }

    /// Re-docks the panel to `side`.
    pub fn side(self, side: PanelSide) -> (r: Panel<C>)
        ensures
            r@ == (PanelView { side: side, ..self@ }),
    {
        Panel { side, ..self }
    }

    /// Fixes the panel's width to `width`.
    pub fn width(self, width: AbsoluteLength) -> (r: Panel<C>)
        ensures
            r@ == (PanelView { width: Some(width), ..self@ }),
    {
        Panel { width: Some(width), ..self }
    }
}

} // verus!
