//! A verified model of an assistant side-panel widget for a declarative UI
//! toolkit: a fluent builder that renders a fixed element tree (a header
//! toolbar and a scrollable chat body) docked to one side of the surface.

pub mod components;
pub mod elements;
pub mod panel;
pub mod story;
