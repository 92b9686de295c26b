//! Composite widgets built from the panel container and the leaf elements.

pub mod assistant_panel;
