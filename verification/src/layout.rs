//! Layout vocabulary of the fixed-size panel shell and the tabbed window.

use vstd::prelude::*;

verus! {

/// Where a registered window lives in the panel shell.
#[derive(Clone, Copy, PartialEq, Eq, Debug, Structural)]
pub enum PanelLocation {
    Main,
    Left,
    Right,
    Bottom,
}

/// Visibility of the optional panels (the main window is always shown).
#[derive(Clone, Copy, Debug, PartialEq, Eq, Structural)]
pub struct PanelVisible {
    pub left: bool,
    pub right: bool,
    pub bottom: bool,
}

impl Default for PanelVisible {
    fn default() -> (v: Self)
        ensures
            !v.left && !v.right && !v.bottom,
    {
        PanelVisible { left: false, right: false, bottom: false }
    }
}

/// Where the tab switcher sits relative to the active view.
#[derive(Clone, Copy, PartialEq, Eq, Debug, Structural)]
pub enum TabPosition {
    Top,
    Left,
    Right,
    Bottom,
}

} // verus!
