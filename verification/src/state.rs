//! Which panels of the workbench are shown.

use vstd::prelude::*;

verus! {

/// Visibility of the panels around the main view.
#[derive(Clone, Copy, Debug, PartialEq, Eq, Structural)]
pub struct UIState {
    pub show_nav_panel: bool,
    pub show_prop_panel: bool,
    pub show_settings: bool,
}

impl UIState {
    /// The state at first start: both side panels open, the settings
    /// dialog closed.
    pub fn default() -> (s: UIState)
        ensures
            s == (UIState { show_nav_panel: true, show_prop_panel: true, show_settings: false }),
    {
        UIState { show_nav_panel: true, show_prop_panel: true, show_settings: false }
    }
}

} // verus!
