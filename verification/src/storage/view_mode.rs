//! Library view mode preference.

use vstd::prelude::*;

verus! {

/// User-facing view mode preference.
#[derive(Debug, Clone, Copy, PartialEq, Eq, Structural)]
pub enum ViewMode {
    /// Grid layout.
    Grid,
    /// Column/list layout.
    Column,
}

impl ViewMode {
    /// The other view mode.
    pub open spec fn spec_toggle(self) -> ViewMode {
        match self {
            ViewMode::Grid => ViewMode::Column,
            ViewMode::Column => ViewMode::Grid,
        }
    }

    /// Icon name for this view mode.
    pub fn icon_name(self) -> (s: &'static str)
        ensures
            self == ViewMode::Grid ==> s@ == "view-grid-symbolic"@,
            self == ViewMode::Column ==> s@ == "view-list-symbolic"@,
    {
        match self {
            ViewMode::Grid => "view-grid-symbolic",
            ViewMode::Column => "view-list-symbolic",
        }
    }

    /// Tooltip text for this view mode's toggle button.
    pub fn tooltip(self) -> (s: &'static str)
        ensures
            self == ViewMode::Grid ==> s@ == "Switch to column view"@,
            self == ViewMode::Column ==> s@ == "Switch to grid view"@,
    {
        match self {
            ViewMode::Grid => "Switch to column view",
            ViewMode::Column => "Switch to grid view",
        }
    }

    /// Get the other view mode.
    pub fn toggle(self) -> (r: ViewMode)
        ensures
            r == self.spec_toggle(),
    {
        match self {
            ViewMode::Grid => ViewMode::Column,
            ViewMode::Column => ViewMode::Grid,
        }
    }
}

/// Toggling twice restores the view mode, and toggling always changes it.
pub proof fn toggle_law(m: ViewMode)
    ensures
        m.spec_toggle().spec_toggle() == m,
        m.spec_toggle() != m,
{
}

} // verus!
