//! The layout class of the screen, which decides how the controls are
//! arranged.
use vstd::prelude::*;

verus! {

/// How the action buttons are laid out.
#[derive(Debug, Clone, Copy, PartialEq, Eq, Structural)]
pub enum ActionButtonLayout {
    /// Fixed-width buttons in a bottom panel of a portrait screen.
    Portrait,
    /// Flexible buttons sharing the rows of a narrow sidebar.
    CompactLandscape,
    /// Full-width buttons stacked in the desktop sidebar.
    Desktop,
}

/// The button layout of a screen: portrait screens put the panel at the
/// bottom; small landscape screens use the compact sidebar.
pub fn action_button_layout(panel_on_bottom: bool, is_compact_landscape: bool) -> (l:
    ActionButtonLayout)
    ensures
        l == if panel_on_bottom {
            ActionButtonLayout::Portrait
        } else if is_compact_landscape {
            ActionButtonLayout::CompactLandscape
        } else {
            ActionButtonLayout::Desktop
        },
{
    if panel_on_bottom {
        ActionButtonLayout::Portrait
    } else if is_compact_landscape {
        ActionButtonLayout::CompactLandscape
    } else {
        ActionButtonLayout::Desktop
    }
}

/// A layout is mobile when its panel is at the bottom or its sidebar is compact.
pub fn is_mobile_layout(panel_on_bottom: bool, is_compact_landscape: bool) -> (r: bool)
    ensures
        r == (panel_on_bottom || is_compact_landscape),
{
    panel_on_bottom || is_compact_landscape
}

/// An element of the in-game controls whose style follows the layout.
#[derive(Debug, Clone, Copy, PartialEq, Eq, Structural)]
pub enum ResponsiveElement {
    /// The panel holding all controls.
    ControlPanel,
    /// Content shown only on the desktop layout.
    DesktopOnly,
    /// The status texts.
    StatusGroup,
    /// The row or column of action buttons.
    ActionGroup,
    /// One action button.
    ActionButton,
}

/// The style preset an element takes on a screen.
#[derive(Debug, Clone, Copy, PartialEq, Eq, Structural)]
pub enum ElementPreset {
    /// The element is not displayed.
    Hidden,
    /// The element is displayed with the preset of this layout class.
    Shown(ActionButtonLayout),
}

/// The preset of each element: every element follows the screen's layout
/// class (bottom panel, compact sidebar or desktop sidebar), except that
/// desktop-only content is hidden on the two mobile classes.
pub fn element_preset(element: ResponsiveElement, panel_on_bottom: bool, is_compact_landscape: bool) -> (p:
    ElementPreset)
    ensures
        p == if element == ResponsiveElement::DesktopOnly && (panel_on_bottom
            || is_compact_landscape) {
            ElementPreset::Hidden
        } else if panel_on_bottom {
            ElementPreset::Shown(ActionButtonLayout::Portrait)
        } else if is_compact_landscape {
            ElementPreset::Shown(ActionButtonLayout::CompactLandscape)
        } else {
            ElementPreset::Shown(ActionButtonLayout::Desktop)
        },
{
    match element {
        ResponsiveElement::DesktopOnly => {
            if is_mobile_layout(panel_on_bottom, is_compact_landscape) {
                ElementPreset::Hidden
            } else {
                ElementPreset::Shown(ActionButtonLayout::Desktop)
            }
        },
        _ => ElementPreset::Shown(action_button_layout(panel_on_bottom, is_compact_landscape)),
    }
}

} // verus!
