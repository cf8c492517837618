use hex_go::layout::{ActionButtonLayout, ElementPreset, ResponsiveElement, element_preset};

#[test]
fn desktop_only_content_is_hidden_on_mobile_layouts() {
    assert_eq!(element_preset(ResponsiveElement::DesktopOnly, true, false), ElementPreset::Hidden);
    assert_eq!(element_preset(ResponsiveElement::DesktopOnly, false, true), ElementPreset::Hidden);
    assert_eq!(
        element_preset(ResponsiveElement::DesktopOnly, false, false),
        ElementPreset::Shown(ActionButtonLayout::Desktop)
    );
}

#[test]
fn elements_follow_the_layout_class() {
    for element in [
        ResponsiveElement::ControlPanel,
        ResponsiveElement::StatusGroup,
        ResponsiveElement::ActionGroup,
        ResponsiveElement::ActionButton,
    ] {
        assert_eq!(element_preset(element, true, false), ElementPreset::Shown(ActionButtonLayout::Portrait));
        assert_eq!(element_preset(element, true, true), ElementPreset::Shown(ActionButtonLayout::Portrait));
        assert_eq!(
            element_preset(element, false, true),
            ElementPreset::Shown(ActionButtonLayout::CompactLandscape)
        );
        assert_eq!(element_preset(element, false, false), ElementPreset::Shown(ActionButtonLayout::Desktop));
    }
}
