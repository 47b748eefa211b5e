use gpui_component::layer::{DIALOG_PRIORITY, MAX_TIER_OFFSET, POPUP_PRIORITY, TOOLTIP_PRIORITY};

#[test]
#[allow(clippy::assertions_on_constants)]
fn tiers_are_ordered_with_room_for_offsets() {
    assert!(DIALOG_PRIORITY < POPUP_PRIORITY);
    assert!(POPUP_PRIORITY < TOOLTIP_PRIORITY);
    // Stacked dialogs and nested menus offset from their tier, so no
    // realistic depth may reach the tier above.
    assert!(POPUP_PRIORITY - DIALOG_PRIORITY > 16);
    assert!(TOOLTIP_PRIORITY - POPUP_PRIORITY > 16);
}

#[test]
fn deepest_offsets_stay_below_the_next_tier() {
    assert_eq!(DIALOG_PRIORITY, 10);
    assert_eq!(POPUP_PRIORITY, 100);
    assert_eq!(TOOLTIP_PRIORITY, 1000);
    assert!(DIALOG_PRIORITY + MAX_TIER_OFFSET < POPUP_PRIORITY);
    assert!(POPUP_PRIORITY + MAX_TIER_OFFSET < TOOLTIP_PRIORITY);
}
