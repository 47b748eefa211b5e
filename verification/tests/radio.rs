use gpui_component::radio::{Radio, RadioGroup, arrow_step, next_selectable, radio_from_label};
use gpui_component::size::{Axis, ElementId, Size};

#[test]
fn an_explicit_accessibility_label_replaces_the_visible_one() {
    let plain = Radio::new("automatic").label("Automatic");
    assert_eq!(plain.accessibility_label_text(), None);
    assert!(matches!(
        plain.label_text(),
        Some(label) if label.as_str() == "Automatic"
    ));

    let named = Radio::new("automatic")
        .label("Automatic")
        .accessibility_label("Choose automatic mode");
    assert_eq!(
        named.accessibility_label_text().map(|s| s.as_str()),
        Some("Choose automatic mode"),
        "an explicit name must win over the visible label"
    );
    assert!(
        matches!(
            named.label_text(),
            Some(label) if label.as_str() == "Automatic"
        ),
        "and must not change what is drawn"
    );
}

#[test]
fn the_announced_name_falls_back_to_the_label() {
    let plain = Radio::new("automatic").label("Automatic");
    assert_eq!(plain.announced_name().map(|s| s.as_str()), Some("Automatic"));
    let named = plain.accessibility_label("Choose automatic mode");
    assert_eq!(
        named.announced_name().map(|s| s.as_str()),
        Some("Choose automatic mode")
    );
    assert_eq!(Radio::new("x").announced_name(), None);
}

#[test]
fn radio_defaults() {
    let r = Radio::new("a");
    assert!(!r.is_checked());
    assert!(!r.is_disabled());
    assert!(r.is_tab_stop());
    assert!(r.is_focus_ring_enabled());
    let r = r.checked(true).disabled(true).tab_stop(false).focus_ring(false).with_size(Size::Small);
    assert!(r.is_checked());
    assert!(r.is_disabled());
    assert!(!r.is_tab_stop());
    assert!(!r.is_focus_ring_enabled());
    let from = radio_from_label("Auto");
    assert_eq!(from.label_text().map(|s| s.as_str()), Some("Auto"));
}

#[test]
fn arrow_keys_step_both_axes() {
    assert_eq!(arrow_step("down", false), Some(1));
    assert_eq!(arrow_step("right", false), Some(1));
    assert_eq!(arrow_step("up", false), Some(-1));
    assert_eq!(arrow_step("left", false), Some(-1));
    assert_eq!(arrow_step("down", true), None);
    assert_eq!(arrow_step("enter", false), None);
    assert_eq!(arrow_step("Down", false), None);
}

#[test]
fn next_selectable_wraps_and_skips_disabled() {
    let sel = [true, false, true, true];
    assert_eq!(next_selectable(0, 1, &sel), Some(2));
    assert_eq!(next_selectable(3, 1, &sel), Some(0));
    assert_eq!(next_selectable(0, -1, &sel), Some(3));
    assert_eq!(next_selectable(2, -1, &sel), Some(0));
    // the only selectable option is the current one
    assert_eq!(next_selectable(1, 1, &[false, true, false]), None);
    assert_eq!(next_selectable(0, 1, &[false, false]), None);
    assert_eq!(next_selectable(0, 1, &[]), None);
}

#[test]
fn group_tab_stop_lands_on_the_selected_option() {
    let group = RadioGroup::<u8>::vertical("g")
        .child(Radio::new("a"))
        .child(Radio::new("b"))
        .child(Radio::new("c"))
        .selected_index(Some(2));
    assert_eq!(group.tab_stop_index(), Some(2));
    let group = group.selected_index(None);
    assert_eq!(group.tab_stop_index(), Some(0));
    let group = RadioGroup::<u8>::horizontal("g")
        .child(Radio::new("a").disabled(true))
        .child(Radio::new("b"))
        .selected_index(Some(0));
    assert_eq!(group.selectable(), vec![false, true]);
    assert_eq!(group.tab_stop_index(), Some(1));
    let disabled = group.disabled(true);
    assert_eq!(disabled.tab_stop_index(), None);
}

#[test]
fn group_key_target_moves_selection() {
    let group = RadioGroup::<u8>::vertical("g").children(vec![
        Radio::new("a"),
        Radio::new("b").disabled(true),
        Radio::new("c"),
    ]);
    assert_eq!(group.key_target("down", false, Some(0)), None, "no handler, no key listener");
    assert_eq!(group.click_handler(), None);
    let group = group.on_click(9);
    assert_eq!(group.click_handler(), Some(&9));
    assert_eq!(group.key_target("down", false, Some(0)), Some(2));
    assert_eq!(group.key_target("right", false, Some(2)), Some(0));
    assert_eq!(group.key_target("up", false, Some(0)), Some(2));
    assert_eq!(group.key_target("up", true, Some(0)), None);
    assert_eq!(group.key_target("down", false, None), None);
    assert_eq!(group.key_target("down", false, Some(7)), None);
}

#[test]
fn group_arranges_its_options() {
    let group = RadioGroup::<u8>::horizontal("g")
        .layout(Axis::Vertical)
        .child(Radio::new("a").disabled(true))
        .child(Radio::new("b"))
        .selected_index(Some(1));
    let radios = group.arrange();
    assert_eq!(radios.len(), 2);
    assert!(!radios[0].is_checked());
    assert!(radios[1].is_checked());
    assert!(!radios[0].is_tab_stop());
    assert!(radios[1].is_tab_stop());
    // the group's disabled state replaces the option's own
    assert!(!radios[0].is_disabled());
    assert_eq!(radios[0].set_position(), (Some(1), Some(2)));
    assert_eq!(radios[1].set_position(), (Some(2), Some(2)));
    assert!(Axis::Vertical.is_vertical());
    assert!(!Axis::Horizontal.is_vertical());
    assert!(matches!(ElementId::Integer(0), ElementId::Integer(0)));
}

#[test]
fn empty_group_has_nothing_to_walk_to() {
    assert_eq!(next_selectable(usize::MAX, 1, &[]), None);
    assert_eq!(next_selectable(7, -1, &[]), None);
}

#[test]
fn focus_ring_shows_only_while_focused_and_enabled() {
    let r = Radio::new("a");
    assert!(r.shows_focus_ring(true));
    assert!(!r.shows_focus_ring(false));
    let r = r.focus_ring(false);
    assert!(!r.shows_focus_ring(true));
}
