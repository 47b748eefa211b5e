use gpui_component::searchable::IndexPath;
use gpui_component::size::Size;
use gpui_component::suggest_input::{SuggestDelegate, SuggestInput, SuggestInputEvent, SuggestInputState};

fn state() -> SuggestInputState {
    SuggestInputState::new(vec!["Two Handed Sword".to_string()])
}

/// The popup owns Cancel only while it is showing. Otherwise a focused
/// suggest input would swallow the Dialog's close button.
#[test]
fn cancel_closes_the_popup_first_and_then_reaches_the_dialog() {
    let mut state = state();
    state.set_open(true);

    assert!(state.cancel_action(), "the open popup keeps Cancel to itself");
    assert!(!state.is_open());

    assert!(!state.cancel_action());
}

/// Same for the Dialog's OK button, which dispatches Confirm.
#[test]
fn confirm_reaches_the_dialog_once_the_popup_is_closed() {
    let mut state = state();
    state.set_open(true);

    assert!(state.confirm_action(), "the open popup keeps Confirm to itself");

    state.set_open(false);
    assert!(!state.confirm_action());
}

#[test]
fn typing_filters_and_opens() {
    let mut state = SuggestInputState::new(vec![
        "Apple".to_string(),
        "Pineapple".to_string(),
        "Banana".to_string(),
    ]);
    state.on_input_change("APP", true);
    assert!(state.is_open());
    assert_eq!(state.list().items_count(), 2);
    assert_eq!(state.value().as_str(), "APP");
    let ev = state.on_press_enter();
    match ev {
        Some(SuggestInputEvent::Confirm(v)) => assert_eq!(v, "Apple"),
        None => panic!("the first match is highlighted"),
    }
    assert_eq!(state.value().as_str(), "Apple");
    assert!(!state.is_open());
}

#[test]
fn an_exact_only_match_keeps_the_popup_closed() {
    let mut state = state();
    state.on_input_change("Two Handed Sword", true);
    assert!(!state.is_open());
    state.on_input_change("two", true);
    assert!(state.is_open());
    state.on_input_change("Two Handed Sword", true);
    assert!(!state.is_open());
}

#[test]
fn programmatic_changes_do_not_open() {
    let mut state = state();
    state.on_input_change("two", false);
    assert!(!state.is_open());
    state.set_value("x");
    assert_eq!(state.value().as_str(), "x");
    assert!(!state.is_open());
}

#[test]
fn focus_and_blur() {
    let mut state = state();
    state.on_focus();
    assert!(state.is_open());
    state.on_blur(true);
    assert!(state.is_open());
    state.on_blur(false);
    assert!(!state.is_open());
    state.on_list_cancel();
    assert!(!state.is_open());
}

#[test]
fn hide_when_empty_hides_the_popup() {
    let mut state = state().hide_when_empty(true);
    state.on_input_change("zzz", true);
    assert!(state.is_open());
    assert!(!state.show_popup());
    assert_eq!(state.on_press_enter().is_none(), true);
    let mut shown = SuggestInputState::new(vec!["a".to_string()]);
    shown.on_input_change("zzz", true);
    assert!(shown.show_popup());
}

#[test]
fn delegate_rows() {
    let mut d = SuggestDelegate::new(vec!["One".to_string(), "Two".to_string()]);
    assert_eq!(d.items_count(), 2);
    d.set_selected_index(Some(IndexPath::new(1).section(3)));
    let row = d.render_item(IndexPath::new(1), Size::Large).unwrap();
    assert!(row.is_selected());
    assert_eq!(row.text().as_str(), "Two");
    assert!(!d.render_item(IndexPath::new(0), Size::Small).unwrap().is_selected());
    assert!(d.render_item(IndexPath::new(2), Size::Small).is_none());
    assert_eq!(d.confirm_value().as_deref(), Some("Two"));
    d.perform_search("ON");
    assert_eq!(d.items_count(), 1);
    assert_eq!(d.confirm_value(), None);
    assert_eq!(d.empty_text(), "No matches");
}

#[test]
fn element_sizes() {
    let el = SuggestInput::new(4);
    assert_eq!(el.size(), Size::Medium);
    assert_eq!(el.small().size(), Size::Small);
    assert_eq!(SuggestInput::new(4).with_size(Size::Large).size(), Size::Large);
}
