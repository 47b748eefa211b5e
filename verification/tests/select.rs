use gpui_component::icon::{Icon, IconName};
use gpui_component::searchable::{IndexPath, SearchableVec, SelectGroup, SelectionChange};
use gpui_component::layer::POPUP_PRIORITY;
use gpui_component::select::{
    Caret, DisplayTitle, FocusTarget, MenuMaxHeight, MenuWidth, Select, SelectEvent, SelectPopup,
    SelectState, TabNavigation, TriggerState,
};
use gpui_component::size::Size;

fn strings(items: &[&str]) -> Vec<String> {
    items.iter().map(|s| s.to_string()).collect()
}

fn languages() -> SearchableVec {
    SearchableVec::new(strings(&["Rust", "Go", "C++"]))
}

fn fruits(third: bool) -> SearchableVec {
    let mut groups = SearchableVec::grouped(vec![]);
    groups.push(SelectGroup::new("A").items(strings(&["Apple", "Avocado"])));
    if third {
        groups.push(SelectGroup::new("B").items(strings(&["Banana", "Blueberry", "Blackberry"])));
    } else {
        groups.push(SelectGroup::new("B").items(strings(&["Banana", "Blueberry"])));
    }
    groups
}

fn value(state: &SelectState) -> Option<&str> {
    state.selected_value().map(|s| s.as_str())
}

fn confirmed(ev: &SelectEvent) -> Option<&str> {
    match ev {
        SelectEvent::Confirm(v) => v.as_deref(),
    }
}

#[test]
fn an_explicit_accessibility_label_does_not_replace_the_placeholder() {
    let plain = Select::<(), ()>::new(1).placeholder("Choose a language");
    assert_eq!(plain.accessibility_label_text(), None);
    assert_eq!(
        plain.placeholder_text().map(|s| s.as_str()),
        Some("Choose a language")
    );

    let named = Select::<(), ()>::new(1)
        .placeholder("Choose a language")
        .accessibility_label("Programming language");
    assert_eq!(
        named.accessibility_label_text().map(|s| s.as_str()),
        Some("Programming language")
    );
    assert_eq!(
        named.placeholder_text().map(|s| s.as_str()),
        Some("Choose a language"),
        "an accessible name must not change what is drawn"
    );
}

#[test]
fn test_select_initial_selection_seeds_cursor() {
    let state = SelectState::new(languages(), Some(IndexPath::new(1)));
    assert_eq!(
        state.selected_index(),
        Some(IndexPath::new(1)),
        "initial cursor should be seeded on ListState so display_title can read it",
    );
    assert_eq!(value(&state), Some("Go"));
}

#[test]
fn test_select_initial_grouped_selection_seeds_cursor() {
    let initial = IndexPath::new(1).section(1);
    let state = SelectState::new(fruits(true), Some(initial));
    assert_eq!(state.selected_index(), Some(initial));
    assert_eq!(value(&state), Some("Blueberry"));
}

#[test]
fn test_select_set_selected_value_clears_search_query() {
    let mut state = SelectState::new(languages(), None).searchable(true);
    state.set_query("Rust");
    assert_eq!(state.list().items_count(0), 1);

    state.set_selected_value("Go");

    assert_eq!(value(&state), Some("Go"));
    assert_eq!(state.selected_index(), Some(IndexPath::new(1)));
    assert_eq!(state.list().query().as_str(), "");
}

#[test]
fn test_select_set_selected_value_clears_grouped_search_query() {
    let mut state = SelectState::new(fruits(false), None).searchable(true);
    state.set_query("Blue");
    assert_eq!(state.list().sections_count(), 1);
    state.set_selected_value("Banana");

    assert_eq!(value(&state), Some("Banana"));
    assert_eq!(state.selected_index(), Some(IndexPath::new(0).section(1)));
}

#[test]
fn search_ignores_case() {
    let mut list = languages();
    list.set_query("rUsT");
    assert_eq!(list.items_count(0), 1);
    assert_eq!(list.item(IndexPath::new(0)).map(|s| s.as_str()), Some("Rust"));
    list.set_query("o");
    assert_eq!(list.items_count(0), 1);
    list.set_query("");
    assert_eq!(list.items_count(0), 3);
    list.set_query("zz");
    assert_eq!(list.items_count(0), 0);
    assert_eq!(list.sections_count(), 1);
}

#[test]
fn grouped_search_drops_empty_groups() {
    let mut list = fruits(true);
    list.set_query("berry");
    assert_eq!(list.sections_count(), 1);
    assert_eq!(list.items_count(0), 2);
    assert_eq!(list.position("Blackberry"), Some(IndexPath::new(1)));
    list.clear_query();
    assert_eq!(list.sections_count(), 2);
    assert_eq!(list.position("Blackberry"), Some(IndexPath::new(2).section(1)));
    assert_eq!(list.position("Cherry"), None);
}

#[test]
fn on_will_change_applies_changes_in_order() {
    let list = languages();
    let mut selection = vec![(IndexPath::new(0), "Rust".to_string())];
    list.on_will_change(
        &mut selection,
        &vec![
            SelectionChange::Deselect { index: IndexPath::new(0) },
            SelectionChange::Select { index: IndexPath::new(2) },
            SelectionChange::Select { index: IndexPath::new(9) },
        ],
    );
    assert_eq!(selection, vec![(IndexPath::new(2), "C++".to_string())]);
}

#[test]
fn confirm_commits_the_cursor_and_closes() {
    let mut state = SelectState::new(languages(), Some(IndexPath::new(0)));
    assert!(state.toggle_menu());
    assert_eq!(state.focus_target(), FocusTarget::List);
    let ev = state.confirm(Some(IndexPath::new(2)));
    assert_eq!(confirmed(&ev), Some("C++"));
    assert_eq!(value(&state), Some("C++"));
    assert!(!state.is_open());
    assert_eq!(state.focus_target(), FocusTarget::Trigger);
    let ev = state.confirm(None);
    assert_eq!(confirmed(&ev), None);
    assert_eq!(value(&state), None);
}

#[test]
fn cancel_and_blur_restore_the_committed_cursor() {
    let mut state = SelectState::new(languages(), Some(IndexPath::new(1)));
    state.set_open(true);
    state.set_selected_index(Some(IndexPath::new(2)));
    let _ = state.confirm(Some(IndexPath::new(0)));
    state.set_open(true);
    // the cursor moves without committing
    let mut moved = SelectState::new(languages(), Some(IndexPath::new(0)));
    moved.set_open(true);
    moved.cancel();
    assert!(!moved.is_open());
    assert_eq!(moved.selected_index(), Some(IndexPath::new(0)));

    assert!(!state.on_blur(true, false));
    assert!(state.is_open());
    assert!(state.on_blur(false, false));
    assert!(!state.is_open());
    assert_eq!(state.selected_index(), Some(IndexPath::new(0)));
}

#[test]
fn escape_propagates_when_closed() {
    let mut state = SelectState::new(languages(), None);
    assert!(!state.escape());
    state.set_open(true);
    assert!(state.escape());
    assert!(!state.is_open());
}

#[test]
fn tab_commits_only_when_open() {
    let mut state = SelectState::new(languages(), Some(IndexPath::new(1)));
    match state.tab_navigate(true) {
        TabNavigation::PassThrough { backwards } => assert!(backwards),
        _ => panic!("a closed select lets Tab through"),
    }
    state.set_open(true);
    state.set_selected_index(Some(IndexPath::new(2)));
    match state.tab_navigate(false) {
        TabNavigation::CommitAndAdvance { event, backwards } => {
            assert!(!backwards);
            assert_eq!(event.as_ref().and_then(confirmed), Some("C++"));
        }
        _ => panic!("an open select commits on Tab"),
    }
    assert!(!state.is_open());
}

#[test]
fn clean_clears_and_emits_none() {
    let mut state = SelectState::new(languages(), Some(IndexPath::new(1)));
    let ev = state.clean();
    assert_eq!(confirmed(&ev), None);
    assert_eq!(state.selected_index(), None);
    assert_eq!(value(&state), None);
}

#[test]
fn display_title_uses_prefix_or_placeholder() {
    let mut state = SelectState::new(languages(), None);
    match state.display_title() {
        DisplayTitle::Placeholder(p) => assert_eq!(p, None),
        _ => panic!("no cursor shows the placeholder"),
    }
    Select::<(), ()>::new(3)
        .placeholder("Pick one")
        .title_prefix("Lang: ")
        .apply_to(&mut state);
    match state.display_title() {
        DisplayTitle::Placeholder(p) => assert_eq!(p.as_deref(), Some("Pick one")),
        _ => panic!("no cursor shows the placeholder"),
    }
    state.set_selected_index(Some(IndexPath::new(2)));
    match state.display_title() {
        DisplayTitle::Item(t) => assert_eq!(t, "Lang: C++"),
        _ => panic!("the cursor's item is shown"),
    }
    assert_eq!(state.all_item_titles(), strings(&["Lang: Rust", "Lang: Go", "Lang: C++"]));
}

#[test]
fn trigger_state_follows_flags() {
    let mut state = SelectState::new(languages(), Some(IndexPath::new(0)));
    assert_eq!(
        state.trigger_state(false),
        TriggerState {
            show_clean: false,
            clean_disabled: false,
            show_icon: true,
            allow_open: true,
            outline_visible: false
        }
    );
    let host = Select::<u32, u8>::new(7)
        .cleanable(true)
        .disabled(true)
        .menu_width(300)
        .empty(1)
        .apply_to(&mut state);
    assert_eq!(host.menu_width, MenuWidth::Given(300));
    assert_eq!(host.menu_max_h, MenuMaxHeight::Default);
    assert_eq!(host.empty, Some(1));
    assert_eq!(
        state.trigger_state(true),
        TriggerState {
            show_clean: true,
            clean_disabled: true,
            show_icon: false,
            allow_open: false,
            outline_visible: false
        }
    );
    state.set_open(true);
    assert!(state.trigger_state(false).outline_visible);
}

#[test]
fn menu_lengths_default_to_the_trigger_and_twenty_rem() {
    let mut state = SelectState::new(languages(), None);
    let host = Select::<u32, u8>::new(1).apply_to(&mut state);
    assert_eq!(host.menu_width, MenuWidth::TriggerWidth);
    assert_eq!(host.menu_max_h, MenuMaxHeight::Default);
    let host = Select::<u32, u8>::new(1).menu_max_h(12).apply_to(&mut state);
    assert_eq!(host.menu_max_h, MenuMaxHeight::Given(12));
}

#[test]
fn clear_button_is_inert_while_disabled() {
    let mut state = SelectState::new(languages(), Some(IndexPath::new(1)));
    Select::<(), ()>::new(1).cleanable(true).disabled(true).apply_to(&mut state);
    assert!(state.clear_button_click().is_none());
    assert_eq!(state.selected_index(), Some(IndexPath::new(1)));
    Select::<(), ()>::new(1).cleanable(true).apply_to(&mut state);
    match state.clear_button_click() {
        Some(ev) => assert_eq!(confirmed(&ev), None),
        None => panic!("an enabled select clears"),
    }
    assert_eq!(state.selected_index(), None);
    assert_eq!(state.selected_value(), None);
    assert!(state.trigger_state(false).show_icon);
}

#[test]
fn popup_shows_while_open() {
    let mut state = SelectState::new(languages(), None).searchable(true);
    assert_eq!(state.popup(), None);
    state.set_open(true);
    assert_eq!(
        state.popup(),
        Some(SelectPopup { priority: POPUP_PRIORITY, searchable: true, size: Size::Medium })
    );
    let mut plain = SelectState::new(languages(), None);
    plain.set_open(true);
    assert!(!plain.popup().unwrap().searchable);
}

#[test]
fn fit_sizer_lists_every_title() {
    let mut state = SelectState::new(languages(), None);
    assert_eq!(state.fit_sizer(), None);
    Select::<(), ()>::new(1).fit_items(true).title_prefix("> ").apply_to(&mut state);
    assert_eq!(state.fit_sizer(), Some(strings(&["> Rust", "> Go", "> C++"])));
}

#[test]
fn caret_sizes_its_chevron() {
    assert_eq!(Caret::<u8>::new(Size::XSmall).icon_size(), Size::XSmall);
    assert_eq!(Caret::<u8>::new(Size::Small).icon_size(), Size::Small);
    assert_eq!(Caret::<u8>::new(Size::Large).icon_size(), Size::Medium);
    let caret = Caret::new(Size::Medium).text_color(5u8);
    assert_eq!(caret.color(), Some(&5));
    assert_eq!(caret.icon().size(), Some(Size::Medium));
    assert_eq!(
        caret.icon().path_ref().as_str(),
        Icon::new(IconName::ChevronDown).path_ref().as_str()
    );
}

#[test]
fn select_tab_actions() {
    let mut state = SelectState::new(languages(), Some(IndexPath::new(0)));
    assert!(matches!(state.select_tab_prev(), TabNavigation::PassThrough { backwards: true }));
    assert!(matches!(state.select_tab(), TabNavigation::PassThrough { backwards: false }));
    state.set_open(true);
    state.set_selected_index(Some(IndexPath::new(1)));
    match state.select_tab_prev() {
        TabNavigation::CommitAndAdvance { event, backwards } => {
            assert!(backwards);
            assert_eq!(event.as_ref().and_then(confirmed), Some("Go"));
        }
        _ => panic!("an open select commits on Shift-Tab"),
    }
}

#[test]
fn a_flat_list_takes_more_items() {
    let mut list = SearchableVec::new(strings(&["Rust"]));
    list.set_query("o");
    list.push_item("Go".to_string());
    assert_eq!(list.sections_count(), 1);
    assert_eq!(list.items_count(0), 1);
    assert_eq!(list.item(IndexPath::new(0)).map(|s| s.as_str()), Some("Go"));
    list.clear_query();
    assert_eq!(list.items_count(0), 2);
    assert_eq!(list.item(IndexPath::new(1)).map(|s| s.as_str()), Some("Go"));
}

#[test]
fn tab_with_nothing_highlighted_commits_nothing() {
    let mut state = SelectState::new(languages(), Some(IndexPath::new(1)));
    state.set_open(true);
    state.set_cursor(None);
    match state.tab_navigate(false) {
        TabNavigation::CommitAndAdvance { event, backwards } => {
            assert!(!backwards);
            assert!(event.is_none());
        }
        _ => panic!("an open select closes on Tab"),
    }
    assert!(!state.is_open());
    assert_eq!(state.selected_value().map(|s| s.as_str()), Some("Go"));
}

#[test]
fn the_cursor_moves_without_committing() {
    let mut state = SelectState::new(languages(), Some(IndexPath::new(0)));
    state.set_cursor(Some(IndexPath::new(2)));
    assert_eq!(state.selected_index(), Some(IndexPath::new(2)));
    assert_eq!(state.selected_value().map(|s| s.as_str()), Some("Rust"));
}
