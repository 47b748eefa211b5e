use gpui_component::icon::{Icon, IconName};
use gpui_component::sidebar::group::SidebarGroup;
use gpui_component::sidebar::menu::{MenuItemRender, MenuKey, SidebarMenu, SidebarMenuItem, menu_key};
use gpui_component::sidebar::{Collapsible, SidebarHost};

struct Host;

impl SidebarHost for Host {
    type ClickHandler = &'static str;
    type Suffix = u8;
    type ContextMenu = u16;
    type KeyHandler = &'static str;
    type FocusHandle = u32;
}

type Item = SidebarMenuItem<Host>;

#[test]
fn group_label_and_children() {
    let group = SidebarGroup::new("Projects")
        .child(Item::new("a"))
        .children(vec![Item::new("b"), Item::new("c")]);
    assert_eq!(group.label_text().as_deref(), Some("Projects"));
    let upper = group.uppercase(true).label_border(true);
    assert_eq!(upper.label_text().as_deref(), Some("PROJECTS"));
    let layout = upper.collapsed(true).layout("side");
    assert_eq!(layout.label, None);
    assert!(layout.label_border);
    let ids: Vec<&str> = layout.children.iter().map(|(id, _)| id.as_str()).collect();
    assert_eq!(ids, vec!["side-0", "side-1", "side-2"]);
    assert!(layout.children.iter().all(|(_, c)| c.is_collapsed()));
    assert_eq!(layout.children[1].1.label().as_str(), "b");
}

#[test]
fn group_ids_count_past_nine() {
    let mut group = SidebarGroup::new("g");
    for _ in 0..12 {
        group = group.child(Item::new("x"));
    }
    let layout = group.layout("g");
    assert_eq!(layout.children[10].0, "g-10");
    assert!(!layout.children[11].1.is_collapsed());
}

#[test]
fn menu_keys_reach_their_handlers() {
    assert_eq!(menu_key("up"), Some(MenuKey::SelectPrev));
    assert_eq!(menu_key("space"), Some(MenuKey::Confirm));
    assert_eq!(menu_key("enter"), Some(MenuKey::Confirm));
    assert_eq!(menu_key("tab"), None);
    let menu = SidebarMenu::<Host>::new();
    assert!(!menu.has_key_handlers());
    assert_eq!(menu.key_handler("up"), None);
    let menu = menu
        .on_select_prev("prev")
        .on_select_next("next")
        .on_select_first("first")
        .on_select_last("last")
        .on_confirm("confirm");
    assert!(menu.has_key_handlers());
    assert_eq!(menu.key_handler("up"), Some(&"prev"));
    assert_eq!(menu.key_handler("down"), Some(&"next"));
    assert_eq!(menu.key_handler("home"), Some(&"first"));
    assert_eq!(menu.key_handler("end"), Some(&"last"));
    assert_eq!(menu.key_handler("space"), Some(&"confirm"));
    assert_eq!(menu.key_handler("left"), None);
}

#[test]
fn menu_hands_flags_to_items() {
    let menu = SidebarMenu::<Host>::new()
        .child(Item::new("a").active(true))
        .child(Item::new("b"));
    let items = menu.collapsed(true).arrange("m", true);
    assert_eq!(items[0].0, "m-0");
    assert!(items[0].1.is_collapsed());
    // no focus handle: never a focused parent
    assert!(!items[0].1.render_state(None).is_keyboard_focused);

    let menu = SidebarMenu::<Host>::new()
        .children(vec![Item::new("a").active(true), Item::new("b")])
        .track_focus(9);
    assert_eq!(menu.focus_handle(), Some(&9));
    let items = menu.arrange("m", true);
    assert_eq!(items.len(), 2);
    assert!(items[0].1.render_state(None).is_keyboard_focused);
    assert!(items[1].1.render_state(None).suppress_parent_focus);
    let added = SidebarMenu::<Host>::new()
        .child(Item::new("a"))
        .children(vec![Item::new("b"), Item::new("c")])
        .arrange("m", false);
    assert_eq!(added.len(), 3);
    assert_eq!(added[0].1.label().as_str(), "a");
    assert_eq!(added[1].1.label().as_str(), "b");
    assert_eq!(added[2].1.label().as_str(), "c");
}

#[test]
fn item_render_and_click() {
    let leaf = Item::new("Leaf").on_click("clicked");
    assert_eq!(leaf.initial_open_state(), None);
    assert_eq!(
        leaf.render_state(None),
        MenuItemRender {
            is_submenu: false,
            is_open: false,
            is_hoverable: true,
            is_keyboard_focused: false,
            suppress_parent_focus: false,
            clickable: true,
            show_text: true,
        }
    );
    assert_eq!(leaf.click(None), Some((None, Some(&"clicked"))));
    assert_eq!(Item::new("x").disable(true).click(None), None);

    let sub = Item::new("Sub")
        .icon(Icon::new(IconName::Inbox))
        .subtitle("more")
        .suffix(1)
        .context_menu(2)
        .default_open(true)
        .children(vec![Item::new("c0"), Item::new("c1")]);
    assert!(sub.is_submenu());
    assert_eq!(sub.initial_open_state(), Some(true));
    assert!(sub.render_state(Some(true)).is_open);
    assert!(!sub.render_state(Some(false)).is_open);
    // clicking only opens when asked to
    assert_eq!(sub.click(Some(false)), Some((Some(false), None)));
    let opener = sub.click_to_open(true);
    assert_eq!(opener.click(Some(false)), Some((Some(true), None)));
    assert_eq!(Item::caret_click(true), false);
    let collapsed = opener.collapsed(true);
    assert!(!collapsed.render_state(Some(true)).is_open);
    assert!(!collapsed.render_state(Some(true)).show_text);
    let kids = collapsed.child_entries("s-1");
    assert_eq!(kids[1].0, "s-1-1");
    assert_eq!(kids[1].1.label().as_str(), "c1");
    let active = Item::new("a").active(true);
    assert!(!active.render_state(None).is_hoverable);
}
