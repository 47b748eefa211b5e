//! Sidebar menus and their (possibly nested) items: configuration, how an
//! item renders in each state, what a click or a key does, and the ids and
//! flags a menu hands down to its items.

use vstd::prelude::*;

use crate::icon::{Icon, IconModel};
use crate::select::icon_opt;
use crate::sidebar::{Collapsible, SidebarHost};
use crate::text::{child_id, child_id_string, owned, str_eq};

verus! {

// MARK: SidebarMenuItem

/// A menu item of a [`SidebarMenu`]; an item with children is a submenu.
pub struct SidebarMenuItem<H: SidebarHost> {
    icon: Option<Icon>,
    label: String,
    subtitle: Option<String>,
    handler: Option<H::ClickHandler>,
    active: bool,
    default_open: bool,
    click_to_open: bool,
    collapsed: bool,
    children: Vec<SidebarMenuItem<H>>,
    suffix: Option<H::Suffix>,
    disabled: bool,
    context_menu: Option<H::ContextMenu>,
    parent_focused: bool,
    parent_focusable: bool,
}

/// What a [`SidebarMenuItem`] holds. A `None` click handler does nothing.
pub struct SidebarMenuItemModel<H: SidebarHost> {
    pub icon: Option<IconModel>,
    pub label: Seq<char>,
    pub subtitle: Option<Seq<char>>,
    pub handler: Option<H::ClickHandler>,
    pub active: bool,
    pub default_open: bool,
    pub click_to_open: bool,
    pub collapsed: bool,
    pub children: Seq<SidebarMenuItem<H>>,
    pub suffix: Option<H::Suffix>,
    pub disabled: bool,
    pub context_menu: Option<H::ContextMenu>,
    pub parent_focused: bool,
    pub parent_focusable: bool,
}

impl<H: SidebarHost> View for SidebarMenuItem<H> {
    type V = SidebarMenuItemModel<H>;

    closed spec fn view(&self) -> SidebarMenuItemModel<H> {
        SidebarMenuItemModel {
            icon: icon_opt(self.icon),
            label: self.label@,
            subtitle: self.subtitle.deep_view(),
            handler: self.handler,
            active: self.active,
            default_open: self.default_open,
            click_to_open: self.click_to_open,
            collapsed: self.collapsed,
            children: self.children@,
            suffix: self.suffix,
            disabled: self.disabled,
            context_menu: self.context_menu,
            parent_focused: self.parent_focused,
            parent_focusable: self.parent_focusable,
        }
    }
}

/// How an item renders, given its submenu open state.
#[derive(Clone, Copy, Debug, PartialEq, Eq, Structural)]
pub struct MenuItemRender {
    /// The item has children.
    pub is_submenu: bool,
    /// The submenu's children are shown.
    pub is_open: bool,
    /// The item highlights under the pointer.
    pub is_hoverable: bool,
    /// The item draws the keyboard focus ring.
    pub is_keyboard_focused: bool,
    /// A press on the item keeps the parent menu from taking focus.
    pub suppress_parent_focus: bool,
    /// The item reacts to clicks.
    pub clickable: bool,
    /// The label, subtitle, suffix and caret are shown (not collapsed).
    pub show_text: bool,
}

/// How an item with model `m` renders when its submenu open state is
/// `open_state` (`None` for an item that is not a submenu).
pub open spec fn render_spec<H: SidebarHost>(m: SidebarMenuItemModel<H>, open_state: Option<bool>) -> MenuItemRender {
    MenuItemRender {
        is_submenu: m.children.len() > 0,
        is_open: match open_state {
            Some(s) => !m.collapsed && s,
            None => false,
        },
        is_hoverable: !m.active && !m.disabled,
        is_keyboard_focused: m.parent_focused && m.active,
        suppress_parent_focus: m.parent_focusable && !m.disabled,
        clickable: !m.disabled,
        show_text: !m.collapsed,
    }
}

/// Only the active item of a focused menu draws the keyboard focus ring:
/// an item that draws it is active and its menu is focused, and the active
/// item of a focused menu draws it, whatever its submenu state.
pub proof fn lemma_focus_ring_only_on_the_active_item<H: SidebarHost>(
    m: SidebarMenuItemModel<H>,
    open_state: Option<bool>,
)
    ensures
        render_spec(m, open_state).is_keyboard_focused ==> m.active,
        render_spec(m, open_state).is_keyboard_focused ==> m.parent_focused,
        m.active && m.parent_focused ==> render_spec(m, open_state).is_keyboard_focused,
{
}

impl<H: SidebarHost> SidebarMenuItem<H> {
    /// Create a new item with a label: no icon, subtitle, children, suffix
    /// or context menu, a click does nothing, inactive, enabled, expanded,
    /// with its submenu closed at first and opened only by its caret.
    pub fn new(label: &str) -> (r: Self)
        ensures
            r@ == (SidebarMenuItemModel::<H> {
                icon: None,
                label: label@,
                subtitle: None,
                handler: None,
                active: false,
                default_open: false,
                click_to_open: false,
                collapsed: false,
                children: seq![],
                suffix: None,
                disabled: false,
                context_menu: None,
                parent_focused: false,
                parent_focusable: false,
            }),
    {
        let r = SidebarMenuItem {
            icon: None,
            label: owned(label),
            subtitle: None,
            handler: None,
            active: false,
            default_open: false,
            click_to_open: false,
            collapsed: false,
            children: Vec::new(),
            suffix: None,
            disabled: false,
            context_menu: None,
            parent_focused: false,
            parent_focusable: false,
        };
        assert(r@.children =~= Seq::<SidebarMenuItem<H>>::empty());
        r
    }

    /// Set a subtitle line below the label.
    pub fn subtitle(self, subtitle: &str) -> (r: Self)
        ensures
            r@ == (SidebarMenuItemModel { subtitle: Some(subtitle@), ..self@ }),
    {
        SidebarMenuItem { subtitle: Some(owned(subtitle)), ..self }
    }

    /// Set the icon for the menu item.
    pub fn icon(self, icon: Icon) -> (r: Self)
        ensures
            r@ == (SidebarMenuItemModel { icon: Some(icon@), ..self@ }),
    {
        SidebarMenuItem { icon: Some(icon), ..self }
    }

    /// Set the active state of the menu item.
    pub fn active(self, active: bool) -> (r: Self)
        ensures
            r@ == (SidebarMenuItemModel { active, ..self@ }),
    {
        SidebarMenuItem { active, ..self }
    }

    /// Set what a click on the item does.
    pub fn on_click(self, handler: H::ClickHandler) -> (r: Self)
        ensures
            r@ == (SidebarMenuItemModel { handler: Some(handler), ..self@ }),
    {
        SidebarMenuItem { handler: Some(handler), ..self }
    }

    /// Set whether the submenu starts open, default is `false`. Only the
    /// first render uses it; the submenu's own state is used afterwards.
    pub fn default_open(self, open: bool) -> (r: Self)
        ensures
            r@ == (SidebarMenuItemModel { default_open: open, ..self@ }),
    {
        SidebarMenuItem { default_open: open, ..self }
    }

    /// Set whether clicking the item opens its submenu, default is `false`
    /// (only the caret opens and closes it).
    pub fn click_to_open(self, click_to_open: bool) -> (r: Self)
        ensures
            r@ == (SidebarMenuItemModel { click_to_open, ..self@ }),
    {
        SidebarMenuItem { click_to_open, ..self }
    }

    /// Replace the item's children.
    pub fn children(self, children: Vec<SidebarMenuItem<H>>) -> (r: Self)
        ensures
            r@ == (SidebarMenuItemModel { children: children@, ..self@ }),
    {
        SidebarMenuItem { children, ..self }
    }

    /// Set the suffix for the menu item.
    pub fn suffix(self, builder: H::Suffix) -> (r: Self)
        ensures
            r@ == (SidebarMenuItemModel { suffix: Some(builder), ..self@ }),
    {
        SidebarMenuItem { suffix: Some(builder), ..self }
    }

    /// Set the disabled state of the menu item.
    pub fn disable(self, disable: bool) -> (r: Self)
        ensures
            r@ == (SidebarMenuItemModel { disabled: disable, ..self@ }),
    {
        SidebarMenuItem { disabled: disable, ..self }
    }

    /// Whether the item has children.
    pub fn is_submenu(&self) -> (r: bool)
        ensures
            r == (self@.children.len() > 0),
    {
        self.children.len() > 0
    }

    /// Set the context menu for the menu item.
    pub fn context_menu(self, f: H::ContextMenu) -> (r: Self)
        ensures
            r@ == (SidebarMenuItemModel { context_menu: Some(f), ..self@ }),
    {
        SidebarMenuItem { context_menu: Some(f), ..self }
    }

    /// Marks the item as belonging to a menu whose focus handle is focused.
    pub fn with_parent_focused(self, parent_focused: bool) -> (r: Self)
        ensures
            r@ == (SidebarMenuItemModel { parent_focused, ..self@ }),
    {
        SidebarMenuItem { parent_focused, ..self }
    }

    /// Marks the item as belonging to a menu with a focus handle.
    pub fn with_parent_focusable(self, parent_focusable: bool) -> (r: Self)
        ensures
            r@ == (SidebarMenuItemModel { parent_focusable, ..self@ }),
    {
        SidebarMenuItem { parent_focusable, ..self }
    }

    /// The label.
    pub fn label(&self) -> (r: &String)
        ensures
            r@ == self@.label,
    {
        &self.label
    }

    /// The open state a submenu starts with: its default; `None` for an
    /// item without children.
    pub fn initial_open_state(&self) -> (r: Option<bool>)
        ensures
            r == if self@.children.len() > 0 {
                Some(self@.default_open)
            } else {
                None::<bool>
            },
    {
        if self.is_submenu() {
            Some(self.default_open)
        } else {
            None
        }
    }

    /// How the item renders given its submenu open state (see
    /// [`render_spec`]).
    pub fn render_state(&self, open_state: Option<bool>) -> (r: MenuItemRender)
        ensures
            r == render_spec(self@, open_state),
            r.is_keyboard_focused == (self@.parent_focused && self@.active),
    {
        MenuItemRender {
            is_submenu: self.is_submenu(),
            is_open: match open_state {
                Some(s) => !self.collapsed && s,
                None => false,
            },
            is_hoverable: !self.active && !self.disabled,
            is_keyboard_focused: self.parent_focused && self.active,
            suppress_parent_focus: self.parent_focusable && !self.disabled,
            clickable: !self.disabled,
            show_text: !self.collapsed,
        }
    }

    /// A click on the item. A disabled item does not react (`None`).
    /// Otherwise the submenu opens when clicking opens it, and the click
    /// handler runs: the result is the new open state and the handler.
    pub fn click(&self, open_state: Option<bool>) -> (r: Option<(Option<bool>, Option<&H::ClickHandler>)>)
        ensures
            self@.disabled <==> r is None,
            r matches Some((s, h)) ==> {
                &&& s == (if self@.click_to_open && open_state is Some {
                    Some(true)
                } else {
                    open_state
                })
                &&& match h {
                    Some(h) => self@.handler == Some(*h),
                    None => self@.handler is None,
                }
            },
    {
        if self.disabled {
            return None;
        }
        let state = if self.click_to_open && open_state.is_some() {
            Some(true)
        } else {
            open_state
        };
        Some((state, self.handler.as_ref()))
    }

    /// A click on the submenu caret flips the open state (and does not
    /// reach the item's own click handler).
    pub fn caret_click(open: bool) -> (r: bool)
        ensures
            r == !open,
    {
        !open
    }

    /// The item's children as its open submenu renders them, the `ix`-th
    /// with id `"{id}-{ix}"`.
    pub fn child_entries(self, id: &str) -> (r: Vec<(String, SidebarMenuItem<H>)>)
        ensures
            r@.len() == self@.children.len(),
            forall|ix: int|
                0 <= ix < r@.len() ==> {
                    &&& (#[trigger] r@[ix]).0@ == child_id(id@, ix as nat)
                    &&& r@[ix].1 == self@.children[ix]
                },
    {
        let ghost kids = self@.children;
        let n = self.children.len();
        let mut out: Vec<(String, SidebarMenuItem<H>)> = Vec::new();
        let mut ix: usize = 0;
        for child in it: self.children
            invariant
                it.seq() == kids,
                n == kids.len(),
                ix == it.index(),
                out@.len() == ix,
                forall|j: int|
                    0 <= j < ix ==> {
                        &&& (#[trigger] out@[j]).0@ == child_id(id@, j as nat)
                        &&& out@[j].1 == kids[j]
                    },
        {
            out.push((child_id_string(id, ix), child));
            ix = ix + 1;
        }
        out
    }
}

impl<H: SidebarHost> Collapsible for SidebarMenuItem<H> {
    open spec fn spec_collapsed(&self) -> bool {
        self@.collapsed
    }

    closed spec fn spec_collapse(self, collapsed: bool) -> Self {
        SidebarMenuItem { collapsed, ..self }
    }

    fn is_collapsed(&self) -> (r: bool) {
        self.collapsed
    }

    fn collapsed(self, collapsed: bool) -> (r: Self)
        ensures
            r@ == (SidebarMenuItemModel { collapsed, ..self@ }),
    {
        SidebarMenuItem { collapsed, ..self }
    }
}

impl<H: SidebarHost> SidebarMenuItem<H> {
    /// An item collapsed (or expanded) by [`Collapsible::collapsed`] differs
    /// from it in the flag alone.
    pub proof fn lemma_collapse_keeps_the_rest(self, collapsed: bool)
        ensures
            self.spec_collapse(collapsed)@ == (SidebarMenuItemModel { collapsed, ..self@ }),
    {
    }

    /// The item, collapsed or expanded; everything else unchanged.
    pub fn set_collapsed(self, collapsed: bool) -> (r: Self)
        ensures
            r@ == (SidebarMenuItemModel { collapsed, ..self@ }),
    {
        SidebarMenuItem { collapsed, ..self }
    }
}

// MARK: SidebarMenu

/// The keys a focused menu handles.
#[derive(Clone, Copy, Debug, PartialEq, Eq, Structural)]
pub enum MenuKey {
    SelectPrev,
    SelectNext,
    SelectFirst,
    SelectLast,
    Confirm,
}

/// What a key does in a focused menu: Up selects the previous item, Down the
/// next, Home the first, End the last, and Enter or Space confirms.
pub open spec fn menu_key_spec(key: Seq<char>) -> Option<MenuKey> {
    if key == "up"@ {
        Some(MenuKey::SelectPrev)
    } else if key == "down"@ {
        Some(MenuKey::SelectNext)
    } else if key == "home"@ {
        Some(MenuKey::SelectFirst)
    } else if key == "end"@ {
        Some(MenuKey::SelectLast)
    } else if key == "enter"@ || key == "space"@ {
        Some(MenuKey::Confirm)
    } else {
        None
    }
}

/// What a key does in a focused menu (see [`menu_key_spec`]).
pub fn menu_key(key: &str) -> (r: Option<MenuKey>)
    ensures
        r == menu_key_spec(key@),
{
    if str_eq(key, "up") {
        Some(MenuKey::SelectPrev)
    } else if str_eq(key, "down") {
        Some(MenuKey::SelectNext)
    } else if str_eq(key, "home") {
        Some(MenuKey::SelectFirst)
    } else if str_eq(key, "end") {
        Some(MenuKey::SelectLast)
    } else if str_eq(key, "enter") || str_eq(key, "space") {
        Some(MenuKey::Confirm)
    } else {
        None
    }
}

/// A menu for a sidebar.
pub struct SidebarMenu<H: SidebarHost> {
    collapsed: bool,
    items: Vec<SidebarMenuItem<H>>,
    focus_handle: Option<H::FocusHandle>,
    on_select_prev: Option<H::KeyHandler>,
    on_select_next: Option<H::KeyHandler>,
    on_select_first: Option<H::KeyHandler>,
    on_select_last: Option<H::KeyHandler>,
    on_confirm: Option<H::KeyHandler>,
}

/// What a [`SidebarMenu`] holds.
pub struct SidebarMenuModel<H: SidebarHost> {
    pub collapsed: bool,
    pub items: Seq<SidebarMenuItem<H>>,
    pub focus_handle: Option<H::FocusHandle>,
    pub on_select_prev: Option<H::KeyHandler>,
    pub on_select_next: Option<H::KeyHandler>,
    pub on_select_first: Option<H::KeyHandler>,
    pub on_select_last: Option<H::KeyHandler>,
    pub on_confirm: Option<H::KeyHandler>,
}

impl<H: SidebarHost> View for SidebarMenu<H> {
    type V = SidebarMenuModel<H>;

    closed spec fn view(&self) -> SidebarMenuModel<H> {
        SidebarMenuModel {
            collapsed: self.collapsed,
            items: self.items@,
            focus_handle: self.focus_handle,
            on_select_prev: self.on_select_prev,
            on_select_next: self.on_select_next,
            on_select_first: self.on_select_first,
            on_select_last: self.on_select_last,
            on_confirm: self.on_confirm,
        }
    }
}

/// The handler a menu key runs, if the menu has one for it.
pub open spec fn key_handler_spec<H: SidebarHost>(m: SidebarMenuModel<H>, k: MenuKey) -> Option<
    H::KeyHandler,
> {
    match k {
        MenuKey::SelectPrev => m.on_select_prev,
        MenuKey::SelectNext => m.on_select_next,
        MenuKey::SelectFirst => m.on_select_first,
        MenuKey::SelectLast => m.on_select_last,
        MenuKey::Confirm => m.on_confirm,
    }
}

/// How a menu hands an item down: collapsed like the menu, told whether the
/// menu is focused and whether it can be.
pub open spec fn arranged_item<H: SidebarHost>(
    item: SidebarMenuItemModel<H>,
    collapsed: bool,
    parent_focused: bool,
    parent_focusable: bool,
) -> SidebarMenuItemModel<H> {
    SidebarMenuItemModel { collapsed, parent_focused, parent_focusable, ..item }
}

impl<H: SidebarHost> SidebarMenu<H> {
    /// Create a new, empty, expanded menu without a focus handle or key
    /// handlers.
    pub fn new() -> (r: Self)
        ensures
            r@ == (SidebarMenuModel::<H> {
                collapsed: false,
                items: seq![],
                focus_handle: None,
                on_select_prev: None,
                on_select_next: None,
                on_select_first: None,
                on_select_last: None,
                on_confirm: None,
            }),
    {
        let r = SidebarMenu {
            collapsed: false,
            items: Vec::new(),
            focus_handle: None,
            on_select_prev: None,
            on_select_next: None,
            on_select_first: None,
            on_select_last: None,
            on_confirm: None,
        };
        assert(r@.items =~= Seq::<SidebarMenuItem<H>>::empty());
        r
    }

    /// Add a menu item.
    pub fn child(self, child: SidebarMenuItem<H>) -> (r: Self)
        ensures
            r@ == (SidebarMenuModel { items: self@.items.push(child), ..self@ }),
    {
        let mut items = self.items;
        items.push(child);
        SidebarMenu { items, ..self }
    }

    /// Add multiple menu items, after the ones the menu has.
    pub fn children(self, children: Vec<SidebarMenuItem<H>>) -> (r: Self)
        ensures
            r@ == (SidebarMenuModel { items: self@.items + children@, ..self@ }),
    {
        let mut items = self.items;
        let mut more = children;
        items.append(&mut more);
        SidebarMenu { items, ..self }
    }

    /// Make the menu focusable with the given focus handle; while focused,
    /// its keys go to the `on_select_*` / `on_confirm` handlers.
    pub fn track_focus(self, focus_handle: H::FocusHandle) -> (r: Self)
        ensures
            r@ == (SidebarMenuModel { focus_handle: Some(focus_handle), ..self@ }),
    {
        SidebarMenu { focus_handle: Some(focus_handle), ..self }
    }

    /// Run when Up is pressed while the menu is focused.
    pub fn on_select_prev(self, handler: H::KeyHandler) -> (r: Self)
        ensures
            r@ == (SidebarMenuModel { on_select_prev: Some(handler), ..self@ }),
    {
        SidebarMenu { on_select_prev: Some(handler), ..self }
    }

    /// Run when Down is pressed while the menu is focused.
    pub fn on_select_next(self, handler: H::KeyHandler) -> (r: Self)
        ensures
            r@ == (SidebarMenuModel { on_select_next: Some(handler), ..self@ }),
    {
        SidebarMenu { on_select_next: Some(handler), ..self }
    }

    /// Run when Home is pressed while the menu is focused.
    pub fn on_select_first(self, handler: H::KeyHandler) -> (r: Self)
        ensures
            r@ == (SidebarMenuModel { on_select_first: Some(handler), ..self@ }),
    {
        SidebarMenu { on_select_first: Some(handler), ..self }
    }

    /// Run when End is pressed while the menu is focused.
    pub fn on_select_last(self, handler: H::KeyHandler) -> (r: Self)
        ensures
            r@ == (SidebarMenuModel { on_select_last: Some(handler), ..self@ }),
    {
        SidebarMenu { on_select_last: Some(handler), ..self }
    }

    /// Run when Enter or Space is pressed while the menu is focused.
    pub fn on_confirm(self, handler: H::KeyHandler) -> (r: Self)
        ensures
            r@ == (SidebarMenuModel { on_confirm: Some(handler), ..self@ }),
    {
        SidebarMenu { on_confirm: Some(handler), ..self }
    }

    /// Whether the menu listens for keys at all: it has some key handler.
    pub fn has_key_handlers(&self) -> (r: bool)
        ensures
            r == (self@.on_select_prev is Some || self@.on_select_next is Some
                || self@.on_select_first is Some || self@.on_select_last is Some
                || self@.on_confirm is Some),
    {
        self.on_select_prev.is_some() || self.on_select_next.is_some()
            || self.on_select_first.is_some() || self.on_select_last.is_some()
            || self.on_confirm.is_some()
    }

    /// The handler a key press runs in the focused menu; when there is one,
    /// the key stops there.
    pub fn key_handler(&self, key: &str) -> (r: Option<&H::KeyHandler>)
        ensures
            match menu_key_spec(key@) {
                Some(k) => match r {
                    Some(h) => key_handler_spec(self@, k) == Some(*h),
                    None => key_handler_spec(self@, k) is None,
                },
                None => r is None,
            },
    {
        match menu_key(key) {
            Some(MenuKey::SelectPrev) => self.on_select_prev.as_ref(),
            Some(MenuKey::SelectNext) => self.on_select_next.as_ref(),
            Some(MenuKey::SelectFirst) => self.on_select_first.as_ref(),
            Some(MenuKey::SelectLast) => self.on_select_last.as_ref(),
            Some(MenuKey::Confirm) => self.on_confirm.as_ref(),
            None => None,
        }
    }

    /// The focus handle, if the menu has one.
    pub fn focus_handle(&self) -> (r: Option<&H::FocusHandle>)
        ensures
            match r {
                Some(f) => self@.focus_handle == Some(*f),
                None => self@.focus_handle is None,
            },
    {
        self.focus_handle.as_ref()
    }

    /// The items as the menu renders them under id `id`, given whether its
    /// focus handle is focused: the `ix`-th with id `"{id}-{ix}"`, collapsed
    /// like the menu, focused-parent when the menu has a focused handle, and
    /// focusable-parent when it has a handle.
    pub fn arrange(self, id: &str, handle_focused: bool) -> (r: Vec<(String, SidebarMenuItem<H>)>)
        ensures
            r@.len() == self@.items.len(),
            forall|ix: int|
                0 <= ix < r@.len() ==> {
                    &&& (#[trigger] r@[ix]).0@ == child_id(id@, ix as nat)
                    &&& r@[ix].1@ == arranged_item(
                        self@.items[ix]@,
                        self@.collapsed,
                        self@.focus_handle is Some && handle_focused,
                        self@.focus_handle is Some,
                    )
                },
    {
        let collapsed = self.collapsed;
        let focusable = self.focus_handle.is_some();
        let parent_focused = focusable && handle_focused;
        let ghost items = self@.items;
        let n = self.items.len();
        let mut out: Vec<(String, SidebarMenuItem<H>)> = Vec::new();
        let mut ix: usize = 0;
        for item in it: self.items
            invariant
                it.seq() == items,
                n == items.len(),
                ix == it.index(),
                out@.len() == ix,
                forall|j: int|
                    0 <= j < ix ==> {
                        &&& (#[trigger] out@[j]).0@ == child_id(id@, j as nat)
                        &&& out@[j].1@ == arranged_item(
                            items[j]@,
                            collapsed,
                            parent_focused,
                            focusable,
                        )
                    },
        {
            let arranged = item.set_collapsed(collapsed).with_parent_focused(
                parent_focused,
            ).with_parent_focusable(focusable);
            out.push((child_id_string(id, ix), arranged));
            ix = ix + 1;
        }
        out
    }
}

impl<H: SidebarHost> Collapsible for SidebarMenu<H> {
    open spec fn spec_collapsed(&self) -> bool {
        self@.collapsed
    }

    closed spec fn spec_collapse(self, collapsed: bool) -> Self {
        SidebarMenu { collapsed, ..self }
    }

    fn is_collapsed(&self) -> (r: bool) {
        self.collapsed
    }

    fn collapsed(self, collapsed: bool) -> (r: Self)
        ensures
            r@ == (SidebarMenuModel { collapsed, ..self@ }),
    {
        SidebarMenu { collapsed, ..self }
    }
}

impl<H: SidebarHost> SidebarMenu<H> {
    /// A menu collapsed (or expanded) by [`Collapsible::collapsed`] differs
    /// from it in the flag alone.
    pub proof fn lemma_collapse_keeps_the_rest(self, collapsed: bool)
        ensures
            self.spec_collapse(collapsed)@ == (SidebarMenuModel { collapsed, ..self@ }),
    {
    }
}

} // verus!
