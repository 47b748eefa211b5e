//! The select control: its state machine (the list cursor, the committed
//! selection and the open menu), the caret on its trigger, and the `Select`
//! element's options.
//!
//! The list cursor is what the open menu highlights and what the trigger
//! displays; the committed selection is what was last confirmed. Confirming
//! commits the cursor; cancelling or blurring puts the cursor back on the
//! committed item.

use vstd::prelude::*;

use crate::icon::{Icon, IconModel, IconName, icon_name_path};
use crate::layer::POPUP_PRIORITY;
use crate::searchable::{
    IndexPath, SearchableModel, SearchableVec, SectionModel, SelectionChange, apply_changes,
    cleared, item_at, position_from, selection_view, without_index,
};
use crate::size::{ElementId, ElementKey, Size};
use crate::text::owned;

verus! {

// MARK: Caret

/// The chevron on a select trigger, sized for its trigger.
pub struct Caret<C> {
    size: Size,
    color: Option<C>,
}

impl<C> Caret<C> {
    /// Create a select caret sized for its trigger, with no color of its own.
    pub fn new(size: Size) -> (r: Self)
        ensures
            r.size_spec() == size,
            r.color_spec() is None,
    {
        Caret { size, color: None }
    }

    pub closed spec fn size_spec(&self) -> Size {
        self.size
    }

    pub closed spec fn color_spec(&self) -> Option<C> {
        self.color
    }

    /// Set the caret color.
    pub fn text_color(self, color: C) -> (r: Self)
        ensures
            r.size_spec() == self.size_spec(),
            r.color_spec() == Some(color),
    {
        Caret { color: Some(color), ..self }
    }

    /// The caret's color, if one was set.
    pub fn color(&self) -> (r: Option<&C>)
        ensures
            match r {
                Some(c) => self.color_spec() == Some(*c),
                None => self.color_spec() is None,
            },
    {
        self.color.as_ref()
    }

    /// The size of the chevron icon: extra small and small triggers keep
    /// their size, anything larger gets a medium chevron.
    pub fn icon_size(&self) -> (r: Size)
        ensures
            r == caret_icon_size(self.size_spec()),
    {
        match self.size {
            Size::XSmall => Size::XSmall,
            Size::Small => Size::Small,
            _ => Size::Medium,
        }
    }

    /// The chevron icon the caret renders.
    pub fn icon(&self) -> (r: Icon)
        ensures
            r@ == (IconModel {
                path: icon_name_path(IconName::ChevronDown),
                size: Some(caret_icon_size(self.size_spec())),
            }),
    {
        Icon::new(IconName::ChevronDown).with_size(self.icon_size())
    }
}

/// The chevron size for a trigger size.
pub open spec fn caret_icon_size(size: Size) -> Size {
    match size {
        Size::XSmall => Size::XSmall,
        Size::Small => Size::Small,
        _ => Size::Medium,
    }
}

// MARK: SelectState

/// Events emitted by [`SelectState`]: the committed value after a confirm,
/// `None` when nothing is selected any more.
#[derive(Debug)]
pub enum SelectEvent {
    Confirm(Option<String>),
}

/// What a [`SelectEvent`] carries.
pub open spec fn event_value(e: SelectEvent) -> Option<Seq<char>> {
    match e {
        SelectEvent::Confirm(v) => match v {
            Some(s) => Some(s@),
            None => None,
        },
    }
}

/// What Tab does in a select's context: with the menu closed, the state is
/// untouched and the regular focus navigation runs; with it open, the menu
/// closes and the highlighted item, if any, is committed and emitted (with
/// nothing highlighted, the selection stays and nothing is emitted) before
/// focus advances.
pub open spec fn tab_outcome(
    before: SelectModel,
    after: SelectModel,
    backwards: bool,
    r: TabNavigation,
) -> bool {
    if !before.open {
        after == before && r == (TabNavigation::PassThrough { backwards })
    } else if before.cursor is None {
        after == (SelectModel { open: false, ..before })
            && r == (TabNavigation::CommitAndAdvance { event: None, backwards })
    } else {
        &&& after == (SelectModel {
            selection: seeded(before.list.matched, before.cursor),
            open: false,
            ..before
        })
        &&& r matches TabNavigation::CommitAndAdvance { event: Some(event), backwards: b }
        &&& b == backwards
        &&& event_value(event) == committed_value(after)
    }
}

/// Which element should hold keyboard focus for the select.
#[derive(Clone, Copy, Debug, PartialEq, Eq, Structural)]
pub enum FocusTarget {
    /// The trigger.
    Trigger,
    /// The open menu's list.
    List,
}

/// What the trigger shows as its title.
#[derive(Debug)]
pub enum DisplayTitle {
    /// The placeholder; `None` asks for the localized default placeholder.
    Placeholder(Option<String>),
    /// The title of the item under the cursor, with any title prefix.
    Item(String),
}

/// How Tab is handled in the select's context.
#[derive(Debug)]
pub enum TabNavigation {
    /// The menu is closed: the regular focus navigation runs.
    PassThrough { backwards: bool },
    /// The menu was open: the highlighted item, if any, was committed
    /// (emitting the event; nothing is committed or emitted when no item is
    /// highlighted), the menu closed, focus went back to the trigger, and
    /// focus then advances.
    CommitAndAdvance { event: Option<SelectEvent>, backwards: bool },
}

/// How the trigger renders: whether it shows the clear button and whether
/// that button is disabled, whether it shows its trailing icon (the
/// select's icon, or the caret) instead, whether a click opens the menu, and
/// whether its outline is visible.
#[derive(Clone, Copy, Debug, PartialEq, Eq, Structural)]
pub struct TriggerState {
    pub show_clean: bool,
    pub clean_disabled: bool,
    pub show_icon: bool,
    pub allow_open: bool,
    pub outline_visible: bool,
}

/// The dropdown popup of an open select: painted at `priority`, with a
/// search input above the list when `searchable`, its list sized `size`.
#[derive(Clone, Copy, Debug, PartialEq, Eq, Structural)]
pub struct SelectPopup {
    pub priority: usize,
    pub searchable: bool,
    pub size: Size,
}

/// State of the select component.
pub struct SelectState {
    list: SearchableVec,
    cursor: Option<IndexPath>,
    selection: Vec<(IndexPath, String)>,
    open: bool,
    searchable: bool,
    icon: Option<Icon>,
    title_prefix: Option<String>,
    focus_ring_enabled: bool,
    search_icon: Option<Icon>,
    fit_items: bool,
    placeholder: Option<String>,
    search_placeholder: Option<String>,
    cleanable: bool,
    disabled: bool,
    appearance: bool,
    size: Size,
}

/// What a [`SelectState`] holds.
pub struct SelectModel {
    pub list: SearchableModel,
    pub cursor: Option<IndexPath>,
    pub selection: Seq<(IndexPath, Seq<char>)>,
    pub open: bool,
    pub searchable: bool,
    pub icon: Option<IconModel>,
    pub title_prefix: Option<Seq<char>>,
    pub focus_ring_enabled: bool,
    pub search_icon: Option<IconModel>,
    pub fit_items: bool,
    pub placeholder: Option<Seq<char>>,
    pub search_placeholder: Option<Seq<char>>,
    pub cleanable: bool,
    pub disabled: bool,
    pub appearance: bool,
    pub size: Size,
}

pub open spec fn icon_opt(i: Option<Icon>) -> Option<IconModel> {
    match i {
        Some(i) => Some(i@),
        None => None,
    }
}

impl View for SelectState {
    type V = SelectModel;

    closed spec fn view(&self) -> SelectModel {
        SelectModel {
            list: self.list@,
            cursor: self.cursor,
            selection: selection_view(self.selection@),
            open: self.open,
            searchable: self.searchable,
            icon: icon_opt(self.icon),
            title_prefix: self.title_prefix.deep_view(),
            focus_ring_enabled: self.focus_ring_enabled,
            search_icon: icon_opt(self.search_icon),
            fit_items: self.fit_items,
            placeholder: self.placeholder.deep_view(),
            search_placeholder: self.search_placeholder.deep_view(),
            cleanable: self.cleanable,
            disabled: self.disabled,
            appearance: self.appearance,
            size: self.size,
        }
    }
}

/// The selection for a cursor: the item shown there, or nothing.
pub open spec fn seeded(shown: Seq<SectionModel>, ix: Option<IndexPath>) -> Seq<(IndexPath, Seq<char>)> {
    match ix {
        Some(i) => match item_at(shown, i) {
            Some(t) => seq![(i, t)],
            None => seq![],
        },
        None => seq![],
    }
}

/// The position of the committed item, if any.
pub open spec fn committed_index(s: SelectModel) -> Option<IndexPath> {
    if s.selection.len() > 0 {
        Some(s.selection[0].0)
    } else {
        None
    }
}

/// The committed value, if any.
pub open spec fn committed_value(s: SelectModel) -> Option<Seq<char>> {
    if s.selection.len() > 0 {
        Some(s.selection[0].1)
    } else {
        None
    }
}

/// The changes a confirm asks for: drop every committed entry, then select
/// the confirmed position.
pub open spec fn confirm_changes(
    committed: Seq<(IndexPath, Seq<char>)>,
    selected: Option<IndexPath>,
) -> Seq<SelectionChange> {
    let deselect = committed.map_values(
        |e: (IndexPath, Seq<char>)| SelectionChange::Deselect { index: e.0 },
    );
    match selected {
        Some(ix) => deselect.push(SelectionChange::Select { index: ix }),
        None => deselect,
    }
}

/// An item's title as the trigger shows it: after the title prefix, if any.
pub open spec fn item_title_spec(prefix: Option<Seq<char>>, title: Seq<char>) -> Seq<char> {
    match prefix {
        Some(p) => p + title,
        None => title,
    }
}

/// What the trigger shows: the title of the item under the cursor, or the
/// placeholder when there is no cursor or no item under it.
pub open spec fn display_title_spec(s: SelectModel) -> (bool, Option<Seq<char>>) {
    match s.cursor {
        Some(ix) => match item_at(s.list.matched, ix) {
            Some(t) => (true, Some(item_title_spec(s.title_prefix, t))),
            None => (false, s.placeholder),
        },
        None => (false, s.placeholder),
    }
}

/// The trigger shows the item under the cursor, whatever is committed: the
/// shown title does not change with the committed selection; with no cursor
/// it is the placeholder; with the cursor on a shown item it is that item's
/// title after any title prefix.
pub proof fn lemma_trigger_shows_the_cursor_item(
    s: SelectModel,
    other_selection: Seq<(IndexPath, Seq<char>)>,
)
    ensures
        display_title_spec(SelectModel { selection: other_selection, ..s }) == display_title_spec(
            s,
        ),
        s.cursor is None ==> display_title_spec(s) == (false, s.placeholder),
        forall|ix: IndexPath|
            #![trigger s.list.matched[ix.section as int].items[ix.row as int]]
            s.cursor == Some(ix) && ix.section < s.list.matched.len() && ix.row
                < s.list.matched[ix.section as int].items.len() ==> display_title_spec(s) == (
                true,
                Some(
                    match s.title_prefix {
                        Some(p) => p + s.list.matched[ix.section as int].items[ix.row as int],
                        None => s.list.matched[ix.section as int].items[ix.row as int],
                    },
                ),
            ),
{
}

/// Every shown item's title, section by section, with any title prefix.
pub open spec fn all_titles(shown: Seq<SectionModel>, prefix: Option<Seq<char>>) -> Seq<Seq<char>>
    decreases shown.len(),
{
    if shown.len() == 0 {
        seq![]
    } else {
        let n = shown.len() - 1;
        all_titles(shown.take(n), prefix) + shown[n].items.map_values(
            |t: Seq<char>| item_title_spec(prefix, t),
        )
    }
}

/// Selecting a value that some item holds commits that value, at a
/// position that holds it; selecting a value that no item holds commits
/// nothing.
pub proof fn lemma_selected_value_reads_back(groups: Seq<SectionModel>, value: Seq<char>)
    requires
        groups.len() <= usize::MAX,
        forall|k: int| 0 <= k < groups.len() ==> #[trigger] groups[k].items.len() <= usize::MAX,
    ensures
        (exists|k: int, j: int|
            0 <= k < groups.len() && 0 <= j < groups[k].items.len() && #[trigger] groups[k].items[j]
                == value) ==> ({
            let ix = position_from(groups, value, 0);
            &&& ix is Some
            &&& item_at(groups, ix->0) == Some(value)
            &&& seeded(groups, ix) == seq![(ix->0, value)]
        }),
        !(exists|k: int, j: int|
            0 <= k < groups.len() && 0 <= j < groups[k].items.len() && #[trigger] groups[k].items[j]
                == value) ==> seeded(groups, position_from(groups, value, 0)) == Seq::<
            (IndexPath, Seq<char>),
        >::empty(),
{
    crate::searchable::lemma_position_from(groups, value, 0);
    let ix = position_from(groups, value, 0);
    if ix is Some {
        assert(seeded(groups, ix) =~= seq![(ix->0, value)]);
    }
}

/// A confirm, as the select commits it: the confirmed item becomes the
/// only committed one.
pub proof fn lemma_confirm_commits_cursor(
    shown: Seq<SectionModel>,
    committed: Seq<(IndexPath, Seq<char>)>,
    selected: Option<IndexPath>,
)
    requires
        committed.len() <= 1,
    ensures
        apply_changes(shown, committed, confirm_changes(committed, selected)) == seeded(
            shown,
            selected,
        ),
{
    let empty = Seq::<(IndexPath, Seq<char>)>::empty();
    let none = Seq::<SelectionChange>::empty();
    let cs = confirm_changes(committed, selected);
    // what is left once the committed entries are dropped
    let start = if committed.len() == 1 {
        let d = SelectionChange::Deselect { index: committed[0].0 };
        assert(committed.take(0) =~= empty);
        assert(without_index(empty, committed[0].0) =~= empty);
        assert(without_index(committed, committed[0].0) =~= empty);
        assert(cs[0] == d);
        assert(crate::searchable::apply_change(shown, committed, d) == empty);
        assert(apply_changes(shown, committed, cs) == apply_changes(shown, empty, cs.drop_first()));
        cs.drop_first()
    } else {
        assert(committed =~= empty);
        cs
    };
    assert(apply_changes(shown, committed, cs) == apply_changes(shown, empty, start));
    match selected {
        Some(ix) => {
            let c = SelectionChange::Select { index: ix };
            assert(start =~= seq![c]);
            assert(start.drop_first() =~= none);
            assert(apply_changes(shown, empty, start) == apply_changes(
                shown,
                crate::searchable::apply_change(shown, empty, c),
                none,
            ));
            match item_at(shown, ix) {
                Some(t) => {
                    assert(empty.push((ix, t)) =~= seq![(ix, t)]);
                },
                None => {},
            }
        },
        None => {
            assert(start =~= none);
        },
    }
}

impl SelectState {
    #[verifier::type_invariant]
    closed spec fn inv(&self) -> bool {
        self.selection@.len() <= 1
    }

    /// Create a select state over `list`, with the cursor on
    /// `selected_index` and the item shown there (if any) committed. The
    /// menu is closed, not searchable, with no icons, title prefix or
    /// placeholder, a focus ring, an enabled bordered medium trigger.
    pub fn new(list: SearchableVec, selected_index: Option<IndexPath>) -> (r: Self)
        ensures
            r@ == (SelectModel {
                list: list@,
                cursor: selected_index,
                selection: seeded(list@.matched, selected_index),
                open: false,
                searchable: false,
                icon: None,
                title_prefix: None,
                focus_ring_enabled: true,
                search_icon: None,
                fit_items: false,
                placeholder: None,
                search_placeholder: None,
                cleanable: false,
                disabled: false,
                appearance: true,
                size: Size::Medium,
            }),
    {
        let selection = seed(&list, selected_index);
        SelectState {
            list,
            cursor: selected_index,
            selection,
            open: false,
            searchable: false,
            icon: None,
            title_prefix: None,
            focus_ring_enabled: true,
            search_icon: None,
            fit_items: false,
            placeholder: None,
            search_placeholder: None,
            cleanable: false,
            disabled: false,
            appearance: true,
            size: Size::default(),
        }
    }

    /// Sets whether the dropdown menu is searchable, default is `false`.
    pub fn searchable(self, searchable: bool) -> (r: Self)
        ensures
            r@ == (SelectModel { searchable, ..self@ }),
    {
        proof {
            use_type_invariant(&self);
        }
        SelectState { searchable, ..self }
    }

    /// Put the cursor on `selected_index` and commit the item shown there
    /// (nothing when no item is shown there).
    pub fn set_selected_index(&mut self, selected_index: Option<IndexPath>)
        ensures
            final(self)@ == (SelectModel {
                cursor: selected_index,
                selection: seeded(old(self)@.list.matched, selected_index),
                ..old(self)@
            }),
    {
        proof {
            use_type_invariant(&*self);
        }
        let selection = seed(&self.list, selected_index);
        self.cursor = selected_index;
        self.selection = selection;
    }

    /// Move the cursor (the item the open menu highlights and the trigger
    /// shows) to `ix` without committing anything.
    pub fn set_cursor(&mut self, ix: Option<IndexPath>)
        ensures
            final(self)@ == (SelectModel { cursor: ix, ..old(self)@ }),
    {
        proof {
            use_type_invariant(&*self);
        }
        self.cursor = ix;
    }

    /// Select the first item holding `selected_value`, in the full item
    /// list: any search query is cleared first. Nothing is selected when no
    /// item holds the value.
    pub fn set_selected_value(&mut self, selected_value: &str)
        ensures
            final(self)@ == (SelectModel {
                list: cleared(old(self)@.list),
                cursor: position_from(old(self)@.list.groups, selected_value@, 0),
                selection: seeded(
                    old(self)@.list.groups,
                    position_from(old(self)@.list.groups, selected_value@, 0),
                ),
                ..old(self)@
            }),
    {
        proof {
            use_type_invariant(&*self);
        }
        self.list = self.list.without_query();
        let ix = self.list.position(selected_value);
        self.set_selected_index(ix);
    }

    /// Replace the items. The cursor and the committed selection are kept.
    pub fn set_items(&mut self, items: SearchableVec)
        ensures
            final(self)@ == (SelectModel { list: items@, ..old(self)@ }),
    {
        proof {
            use_type_invariant(&*self);
        }
        self.list = items;
    }

    /// Narrow the menu to the items that match `query`.
    pub fn set_query(&mut self, query: &str)
        ensures
            final(self)@ == (SelectModel {
                list: SearchableModel {
                    query: query@,
                    matched: crate::searchable::search_sections(
                        old(self)@.list.groups,
                        old(self)@.list.grouped,
                        query@,
                    ),
                    ..old(self)@.list
                },
                ..old(self)@
            }),
    {
        proof {
            use_type_invariant(&*self);
        }
        self.list = self.list.with_query(query);
    }

    /// The items.
    pub fn list(&self) -> (r: &SearchableVec)
        ensures
            r@ == self@.list,
    {
        &self.list
    }

    /// Get the current selected index: the list cursor.
    pub fn selected_index(&self) -> (r: Option<IndexPath>)
        ensures
            r == self@.cursor,
    {
        self.cursor
    }

    /// Get the current selected value: the committed item.
    pub fn selected_value(&self) -> (r: Option<&String>)
        ensures
            match r {
                Some(s) => committed_value(self@) == Some(s@),
                None => committed_value(self@) is None,
            },
    {
        if self.selection.len() > 0 {
            Some(&self.selection[0].1)
        } else {
            None
        }
    }

    /// Whether the menu is open.
    pub fn is_open(&self) -> (r: bool)
        ensures
            r == self@.open,
    {
        self.open
    }

    /// Open or close the menu.
    pub fn set_open(&mut self, open: bool)
        ensures
            final(self)@ == (SelectModel { open, ..old(self)@ }),
    {
        proof {
            use_type_invariant(&*self);
        }
        self.open = open;
    }

    /// The element that holds focus for the select: the list while the
    /// menu is open, the trigger otherwise.
    pub fn focus_target(&self) -> (r: FocusTarget)
        ensures
            r == if self@.open {
                FocusTarget::List
            } else {
                FocusTarget::Trigger
            },
    {
        if self.open {
            FocusTarget::List
        } else {
            FocusTarget::Trigger
        }
    }

    /// Commit the item at `selected` (the confirmed list position): it
    /// becomes the only committed item (nothing is committed when no item is
    /// shown there), the menu closes, focus returns to the trigger, and the
    /// committed value is emitted.
    pub fn confirm(&mut self, selected: Option<IndexPath>) -> (ev: SelectEvent)
        ensures
            final(self)@ == (SelectModel {
                selection: seeded(old(self)@.list.matched, selected),
                open: false,
                ..old(self)@
            }),
            event_value(ev) == committed_value(final(self)@),
    {
        proof {
            use_type_invariant(&*self);
        }
        let changes = self.confirm_changes(selected);
        let mut selection = copy_selection(&self.selection);
        self.list.on_will_change(&mut selection, &changes);
        proof {
            lemma_confirm_commits_cursor(self@.list.matched, self@.selection, selected);
            assert(selection_view(selection@).len() == selection@.len());
        }
        self.finish_confirm(selection)
    }

    /// The changes a confirm of `selected` asks for.
    fn confirm_changes(&self, selected: Option<IndexPath>) -> (r: Vec<SelectionChange>)
        ensures
            r@ == confirm_changes(self@.selection, selected),
    {
        let mut changes: Vec<SelectionChange> = Vec::new();
        for i in 0..self.selection.len()
            invariant
                changes@.len() == i,
                forall|j: int|
                    0 <= j < i ==> changes@[j] == (SelectionChange::Deselect {
                        index: self.selection@[j].0,
                    }),
        {
            changes.push(SelectionChange::Deselect { index: self.selection[i].0 });
        }
        if let Some(ix) = selected {
            changes.push(SelectionChange::Select { index: ix });
        }
        assert(changes@ =~= confirm_changes(self@.selection, selected));
        changes
    }

    /// Commit a selection, close the menu and emit the committed value.
    fn finish_confirm(&mut self, selection: Vec<(IndexPath, String)>) -> (ev: SelectEvent)
        requires
            selection@.len() <= 1,
        ensures
            final(self)@ == (SelectModel {
                selection: selection_view(selection@),
                open: false,
                ..old(self)@
            }),
            event_value(ev) == committed_value(final(self)@),
    {
        proof {
            use_type_invariant(&*self);
        }
        self.selection = selection;
        self.open = false;
        let value = if self.selection.len() > 0 {
            Some(self.selection[0].1.clone())
        } else {
            None
        };
        SelectEvent::Confirm(value)
    }

    /// Cancel the open menu: the cursor goes back to the committed item and
    /// the menu closes (focus returns to the trigger).
    pub fn cancel(&mut self)
        ensures
            final(self)@ == (SelectModel {
                cursor: committed_index(old(self)@),
                open: false,
                ..old(self)@
            }),
    {
        proof {
            use_type_invariant(&*self);
        }
        self.cursor = self.committed_ix();
        self.open = false;
    }

    fn committed_ix(&self) -> (r: Option<IndexPath>)
        ensures
            r == committed_index(self@),
    {
        if self.selection.len() > 0 {
            Some(self.selection[0].0)
        } else {
            None
        }
    }

    /// Focus left the select. Unless it moved to the list or stayed on the
    /// trigger, the cursor goes back to the committed item and the menu
    /// closes. Returns whether it did.
    pub fn on_blur(&mut self, list_focused: bool, trigger_focused: bool) -> (acted: bool)
        ensures
            acted == !(list_focused || trigger_focused),
            acted ==> final(self)@ == (SelectModel {
                cursor: committed_index(old(self)@),
                open: false,
                ..old(self)@
            }),
            !acted ==> final(self)@ == old(self)@,
    {
        proof {
            use_type_invariant(&*self);
        }
        if list_focused || trigger_focused {
            return false;
        }
        let committed = self.committed_ix();
        if self.cursor != committed {
            self.cursor = committed;
        }
        self.open = false;
        true
    }

    /// A click on the trigger toggles the menu. Returns whether the menu is
    /// now open, in which case focus moves to its list.
    pub fn toggle_menu(&mut self) -> (open: bool)
        ensures
            final(self)@ == (SelectModel { open: !old(self)@.open, ..old(self)@ }),
            open == final(self)@.open,
    {
        proof {
            use_type_invariant(&*self);
        }
        self.open = !self.open;
        self.open
    }

    /// Escape closes the open menu and returns focus to the trigger. With the
    /// menu closed, Escape is not handled here and propagates. Returns
    /// whether it was handled.
    pub fn escape(&mut self) -> (handled: bool)
        ensures
            handled == old(self)@.open,
            final(self)@ == (SelectModel { open: false, ..old(self)@ }),
    {
        proof {
            use_type_invariant(&*self);
        }
        if !self.open {
            return false;
        }
        self.open = false;
        true
    }

    /// Tab (or Shift-Tab) in the select's context (see [`tab_outcome`]).
    /// With the menu open, the highlighted item, if any, is committed, the
    /// menu closes and focus goes back to the trigger before focus advances;
    /// with the menu closed, the regular focus navigation runs.
    pub fn tab_navigate(&mut self, backwards: bool) -> (r: TabNavigation)
        ensures
            tab_outcome(old(self)@, final(self)@, backwards, r),
    {
        proof {
            use_type_invariant(&*self);
        }
        if !self.open {
            return TabNavigation::PassThrough { backwards };
        }
        let cursor = self.cursor;
        if cursor.is_none() {
            self.open = false;
            return TabNavigation::CommitAndAdvance { event: None, backwards };
        }
        let event = self.confirm(cursor);
        TabNavigation::CommitAndAdvance { event: Some(event), backwards }
    }

    /// Tab in the select's context (see [`SelectState::tab_navigate`]).
    pub fn select_tab(&mut self) -> (r: TabNavigation)
        ensures
            tab_outcome(old(self)@, final(self)@, false, r),
    {
        self.tab_navigate(false)
    }

    /// Shift-Tab in the select's context (see [`SelectState::tab_navigate`]).
    pub fn select_tab_prev(&mut self) -> (r: TabNavigation)
        ensures
            tab_outcome(old(self)@, final(self)@, true, r),
    {
        self.tab_navigate(true)
    }

    /// The clear button: nothing is selected any more, and `None` is
    /// emitted.
    pub fn clean(&mut self) -> (ev: SelectEvent)
        ensures
            final(self)@ == (SelectModel { cursor: None, selection: seq![], ..old(self)@ }),
            event_value(ev) is None,
    {
        proof {
            use_type_invariant(&*self);
        }
        self.set_selected_index(None);
        SelectEvent::Confirm(None)
    }

    /// An item's title as the trigger shows it, after any title prefix.
    pub fn item_title(&self, title: &String) -> (r: String)
        ensures
            r@ == item_title_spec(self@.title_prefix, title@),
    {
        match &self.title_prefix {
            Some(prefix) => prefix.clone().concat(title.as_str()),
            None => title.clone(),
        }
    }

    /// What the trigger shows: the cursor's item title, or the placeholder.
    pub fn display_title(&self) -> (r: DisplayTitle)
        ensures
            match r {
                DisplayTitle::Item(t) => display_title_spec(self@) == (true, Some(t@)),
                DisplayTitle::Placeholder(p) => display_title_spec(self@) == (
                    false,
                    match p {
                        Some(s) => Some(s@),
                        None => None,
                    },
                ),
            },
    {
        let placeholder = match &self.placeholder {
            Some(p) => Some(p.clone()),
            None => None,
        };
        match self.cursor {
            Some(ix) => match self.list.item(ix) {
                Some(t) => DisplayTitle::Item(self.item_title(t)),
                None => DisplayTitle::Placeholder(placeholder),
            },
            None => DisplayTitle::Placeholder(placeholder),
        }
    }

    /// Every shown item's title, with any title prefix: what sizes the
    /// trigger to its widest item.
    pub fn all_item_titles(&self) -> (r: Vec<String>)
        ensures
            crate::search::strs(r@) == all_titles(self@.list.matched, self@.title_prefix),
    {
        let ghost shown = self@.list.matched;
        let sections = self.list.sections_count();
        let mut out: Vec<String> = Vec::new();
        let mut s: usize = 0;
        while s < sections
            invariant
                sections == shown.len(),
                shown == self@.list.matched,
                s <= sections,
                crate::search::strs(out@) == all_titles(shown.take(s as int), self@.title_prefix),
            decreases sections - s,
        {
            let rows = self.list.items_count(s);
            let ghost before = crate::search::strs(out@);
            let mut r: usize = 0;
            while r < rows
                invariant
                    rows == shown[s as int].items.len(),
                    sections == shown.len(),
                    shown == self@.list.matched,
                    s < sections,
                    r <= rows,
                    crate::search::strs(out@) == before + shown[s as int].items.take(
                        r as int,
                    ).map_values(|t: Seq<char>| item_title_spec(self@.title_prefix, t)),
                decreases rows - r,
            {
                let item = self.list.item(IndexPath { section: s, row: r });
                let t = self.item_title(item.unwrap());
                let ghost prev = crate::search::strs(out@);
                out.push(t);
                assert(crate::search::strs(out@) =~= prev.push(t@));
                assert(shown[s as int].items.take(r + 1) =~= shown[s as int].items.take(
                    r as int,
                ).push(shown[s as int].items[r as int]));
                assert(shown[s as int].items.take(r + 1).map_values(
                    |t: Seq<char>| item_title_spec(self@.title_prefix, t),
                ) =~= shown[s as int].items.take(r as int).map_values(
                    |t: Seq<char>| item_title_spec(self@.title_prefix, t),
                ).push(item_title_spec(self@.title_prefix, shown[s as int].items[r as int])));
                assert(crate::search::strs(out@) =~= before + shown[s as int].items.take(
                    r + 1,
                ).map_values(|t: Seq<char>| item_title_spec(self@.title_prefix, t)));
                r = r + 1;
            }
            assert(shown[s as int].items.take(rows as int) =~= shown[s as int].items);
            assert(shown.take(s + 1).take(s as int) =~= shown.take(s as int));
            s = s + 1;
        }
        assert(shown.take(sections as int) =~= shown);
        out
    }

    /// How the trigger renders, given whether it holds focus: the clear
    /// button shows when the select is cleanable and the cursor is on an
    /// item; a click opens the menu unless it is open or disabled; the
    /// outline shows while the menu is open or the enabled trigger is
    /// focused.
    pub fn trigger_state(&self, focused: bool) -> (r: TriggerState)
        ensures
            r == (TriggerState {
                show_clean: self@.cleanable && self@.cursor is Some,
                clean_disabled: self@.cleanable && self@.cursor is Some && self@.disabled,
                show_icon: !(self@.cleanable && self@.cursor is Some),
                allow_open: !(self@.open || self@.disabled),
                outline_visible: self@.open || (focused && !self@.disabled),
            }),
    {
        let show_clean = self.cleanable && self.cursor.is_some();
        TriggerState {
            show_clean,
            clean_disabled: show_clean && self.disabled,
            show_icon: !show_clean,
            allow_open: !(self.open || self.disabled),
            outline_visible: self.open || (focused && !self.disabled),
        }
    }

    /// A click on the clear button: a disabled select ignores it; otherwise
    /// nothing is selected any more and `None` is emitted.
    pub fn clear_button_click(&mut self) -> (ev: Option<SelectEvent>)
        ensures
            old(self)@.disabled ==> final(self)@ == old(self)@ && ev is None,
            !old(self)@.disabled ==> final(self)@ == (SelectModel {
                cursor: None,
                selection: seq![],
                ..old(self)@
            }) && (ev matches Some(e) && event_value(e) is None),
    {
        if self.disabled {
            None
        } else {
            Some(self.clean())
        }
    }

    /// The dropdown popup, shown exactly while the menu is open: at the
    /// popup paint priority, with a search input when the select is
    /// searchable, at the select's size.
    pub fn popup(&self) -> (r: Option<SelectPopup>)
        ensures
            r is Some <==> self@.open,
            r matches Some(p) ==> p == (SelectPopup {
                priority: POPUP_PRIORITY,
                searchable: self@.searchable,
                size: self@.size,
            }),
    {
        if self.open {
            Some(SelectPopup { priority: POPUP_PRIORITY, searchable: self.searchable, size: self.size })
        } else {
            None
        }
    }

    /// The hidden sizer column that goes first in the trigger's title slot
    /// when the select fits its items: every shown item's title (see
    /// [`Self::all_item_titles`]); none otherwise.
    pub fn fit_sizer(&self) -> (r: Option<Vec<String>>)
        ensures
            r is Some <==> self@.fit_items,
            r matches Some(v) ==> crate::search::strs(v@) == all_titles(
                self@.list.matched,
                self@.title_prefix,
            ),
    {
        if self.fit_items {
            Some(self.all_item_titles())
        } else {
            None
        }
    }
}

/// The selection for a cursor: the item shown there, or nothing.
fn seed(list: &SearchableVec, ix: Option<IndexPath>) -> (r: Vec<(IndexPath, String)>)
    ensures
        selection_view(r@) == seeded(list@.matched, ix),
        r@.len() <= 1,
{
    let mut out: Vec<(IndexPath, String)> = Vec::new();
    if let Some(i) = ix {
        if let Some(t) = list.item(i) {
            out.push((i, t.clone()));
        }
    }
    assert(selection_view(out@) =~= seeded(list@.matched, ix));
    out
}

fn copy_selection(s: &Vec<(IndexPath, String)>) -> (r: Vec<(IndexPath, String)>)
    ensures
        selection_view(r@) == selection_view(s@),
{
    let mut out: Vec<(IndexPath, String)> = Vec::new();
    for i in 0..s.len()
        invariant
            out@.len() == i,
            forall|j: int| 0 <= j < i ==> out@[j].0 == s@[j].0 && out@[j].1@ == s@[j].1@,
    {
        out.push((s[i].0, s[i].1.clone()));
    }
    assert(selection_view(out@) =~= selection_view(s@));
    out
}

// MARK: Select

/// A select element: the options of a select trigger bound to a
/// [`SelectState`]. Menu lengths (`L`) and the empty-state builder (`E`) are
/// the host toolkit's own values, passed through unchanged.
pub struct Select<L, E> {
    id: ElementId,
    size: Size,
    icon: Option<Icon>,
    cleanable: bool,
    placeholder: Option<String>,
    accessibility_label: Option<String>,
    title_prefix: Option<String>,
    search_placeholder: Option<String>,
    search_icon: Option<Icon>,
    menu_width: Option<L>,
    menu_max_h: Option<L>,
    disabled: bool,
    appearance: bool,
    focus_ring_enabled: bool,
    fit_items: bool,
    empty: Option<E>,
}

/// The options a [`Select`] holds. A `None` menu width means the menu is as
/// wide as the trigger; a `None` menu height means the default maximum.
pub struct SelectOptionsModel<L, E> {
    pub id: ElementKey,
    pub size: Size,
    pub icon: Option<IconModel>,
    pub cleanable: bool,
    pub placeholder: Option<Seq<char>>,
    pub accessibility_label: Option<Seq<char>>,
    pub title_prefix: Option<Seq<char>>,
    pub search_placeholder: Option<Seq<char>>,
    pub search_icon: Option<IconModel>,
    pub menu_width: Option<L>,
    pub menu_max_h: Option<L>,
    pub disabled: bool,
    pub appearance: bool,
    pub focus_ring_enabled: bool,
    pub fit_items: bool,
    pub empty: Option<E>,
}

impl<L, E> View for Select<L, E> {
    type V = SelectOptionsModel<L, E>;

    closed spec fn view(&self) -> SelectOptionsModel<L, E> {
        SelectOptionsModel {
            id: self.id@,
            size: self.size,
            icon: icon_opt(self.icon),
            cleanable: self.cleanable,
            placeholder: self.placeholder.deep_view(),
            accessibility_label: self.accessibility_label.deep_view(),
            title_prefix: self.title_prefix.deep_view(),
            search_placeholder: self.search_placeholder.deep_view(),
            search_icon: icon_opt(self.search_icon),
            menu_width: self.menu_width,
            menu_max_h: self.menu_max_h,
            disabled: self.disabled,
            appearance: self.appearance,
            focus_ring_enabled: self.focus_ring_enabled,
            fit_items: self.fit_items,
            empty: self.empty,
        }
    }
}

/// How wide the open menu is.
#[derive(Debug, PartialEq, Eq)]
pub enum MenuWidth<L> {
    /// As wide as the trigger, plus 2px for the popup's border.
    TriggerWidth,
    /// The given width.
    Given(L),
}

/// How tall the open menu's list may grow.
#[derive(Debug, PartialEq, Eq)]
pub enum MenuMaxHeight<L> {
    /// The default maximum, 20rem.
    Default,
    /// The given maximum.
    Given(L),
}

/// The menu width for a select's menu width option.
pub open spec fn menu_width_rule<L>(width: Option<L>) -> MenuWidth<L> {
    match width {
        Some(w) => MenuWidth::Given(w),
        None => MenuWidth::TriggerWidth,
    }
}

/// The menu height limit for a select's max height option.
pub open spec fn menu_max_h_rule<L>(max_h: Option<L>) -> MenuMaxHeight<L> {
    match max_h {
        Some(h) => MenuMaxHeight::Given(h),
        None => MenuMaxHeight::Default,
    }
}

/// What rendering a [`Select`] hands back to the host after applying its
/// options to the state: the element id, the announced name, the popup's
/// width and height limit, and the empty-state builder.
pub struct SelectHostOptions<L, E> {
    pub id: ElementId,
    pub accessibility_label: Option<String>,
    pub menu_width: MenuWidth<L>,
    pub menu_max_h: MenuMaxHeight<L>,
    pub empty: Option<E>,
}

impl<L, E> Select<L, E> {
    /// A select bound to the state whose entity id is `state_id`: medium,
    /// not cleanable, enabled, with a bordered trigger and a focus ring, and
    /// no placeholder, prefix, icons, lengths or empty state of its own.
    pub fn new(state_id: u64) -> (r: Self)
        ensures
            r@ == (SelectOptionsModel::<L, E> {
                id: ElementKey::NamedInteger("select"@, state_id as nat),
                size: Size::Medium,
                icon: None,
                cleanable: false,
                placeholder: None,
                accessibility_label: None,
                title_prefix: None,
                search_placeholder: None,
                search_icon: None,
                menu_width: None,
                menu_max_h: None,
                disabled: false,
                appearance: true,
                focus_ring_enabled: true,
                fit_items: false,
                empty: None,
            }),
    {
        Select {
            id: ElementId::NamedInteger(owned("select"), state_id),
            size: Size::default(),
            icon: None,
            cleanable: false,
            placeholder: None,
            accessibility_label: None,
            title_prefix: None,
            search_placeholder: None,
            search_icon: None,
            menu_width: None,
            menu_max_h: None,
            disabled: false,
            appearance: true,
            focus_ring_enabled: true,
            fit_items: false,
            empty: None,
        }
    }

    /// Size the trigger to its widest item rather than to the current
    /// selection. Default: `false`.
    pub fn fit_items(self, fit: bool) -> (r: Self)
        ensures
            r@ == (SelectOptionsModel { fit_items: fit, ..self@ }),
    {
        Select { fit_items: fit, ..self }
    }

    /// Set the width of the dropdown menu; by default it is as wide as the
    /// trigger.
    pub fn menu_width(self, width: L) -> (r: Self)
        ensures
            r@ == (SelectOptionsModel { menu_width: Some(width), ..self@ }),
    {
        Select { menu_width: Some(width), ..self }
    }

    /// Set the max height of the dropdown menu; by default it is 20rem.
    pub fn menu_max_h(self, max_h: L) -> (r: Self)
        ensures
            r@ == (SelectOptionsModel { menu_max_h: Some(max_h), ..self@ }),
    {
        Select { menu_max_h: Some(max_h), ..self }
    }

    /// Set the placeholder shown when no value is selected.
    pub fn placeholder(self, placeholder: &str) -> (r: Self)
        ensures
            r@ == (SelectOptionsModel { placeholder: Some(placeholder@), ..self@ }),
    {
        Select { placeholder: Some(owned(placeholder)), ..self }
    }

    /// Set the name a screen reader announces for the select. The
    /// placeholder and the selected value are not used as the accessible
    /// name, and this does not change them.
    pub fn accessibility_label(self, label: &str) -> (r: Self)
        ensures
            r@ == (SelectOptionsModel { accessibility_label: Some(label@), ..self@ }),
    {
        Select { accessibility_label: Some(owned(label)), ..self }
    }

    /// Override the trailing icon, replacing the default chevron.
    pub fn icon(self, icon: Icon) -> (r: Self)
        ensures
            r@ == (SelectOptionsModel { icon: Some(icon@), ..self@ }),
    {
        Select { icon: Some(icon), ..self }
    }

    /// Set a label prefix shown before the selected title in the trigger.
    pub fn title_prefix(self, prefix: &str) -> (r: Self)
        ensures
            r@ == (SelectOptionsModel { title_prefix: Some(prefix@), ..self@ }),
    {
        Select { title_prefix: Some(owned(prefix)), ..self }
    }

    /// Show a clear button when a value is selected.
    pub fn cleanable(self, cleanable: bool) -> (r: Self)
        ensures
            r@ == (SelectOptionsModel { cleanable, ..self@ }),
    {
        Select { cleanable, ..self }
    }

    /// Set the placeholder text for the search input.
    pub fn search_placeholder(self, placeholder: &str) -> (r: Self)
        ensures
            r@ == (SelectOptionsModel { search_placeholder: Some(placeholder@), ..self@ }),
    {
        Select { search_placeholder: Some(owned(placeholder)), ..self }
    }

    /// Set the icon for the search input.
    pub fn search_icon(self, icon: Icon) -> (r: Self)
        ensures
            r@ == (SelectOptionsModel { search_icon: Some(icon@), ..self@ }),
    {
        Select { search_icon: Some(icon), ..self }
    }

    /// Set the disabled state.
    pub fn disabled(self, disabled: bool) -> (r: Self)
        ensures
            r@ == (SelectOptionsModel { disabled, ..self@ }),
    {
        Select { disabled, ..self }
    }

    /// Set what renders the empty state.
    pub fn empty(self, builder: E) -> (r: Self)
        ensures
            r@ == (SelectOptionsModel { empty: Some(builder), ..self@ }),
    {
        Select { empty: Some(builder), ..self }
    }

    /// Control whether the trigger shows a border and background (`true` by
    /// default).
    pub fn appearance(self, appearance: bool) -> (r: Self)
        ensures
            r@ == (SelectOptionsModel { appearance, ..self@ }),
    {
        Select { appearance, ..self }
    }

    /// Set the size of the trigger.
    pub fn with_size(self, size: Size) -> (r: Self)
        ensures
            r@ == (SelectOptionsModel { size, ..self@ }),
    {
        Select { size, ..self }
    }

    /// Enable or disable the focus ring.
    pub fn focus_ring(self, enabled: bool) -> (r: Self)
        ensures
            r@ == (SelectOptionsModel { focus_ring_enabled: enabled, ..self@ }),
    {
        Select { focus_ring_enabled: enabled, ..self }
    }

    pub fn is_focus_ring_enabled(&self) -> (r: bool)
        ensures
            r == self@.focus_ring_enabled,
    {
        self.focus_ring_enabled
    }

    /// The placeholder, if one was set.
    pub fn placeholder_text(&self) -> (r: Option<&String>)
        ensures
            match r {
                Some(s) => self@.placeholder == Some(s@),
                None => self@.placeholder is None,
            },
    {
        self.placeholder.as_ref()
    }

    /// The announced name, if one was set.
    pub fn accessibility_label_text(&self) -> (r: Option<&String>)
        ensures
            match r {
                Some(s) => self@.accessibility_label == Some(s@),
                None => self@.accessibility_label is None,
            },
    {
        self.accessibility_label.as_ref()
    }

    /// Render the options into the state: the state takes the size, the
    /// clear button, the placeholders, the disabled and appearance flags, the
    /// focus ring, item fitting, the icons and the title prefix; the rest
    /// goes back to the host. The menu, the cursor and the selection are
    /// untouched.
    pub fn apply_to(self, state: &mut SelectState) -> (r: SelectHostOptions<L, E>)
        ensures
            final(state)@ == (SelectModel {
                size: self@.size,
                cleanable: self@.cleanable,
                placeholder: self@.placeholder,
                search_placeholder: self@.search_placeholder,
                disabled: self@.disabled,
                appearance: self@.appearance,
                focus_ring_enabled: self@.focus_ring_enabled,
                fit_items: self@.fit_items,
                icon: self@.icon,
                title_prefix: self@.title_prefix,
                search_icon: self@.search_icon,
                ..old(state)@
            }),
            r.id@ == self@.id,
            r.accessibility_label.deep_view() == self@.accessibility_label,
            r.menu_width == menu_width_rule(self@.menu_width),
            r.menu_max_h == menu_max_h_rule(self@.menu_max_h),
            r.empty == self@.empty,
    {
        proof {
            use_type_invariant(&*state);
        }
        state.size = self.size;
        state.cleanable = self.cleanable;
        state.placeholder = self.placeholder;
        state.search_placeholder = self.search_placeholder;
        state.disabled = self.disabled;
        state.appearance = self.appearance;
        state.focus_ring_enabled = self.focus_ring_enabled;
        state.fit_items = self.fit_items;
        state.icon = self.icon;
        state.title_prefix = self.title_prefix;
        state.search_icon = self.search_icon;
        let menu_width = match self.menu_width {
            Some(w) => MenuWidth::Given(w),
            None => MenuWidth::TriggerWidth,
        };
        let menu_max_h = match self.menu_max_h {
            Some(h) => MenuMaxHeight::Given(h),
            None => MenuMaxHeight::Default,
        };
        SelectHostOptions {
            id: self.id,
            accessibility_label: self.accessibility_label,
            menu_width,
            menu_max_h,
            empty: self.empty,
        }
    }
}

} // verus!
