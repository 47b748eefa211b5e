//! An autocomplete text input with a filtered suggestion popup.
//!
//! Typing in the input filters the suggestions (case-insensitive substring
//! match) and highlights the first one; Enter or a click fills the input with
//! the highlighted value. The popup keeps Cancel and Confirm to itself only
//! while it is open, so a closed popup never swallows the enclosing dialog's
//! close and OK actions.

use vstd::prelude::*;

use crate::search::{copy_strings, search, search_spec, strs};
use crate::searchable::IndexPath;
use crate::size::{ElementId, ElementKey, Size};
use crate::text::{owned, str_eq};

verus! {

/// Emitted when the user confirms a suggestion from the popup list.
#[derive(Debug)]
pub enum SuggestInputEvent {
    /// The user confirmed a value (via Enter key or click).
    Confirm(String),
}

// MARK: list items

/// One row of the suggestion popup.
pub struct SuggestListItem {
    id: ElementId,
    size: Size,
    selected: bool,
    text: String,
}

/// What a [`SuggestListItem`] shows.
pub struct SuggestListItemModel {
    pub id: ElementKey,
    pub size: Size,
    pub selected: bool,
    pub text: Seq<char>,
}

impl View for SuggestListItem {
    type V = SuggestListItemModel;

    closed spec fn view(&self) -> SuggestListItemModel {
        SuggestListItemModel {
            id: self.id@,
            size: self.size,
            selected: self.selected,
            text: self.text@,
        }
    }
}

impl SuggestListItem {
    fn new(ix: usize, text: String) -> (r: Self)
        ensures
            r@ == (SuggestListItemModel {
                id: ElementKey::NamedInteger("suggest-item"@, ix as nat),
                size: Size::Medium,
                selected: false,
                text: text@,
            }),
    {
        SuggestListItem {
            id: ElementId::NamedInteger(owned("suggest-item"), ix as u64),
            size: Size::default(),
            selected: false,
            text,
        }
    }

    pub fn selected(self, selected: bool) -> (r: Self)
        ensures
            r@ == (SuggestListItemModel { selected, ..self@ }),
    {
        SuggestListItem { selected, ..self }
    }

    pub fn is_selected(&self) -> (r: bool)
        ensures
            r == self@.selected,
    {
        self.selected
    }

    pub fn with_size(self, size: Size) -> (r: Self)
        ensures
            r@ == (SuggestListItemModel { size, ..self@ }),
    {
        SuggestListItem { size, ..self }
    }

    /// The suggestion the row shows.
    pub fn text(&self) -> (r: &String)
        ensures
            r@ == self@.text,
    {
        &self.text
    }
}

// MARK: delegate

/// The suggestions, the ones that match the current text, and the
/// highlighted one.
pub struct SuggestDelegate {
    items: Vec<String>,
    matched_items: Vec<String>,
    selected_index: Option<IndexPath>,
}

/// What a [`SuggestDelegate`] holds.
pub struct SuggestDelegateModel {
    pub items: Seq<Seq<char>>,
    pub matched: Seq<Seq<char>>,
    pub selected_index: Option<IndexPath>,
}

impl View for SuggestDelegate {
    type V = SuggestDelegateModel;

    closed spec fn view(&self) -> SuggestDelegateModel {
        SuggestDelegateModel {
            items: strs(self.items@),
            matched: strs(self.matched_items@),
            selected_index: self.selected_index,
        }
    }
}

/// The highlighted suggestion, if the highlight is on a shown row.
pub open spec fn highlighted(d: SuggestDelegateModel) -> Option<Seq<char>> {
    match d.selected_index {
        Some(ix) => if ix.row < d.matched.len() {
            Some(d.matched[ix.row as int])
        } else {
            None
        },
        None => None,
    }
}

impl SuggestDelegate {
    /// All suggestions shown, none highlighted.
    pub fn new(items: Vec<String>) -> (r: Self)
        ensures
            r@ == (SuggestDelegateModel {
                items: strs(items@),
                matched: strs(items@),
                selected_index: None,
            }),
    {
        let matched_items = copy_strings(&items);
        SuggestDelegate { matched_items, items, selected_index: None }
    }

    /// The number of shown suggestions.
    pub fn items_count(&self) -> (r: usize)
        ensures
            r == self@.matched.len(),
    {
        self.matched_items.len()
    }

    /// The shown suggestions.
    pub fn matched_items(&self) -> (r: &Vec<String>)
        ensures
            strs(r@) == self@.matched,
    {
        &self.matched_items
    }

    /// The row for position `ix`, highlighted when it is on the highlighted
    /// row; `None` past the last shown suggestion.
    pub fn render_item(&self, ix: IndexPath, size: Size) -> (r: Option<SuggestListItem>)
        ensures
            match r {
                Some(item) => ix.row < self@.matched.len() && item@ == (SuggestListItemModel {
                    id: ElementKey::NamedInteger("suggest-item"@, ix.row as nat),
                    size,
                    selected: match self@.selected_index {
                        Some(sel) => sel.row == ix.row,
                        None => false,
                    },
                    text: self@.matched[ix.row as int],
                }),
                None => ix.row >= self@.matched.len(),
            },
    {
        if ix.row >= self.matched_items.len() {
            return None;
        }
        let text = self.matched_items[ix.row].clone();
        let selected = match self.selected_index {
            Some(sel) => sel.eq_row(ix),
            None => false,
        };
        Some(SuggestListItem::new(ix.row, text).selected(selected).with_size(size))
    }

    /// Show the suggestions that match `query`: all of them when the
    /// lowercased query is empty, otherwise those containing it,
    /// ignoring case.
    pub fn perform_search(&mut self, query: &str)
        ensures
            final(self)@ == (SuggestDelegateModel {
                matched: search_spec(old(self)@.items, query@),
                ..old(self)@
            }),
            query@.len() == 0 ==> final(self)@.matched == old(self)@.items,
    {
        self.matched_items = search(&self.items, query);
    }

    /// Highlight a row.
    pub fn set_selected_index(&mut self, ix: Option<IndexPath>)
        ensures
            final(self)@ == (SuggestDelegateModel { selected_index: ix, ..old(self)@ }),
    {
        self.selected_index = ix;
    }

    /// The suggestion a confirm picks: the highlighted one.
    pub fn confirm_value(&self) -> (r: Option<String>)
        ensures
            match r {
                Some(s) => highlighted(self@) == Some(s@),
                None => highlighted(self@) is None,
            },
    {
        match self.selected_index {
            Some(ix) => if ix.row < self.matched_items.len() {
                Some(self.matched_items[ix.row].clone())
            } else {
                None
            },
            None => None,
        }
    }

    /// The text shown when nothing matches.
    pub fn empty_text(&self) -> (r: &'static str)
        ensures
            r@ == "No matches"@,
    {
        "No matches"
    }
}

// MARK: state

/// State of the suggest input: the input's text, the suggestions, and
/// whether the popup is open.
pub struct SuggestInputState {
    value: String,
    list: SuggestDelegate,
    open: bool,
    hide_when_empty: bool,
    size: Size,
}

/// What a [`SuggestInputState`] holds.
pub struct SuggestInputModel {
    pub value: Seq<char>,
    pub list: SuggestDelegateModel,
    pub open: bool,
    pub hide_when_empty: bool,
    pub size: Size,
}

impl View for SuggestInputState {
    type V = SuggestInputModel;

    closed spec fn view(&self) -> SuggestInputModel {
        SuggestInputModel {
            value: self.value@,
            list: self.list@,
            open: self.open,
            hide_when_empty: self.hide_when_empty,
            size: self.size,
        }
    }
}

/// The suggestions after searching for `text`, with the first one
/// highlighted when there is any.
pub open spec fn searched_for(d: SuggestDelegateModel, text: Seq<char>) -> SuggestDelegateModel {
    let matched = search_spec(d.items, text);
    SuggestDelegateModel {
        matched,
        selected_index: if matched.len() > 0 {
            Some(IndexPath { section: 0, row: 0 })
        } else {
            None
        },
        ..d
    }
}

/// Nothing useful to show: the text already is the only suggestion left.
pub open spec fn redundant(matched: Seq<Seq<char>>, text: Seq<char>) -> bool {
    matched.len() == 1 && matched[0] == text
}

/// Whether the popup is drawn: it is open, unless it is set to hide when
/// nothing matches and nothing does.
pub open spec fn show_popup_spec(s: SuggestInputModel) -> bool {
    s.open && !(s.hide_when_empty && s.list.matched.len() == 0)
}

/// The popup is drawn only while it is open. Unless it hides when nothing
/// matches, or while something matches, it is drawn exactly while open; an
/// open popup that hides when empty and has no match is not drawn.
pub proof fn lemma_popup_drawn_only_while_open(s: SuggestInputModel)
    ensures
        show_popup_spec(s) ==> s.open,
        !s.hide_when_empty ==> show_popup_spec(s) == s.open,
        s.list.matched.len() > 0 ==> show_popup_spec(s) == s.open,
        s.hide_when_empty && s.list.matched.len() == 0 ==> !show_popup_spec(s),
{
}

/// A search for the typed text highlights the first row exactly when some
/// suggestion matches, and nothing otherwise; so the highlighted suggestion
/// (what Enter or a click fills the input with) is the first match. The
/// suggestions themselves are untouched.
pub proof fn lemma_search_highlights_the_first_match(d: SuggestDelegateModel, text: Seq<char>)
    ensures
        (searched_for(d, text).selected_index == Some(IndexPath { section: 0, row: 0 }))
            <==> searched_for(d, text).matched.len() > 0,
        searched_for(d, text).selected_index is None <==> searched_for(d, text).matched.len()
            == 0,
        searched_for(d, text).matched.len() > 0 ==> highlighted(searched_for(d, text)) == Some(
            searched_for(d, text).matched[0],
        ),
        searched_for(d, text).matched.len() == 0 ==> highlighted(searched_for(d, text)) is None,
        searched_for(d, text).items == d.items,
{
}

impl SuggestInputState {
    /// An empty input over the given suggestions, popup closed, small.
    pub fn new(items: Vec<String>) -> (r: Self)
        ensures
            r@ == (SuggestInputModel {
                value: seq![],
                list: SuggestDelegateModel {
                    items: strs(items@),
                    matched: strs(items@),
                    selected_index: None,
                },
                open: false,
                hide_when_empty: false,
                size: Size::Small,
            }),
    {
        SuggestInputState {
            value: String::new(),
            list: SuggestDelegate::new(items),
            open: false,
            hide_when_empty: false,
            size: Size::Small,
        }
    }

    /// Open or close the popup.
    pub fn set_open(&mut self, open: bool)
        ensures
            final(self)@ == (SuggestInputModel { open, ..old(self)@ }),
    {
        self.open = open;
    }

    /// Whether the popup is open.
    pub fn is_open(&self) -> (r: bool)
        ensures
            r == self@.open,
    {
        self.open
    }

    /// When true, the popup hides entirely when there are no matching items
    /// instead of showing a "No matches" empty state. Default: false.
    pub fn hide_when_empty(self, hide: bool) -> (r: Self)
        ensures
            r@ == (SuggestInputModel { hide_when_empty: hide, ..self@ }),
    {
        SuggestInputState { hide_when_empty: hide, ..self }
    }

    /// Read the current input text.
    pub fn value(&self) -> (r: &String)
        ensures
            r@ == self@.value,
    {
        &self.value
    }

    /// Set the input text programmatically. This is not typing: the
    /// suggestions and the popup are left alone.
    pub fn set_value(&mut self, value: &str)
        ensures
            final(self)@ == (SuggestInputModel { value: value@, ..old(self)@ }),
    {
        self.value = owned(value);
    }

    /// The suggestions.
    pub fn list(&self) -> (r: &SuggestDelegate)
        ensures
            r@ == self@.list,
    {
        &self.list
    }

    /// Search for the current text, highlighting the first match.
    fn refresh_matches(&mut self)
        ensures
            final(self)@ == (SuggestInputModel {
                list: searched_for(old(self)@.list, old(self)@.value),
                ..old(self)@
            }),
            old(self)@.value.len() == 0 ==> final(self)@.list.matched == old(self)@.list.items,
    {
        self.list.perform_search(self.value.as_str());
        let has_items = self.list.items_count() > 0;
        self.list.set_selected_index(
            if has_items {
                Some(IndexPath::first())
            } else {
                None
            },
        );
    }

    /// Whether the text is already the only suggestion shown.
    fn is_redundant(&self) -> (r: bool)
        ensures
            r == redundant(self@.list.matched, self@.value),
    {
        let m = self.list.matched_items();
        m.len() == 1 && str_eq(m[0].as_str(), self.value.as_str())
    }

    /// The input's text changed to `value`. Only typing (the input holds
    /// focus) searches: the first match is highlighted, and the popup opens,
    /// unless the text already is the only suggestion left, which closes it.
    pub fn on_input_change(&mut self, value: &str, input_focused: bool)
        ensures
            !input_focused ==> final(self)@ == (SuggestInputModel { value: value@, ..old(self)@ }),
            input_focused ==> final(self)@ == (SuggestInputModel {
                value: value@,
                list: searched_for(old(self)@.list, value@),
                open: !redundant(searched_for(old(self)@.list, value@).matched, value@),
                ..old(self)@
            }),
            input_focused && value@.len() == 0 ==> final(self)@.list.matched
                == old(self)@.list.items,
    {
        self.value = owned(value);
        if !input_focused {
            return;
        }
        self.refresh_matches();
        if self.is_redundant() {
            if self.open {
                self.open = false;
            }
        } else if !self.open {
            self.open = true;
        }
    }

    /// The input gained focus. A closed popup searches for the current text
    /// and opens, unless the text already is the only suggestion left.
    pub fn on_focus(&mut self)
        ensures
            old(self)@.open ==> final(self)@ == old(self)@,
            !old(self)@.open ==> final(self)@ == (SuggestInputModel {
                list: searched_for(old(self)@.list, old(self)@.value),
                open: !redundant(
                    searched_for(old(self)@.list, old(self)@.value).matched,
                    old(self)@.value,
                ),
                ..old(self)@
            }),
            !old(self)@.open && old(self)@.value.len() == 0 ==> final(self)@.list.matched
                == old(self)@.list.items,
    {
        if self.open {
            return;
        }
        self.refresh_matches();
        if !self.is_redundant() {
            self.open = true;
        }
    }

    /// The input lost focus. An open popup closes, unless focus moved into
    /// the popup's list (a click on a suggestion, which confirms it).
    pub fn on_blur(&mut self, list_focused: bool)
        ensures
            final(self)@ == (SuggestInputModel {
                open: old(self)@.open && list_focused,
                ..old(self)@
            }),
    {
        if !self.open {
            return;
        }
        if !list_focused {
            self.open = false;
        }
    }

    /// Confirm the highlighted suggestion: the input takes its text, the
    /// popup closes and the value is emitted. Nothing happens when no
    /// suggestion is highlighted.
    pub fn confirm(&mut self) -> (ev: Option<SuggestInputEvent>)
        ensures
            match highlighted(old(self)@.list) {
                Some(v) => final(self)@ == (SuggestInputModel { value: v, open: false, ..old(self)@ })
                    && (ev matches Some(SuggestInputEvent::Confirm(s)) && s@ == v),
                None => final(self)@ == old(self)@ && ev is None,
            },
    {
        match self.list.confirm_value() {
            Some(value) => {
                self.value = value.clone();
                self.open = false;
                Some(SuggestInputEvent::Confirm(value))
            },
            None => None,
        }
    }

    /// Enter in the input: with the popup open it confirms the highlighted
    /// suggestion; with the popup closed nothing happens here.
    pub fn on_press_enter(&mut self) -> (ev: Option<SuggestInputEvent>)
        ensures
            !old(self)@.open ==> final(self)@ == old(self)@ && ev is None,
            old(self)@.open ==> match highlighted(old(self)@.list) {
                Some(v) => final(self)@ == (SuggestInputModel { value: v, open: false, ..old(self)@ })
                    && (ev matches Some(SuggestInputEvent::Confirm(s)) && s@ == v),
                None => final(self)@ == old(self)@ && ev is None,
            },
    {
        if self.open {
            self.confirm()
        } else {
            None
        }
    }

    /// The list was cancelled: the popup closes.
    pub fn on_list_cancel(&mut self)
        ensures
            final(self)@ == (SuggestInputModel { open: false, ..old(self)@ }),
    {
        self.open = false;
    }

    /// The Cancel action. An open popup takes it and closes; a closed popup
    /// lets it propagate (to the enclosing dialog's close). Returns whether
    /// it was taken.
    pub fn cancel_action(&mut self) -> (taken: bool)
        ensures
            taken == old(self)@.open,
            final(self)@ == (SuggestInputModel { open: false, ..old(self)@ }),
    {
        if self.open {
            self.open = false;
            true
        } else {
            false
        }
    }

    /// The Confirm action. An open popup keeps it to itself (Enter picks a
    /// suggestion); a closed popup lets it propagate (to the enclosing
    /// dialog's OK). Returns whether it was taken.
    pub fn confirm_action(&self) -> (taken: bool)
        ensures
            taken == self@.open,
    {
        self.open
    }

    /// Whether the popup is drawn (see [`show_popup_spec`]).
    pub fn show_popup(&self) -> (r: bool)
        ensures
            r == show_popup_spec(self@),
            r ==> self@.open,
    {
        self.open && !(self.hide_when_empty && self.list.items_count() == 0)
    }
}

// MARK: element

/// A suggest input element bound to a [`SuggestInputState`].
pub struct SuggestInput {
    id: ElementId,
    size: Size,
}

/// What a [`SuggestInput`] holds.
pub struct SuggestInputElementModel {
    pub id: ElementKey,
    pub size: Size,
}

impl View for SuggestInput {
    type V = SuggestInputElementModel;

    closed spec fn view(&self) -> SuggestInputElementModel {
        SuggestInputElementModel { id: self.id@, size: self.size }
    }
}

impl SuggestInput {
    /// A medium suggest input bound to the state whose entity id is
    /// `state_id`.
    pub fn new(state_id: u64) -> (r: Self)
        ensures
            r@ == (SuggestInputElementModel {
                id: ElementKey::NamedInteger("suggest-input"@, state_id as nat),
                size: Size::Medium,
            }),
    {
        SuggestInput {
            id: ElementId::NamedInteger(owned("suggest-input"), state_id),
            size: Size::default(),
        }
    }

    /// A small suggest input.
    pub fn small(self) -> (r: Self)
        ensures
            r@ == (SuggestInputElementModel { size: Size::Small, ..self@ }),
    {
        SuggestInput { size: Size::Small, ..self }
    }

    /// Set the size.
    pub fn with_size(self, size: Size) -> (r: Self)
        ensures
            r@ == (SuggestInputElementModel { size, ..self@ }),
    {
        SuggestInput { size, ..self }
    }

    /// The size.
    pub fn size(&self) -> (r: Size)
        ensures
            r == self@.size,
    {
        self.size
    }
}

} // verus!
