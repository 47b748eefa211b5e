//! Radio buttons and radio groups: their configuration, the name a screen
//! reader announces, and the group's keyboard navigation (arrow keys move the
//! selection to the next option that can take it, wrapping around the ends,
//! and the group is a single tab stop that lands on the selected option).

use vstd::prelude::*;

use crate::size::{Axis, ElementId, ElementKey, Size};
use crate::text::{owned, str_eq};

verus! {

// MARK: keyboard navigation

/// The direction an unmodified arrow key moves the selection within a group:
/// `down`/`right` move forward, `up`/`left` move back. Both axes are accepted
/// whatever the group's layout.
pub open spec fn arrow_step_spec(key: Seq<char>, modified: bool) -> Option<isize> {
    if modified {
        None
    } else if key == "down"@ || key == "right"@ {
        Some(1)
    } else if key == "up"@ || key == "left"@ {
        Some(-1isize)
    } else {
        None
    }
}

/// The direction an arrow key moves the selection, `None` for any other key
/// or for a key pressed with a modifier.
pub fn arrow_step(key: &str, modified: bool) -> (r: Option<isize>)
    ensures
        r == arrow_step_spec(key@, modified),
{
    if modified {
        return None;
    }
    if str_eq(key, "down") || str_eq(key, "right") {
        Some(1)
    } else if str_eq(key, "up") || str_eq(key, "left") {
        Some(-1)
    } else {
        None
    }
}

/// The index reached after `k` steps of `step` from `from`, wrapping around
/// the `total` options (Euclidean remainder, so stepping back from 0 wraps
/// to the last option).
pub open spec fn walk_pos(from: int, step: int, total: int, k: nat) -> int
    decreases k,
{
    if k == 0 {
        from
    } else {
        (walk_pos(from, step, total, (k - 1) as nat) + step) % total
    }
}

/// The first selectable index met when walking from `from`, looking at
/// steps `k + 1` up to `selectable.len()`.
pub open spec fn first_selectable_from(from: int, step: int, selectable: Seq<bool>, k: nat) -> Option<int>
    decreases selectable.len() - k,
{
    if k >= selectable.len() {
        None
    } else {
        let ix = walk_pos(from, step, selectable.len() as int, k + 1);
        if selectable[ix] {
            Some(ix)
        } else {
            first_selectable_from(from, step, selectable, k + 1)
        }
    }
}

/// The option that takes the selection when walking from `from` in the
/// `step` direction: the first selectable one met within one full lap,
/// unless that is `from` itself.
pub open spec fn next_selectable_spec(from: int, step: int, selectable: Seq<bool>) -> Option<int> {
    match first_selectable_from(from, step, selectable, 0) {
        Some(ix) => if ix != from {
            Some(ix)
        } else {
            None
        },
        None => None,
    }
}

/// Walk from `from` in the `step` direction, wrapping around the ends, to the
/// next option that can take the selection. `None` when there is no other one.
pub fn next_selectable(from: usize, step: isize, selectable: &[bool]) -> (r: Option<usize>)
    requires
        selectable@.len() <= isize::MAX,
        selectable@.len() + step <= isize::MAX + 1,
        selectable@.len() > 0 ==> from + step <= isize::MAX,
        selectable@.len() > 0 ==> from <= isize::MAX,
    ensures
        match r {
            Some(ix) => next_selectable_spec(from as int, step as int, selectable@) == Some(
                ix as int,
            ),
            None => next_selectable_spec(from as int, step as int, selectable@) is None,
        },
{
    let total = selectable.len();
    if total == 0 {
        return None;
    }
    let mut ix = from;
    let mut k: usize = 0;
    while k < total
        invariant
            total == selectable@.len(),
            total <= isize::MAX,
            from <= isize::MAX,
            from + step <= isize::MAX,
            total + step <= isize::MAX + 1,
            k <= total,
            ix as int == walk_pos(from as int, step as int, total as int, k as nat),
            k > 0 ==> ix < total,
            k == 0 ==> ix == from,
            first_selectable_from(from as int, step as int, selectable@, 0)
                == first_selectable_from(from as int, step as int, selectable@, k as nat),
        decreases total - k,
    {
        let next = (ix as isize + step).checked_rem_euclid(total as isize);
        let nix = next.unwrap() as usize;
        assert(nix as int == walk_pos(from as int, step as int, total as int, (k + 1) as nat));
        ix = nix;
        if selectable[ix] {
            return if ix != from {
                Some(ix)
            } else {
                None
            };
        }
        k = k + 1;
    }
    None
}

// MARK: laws of the walk

/// After the first step the walk stays among the options.
pub proof fn lemma_walk_pos_in_range(from: int, step: int, total: int, k: nat)
    requires
        total > 0,
        k > 0,
    ensures
        0 <= walk_pos(from, step, total, k) < total,
{
}

/// What the scan finds is a selectable option met on the walk, and every
/// option met before it cannot take the selection.
proof fn lemma_first_selectable_found(from: int, step: int, selectable: Seq<bool>, k: nat)
    ensures
        first_selectable_from(from, step, selectable, k) matches Some(ix) ==> {
            &&& 0 <= ix < selectable.len()
            &&& selectable[ix]
        },
    decreases selectable.len() - k,
{
    if k < selectable.len() {
        lemma_walk_pos_in_range(from, step, selectable.len() as int, k + 1);
        lemma_first_selectable_found(from, step, selectable, k + 1);
    }
}

/// When the scan finds nothing, no option met on the walk can take the
/// selection.
proof fn lemma_first_selectable_none(from: int, step: int, selectable: Seq<bool>, k: nat, j: nat)
    requires
        first_selectable_from(from, step, selectable, k) is None,
        k <= j < selectable.len(),
    ensures
        !selectable[walk_pos(from, step, selectable.len() as int, j + 1)],
    decreases j - k,
{
    if k < j {
        lemma_first_selectable_none(from, step, selectable, k + 1, j);
    }
}

/// Adding to a remainder and reducing again is the same as reducing the sum.
proof fn lemma_mod_step(a: int, s: int, t: int)
    requires
        t > 0,
    ensures
        ((a % t) + s) % t == (a + s) % t,
{
    vstd::arithmetic::div_mod::lemma_fundamental_div_mod(a, t);
    vstd::arithmetic::div_mod::lemma_mod_multiples_vanish(a / t, a % t + s, t);
}

/// Walking one option at a time forward reaches `(from + k) % total`.
proof fn lemma_walk_forward(from: int, total: int, k: nat)
    requires
        total > 0,
        0 <= from < total,
    ensures
        walk_pos(from, 1, total, k) == (from + k) % total,
    decreases k,
{
    if k == 0 {
        vstd::arithmetic::div_mod::lemma_small_mod(from as nat, total as nat);
    } else {
        lemma_walk_forward(from, total, (k - 1) as nat);
        lemma_mod_step(from + k - 1, 1, total);
    }
}

/// Walking one option at a time backward reaches `(from - k) % total`.
proof fn lemma_walk_backward(from: int, total: int, k: nat)
    requires
        total > 0,
        0 <= from < total,
    ensures
        walk_pos(from, -1, total, k) == (from - k) % total,
    decreases k,
{
    if k == 0 {
        vstd::arithmetic::div_mod::lemma_small_mod(from as nat, total as nat);
    } else {
        lemma_walk_backward(from, total, (k - 1) as nat);
        lemma_mod_step(from - (k - 1), -1, total);
    }
}

/// The option that takes the selection can take it, is one of the options,
/// and is not the one the walk started from.
pub proof fn lemma_next_selectable_is_another_selectable(from: int, step: int, selectable: Seq<bool>)
    ensures
        next_selectable_spec(from, step, selectable) matches Some(ix) ==> {
            &&& 0 <= ix < selectable.len()
            &&& selectable[ix]
            &&& ix != from
        },
{
    lemma_first_selectable_found(from, step, selectable, 0);
}

/// With an arrow-key step (one option forward or back), the selection moves
/// whenever some other option can take it: `None` comes only when no option
/// other than `from` is selectable.
pub proof fn lemma_arrow_walk_finds_any_other(from: int, step: int, selectable: Seq<bool>, other: int)
    requires
        step == 1 || step == -1,
        0 <= from < selectable.len(),
        0 <= other < selectable.len(),
        other != from,
        selectable[other],
    ensures
        next_selectable_spec(from, step, selectable) is Some,
{
    let total = selectable.len() as int;
    // the walk meets `other` after `d` steps, with 0 < d < total
    let d: int = if step == 1 {
        if other > from {
            other - from
        } else {
            other - from + total
        }
    } else {
        if other < from {
            from - other
        } else {
            from - other + total
        }
    };
    assert(0 < d < total);
    if step == 1 {
        lemma_walk_forward(from, total, d as nat);
        if other > from {
            vstd::arithmetic::div_mod::lemma_small_mod(other as nat, total as nat);
        } else {
            vstd::arithmetic::div_mod::lemma_mod_add_multiples_vanish(other, total);
            vstd::arithmetic::div_mod::lemma_small_mod(other as nat, total as nat);
        }
    } else {
        lemma_walk_backward(from, total, d as nat);
        if other < from {
            vstd::arithmetic::div_mod::lemma_small_mod(other as nat, total as nat);
        } else {
            vstd::arithmetic::div_mod::lemma_mod_add_multiples_vanish(other - total, total);
            vstd::arithmetic::div_mod::lemma_small_mod(other as nat, total as nat);
        }
    }
    assert(walk_pos(from, step, total, d as nat) == other);
    if first_selectable_from(from, step, selectable, 0) is None {
        lemma_first_selectable_none(from, step, selectable, 0, (d - 1) as nat);
        assert(false);
    }
    // the first option found is `from` only after a full lap
    lemma_first_is_before(from, step, selectable, 0, (d - 1) as nat);
}

/// If the walk meets a selectable option at step `j + 1`, the scan from `k`
/// finds an option at some step between `k + 1` and `j + 1`; meeting `from`
/// itself takes a full lap, so the scan does not return `from`.
proof fn lemma_first_is_before(from: int, step: int, selectable: Seq<bool>, k: nat, j: nat)
    requires
        step == 1 || step == -1,
        0 <= from < selectable.len(),
        k <= j < selectable.len() - 1,
        selectable[walk_pos(from, step, selectable.len() as int, j + 1)],
    ensures
        first_selectable_from(from, step, selectable, k) matches Some(ix) && ix != from,
    decreases j - k,
{
    let total = selectable.len() as int;
    let ix = walk_pos(from, step, total, k + 1);
    if step == 1 {
        lemma_walk_forward(from, total, k + 1);
        if from + k + 1 < total {
            vstd::arithmetic::div_mod::lemma_small_mod((from + k + 1) as nat, total as nat);
        } else {
            vstd::arithmetic::div_mod::lemma_mod_sub_multiples_vanish(from + k + 1, total);
            vstd::arithmetic::div_mod::lemma_small_mod((from + k + 1 - total) as nat, total as nat);
        }
    } else {
        lemma_walk_backward(from, total, k + 1);
        if from - (k + 1) >= 0 {
            vstd::arithmetic::div_mod::lemma_small_mod((from - (k + 1)) as nat, total as nat);
        } else {
            vstd::arithmetic::div_mod::lemma_mod_add_multiples_vanish(from - (k + 1), total);
            vstd::arithmetic::div_mod::lemma_small_mod((from - (k + 1) + total) as nat, total as nat);
        }
    }
    assert(ix != from);
    if !selectable[ix] {
        lemma_first_is_before(from, step, selectable, k + 1, j);
    }
}

// MARK: Radio

/// A radio button's configuration.
///
/// This is not the group: a standalone Radio is managed by its owner, a
/// [`RadioGroup`] manages its options.
pub struct Radio {
    id: ElementId,
    label: Option<String>,
    /// The announced name, when the visible label is not it.
    accessibility_label: Option<String>,
    checked: bool,
    disabled: bool,
    tab_stop: bool,
    tab_index: isize,
    size: Size,
    tooltip: Option<String>,
    position_in_set: Option<usize>,
    size_of_set: Option<usize>,
    focus_ring_enabled: bool,
}

/// The configuration a [`Radio`] holds.
pub struct RadioModel {
    pub id: ElementKey,
    pub label: Option<Seq<char>>,
    pub accessibility_label: Option<Seq<char>>,
    pub checked: bool,
    pub disabled: bool,
    pub tab_stop: bool,
    pub tab_index: int,
    pub size: Size,
    pub tooltip: Option<Seq<char>>,
    pub position_in_set: Option<nat>,
    pub size_of_set: Option<nat>,
    pub focus_ring_enabled: bool,
}

impl View for Radio {
    type V = RadioModel;

    closed spec fn view(&self) -> RadioModel {
        RadioModel {
            id: self.id@,
            label: self.label.deep_view(),
            accessibility_label: self.accessibility_label.deep_view(),
            checked: self.checked,
            disabled: self.disabled,
            tab_stop: self.tab_stop,
            tab_index: self.tab_index as int,
            size: self.size,
            tooltip: self.tooltip.deep_view(),
            position_in_set: match self.position_in_set {
                Some(p) => Some(p as nat),
                None => None,
            },
            size_of_set: match self.size_of_set {
                Some(n) => Some(n as nat),
                None => None,
            },
            focus_ring_enabled: self.focus_ring_enabled,
        }
    }
}

/// The name a screen reader announces for a radio: the explicit
/// accessibility label when there is one, otherwise the visible label.
pub open spec fn announced_name_spec(m: RadioModel) -> Option<Seq<char>> {
    match m.accessibility_label {
        Some(name) => Some(name),
        None => m.label,
    }
}

impl Radio {
    /// Create a new Radio element with the given id: unchecked, enabled,
    /// a tab stop at tab index 0, medium size, with a focus ring and no
    /// label.
    pub fn new(id: &str) -> (r: Self)
        ensures
            r@ == (RadioModel {
                id: ElementKey::Name(id@),
                label: None,
                accessibility_label: None,
                checked: false,
                disabled: false,
                tab_stop: true,
                tab_index: 0,
                size: Size::Medium,
                tooltip: None,
                position_in_set: None,
                size_of_set: None,
                focus_ring_enabled: true,
            }),
    {
        Radio {
            id: ElementId::Name(owned(id)),
            label: None,
            accessibility_label: None,
            checked: false,
            disabled: false,
            tab_stop: true,
            tab_index: 0,
            size: Size::default(),
            tooltip: None,
            position_in_set: None,
            size_of_set: None,
            focus_ring_enabled: true,
        }
    }

    /// Set tooltip text for the radio.
    pub fn tooltip(self, tooltip: &str) -> (r: Self)
        ensures
            r@ == (RadioModel { tooltip: Some(tooltip@), ..self@ }),
    {
        Radio { tooltip: Some(owned(tooltip)), ..self }
    }

    /// Set the label of the Radio element.
    pub fn label(self, label: &str) -> (r: Self)
        ensures
            r@ == (RadioModel { label: Some(label@), ..self@ }),
    {
        Radio { label: Some(owned(label)), ..self }
    }

    /// Set the name a screen reader announces, when the visible label is not
    /// it. This replaces the announced name without changing what is
    /// displayed.
    pub fn accessibility_label(self, label: &str) -> (r: Self)
        ensures
            r@ == (RadioModel { accessibility_label: Some(label@), ..self@ }),
    {
        Radio { accessibility_label: Some(owned(label)), ..self }
    }

    /// Set the checked state of the Radio element, default is `false`.
    pub fn checked(self, checked: bool) -> (r: Self)
        ensures
            r@ == (RadioModel { checked, ..self@ }),
    {
        Radio { checked, ..self }
    }

    /// Set the disabled state of the Radio element, default is `false`.
    pub fn disabled(self, disabled: bool) -> (r: Self)
        ensures
            r@ == (RadioModel { disabled, ..self@ }),
    {
        Radio { disabled, ..self }
    }

    /// Set the tab index for the Radio element, default is `0`.
    pub fn tab_index(self, tab_index: isize) -> (r: Self)
        ensures
            r@ == (RadioModel { tab_index: tab_index as int, ..self@ }),
    {
        Radio { tab_index, ..self }
    }

    /// Set the tab stop for the Radio element, default is `true`.
    pub fn tab_stop(self, tab_stop: bool) -> (r: Self)
        ensures
            r@ == (RadioModel { tab_stop, ..self@ }),
    {
        Radio { tab_stop, ..self }
    }

    /// Set the size of the Radio element.
    pub fn with_size(self, size: Size) -> (r: Self)
        ensures
            r@ == (RadioModel { size, ..self@ }),
    {
        Radio { size, ..self }
    }

    /// Enable or disable the focus ring.
    pub fn focus_ring(self, enabled: bool) -> (r: Self)
        ensures
            r@ == (RadioModel { focus_ring_enabled: enabled, ..self@ }),
    {
        Radio { focus_ring_enabled: enabled, ..self }
    }

    pub fn is_focus_ring_enabled(&self) -> (r: bool)
        ensures
            r == self@.focus_ring_enabled,
    {
        self.focus_ring_enabled
    }

    /// Whether the radio draws its focus ring: while it holds focus, unless
    /// the ring is turned off.
    pub fn shows_focus_ring(&self, focused: bool) -> (r: bool)
        ensures
            r == (focused && self@.focus_ring_enabled),
    {
        focused && self.focus_ring_enabled
    }

    /// The visible label.
    pub fn label_text(&self) -> (r: Option<&String>)
        ensures
            match r {
                Some(s) => self@.label == Some(s@),
                None => self@.label is None,
            },
    {
        self.label.as_ref()
    }

    /// The explicit accessibility label, if one was set.
    pub fn accessibility_label_text(&self) -> (r: Option<&String>)
        ensures
            match r {
                Some(s) => self@.accessibility_label == Some(s@),
                None => self@.accessibility_label is None,
            },
    {
        self.accessibility_label.as_ref()
    }

    /// The name a screen reader announces: the explicit accessibility label
    /// when one was set, otherwise the visible label.
    pub fn announced_name(&self) -> (r: Option<&String>)
        ensures
            match r {
                Some(s) => announced_name_spec(self@) == Some(s@),
                None => announced_name_spec(self@) is None,
            },
    {
        match &self.accessibility_label {
            Some(name) => Some(name),
            None => self.label.as_ref(),
        }
    }

    pub fn is_checked(&self) -> (r: bool)
        ensures
            r == self@.checked,
    {
        self.checked
    }

    pub fn is_disabled(&self) -> (r: bool)
        ensures
            r == self@.disabled,
    {
        self.disabled
    }

    pub fn is_tab_stop(&self) -> (r: bool)
        ensures
            r == self@.tab_stop,
    {
        self.tab_stop
    }

    /// This radio's place in its group (1-based) and the group's size, once
    /// a group has arranged it.
    pub fn set_position(&self) -> (r: (Option<usize>, Option<usize>))
        ensures
            r.0 matches Some(p) ==> self@.position_in_set == Some(p as nat),
            r.0 is None ==> self@.position_in_set is None,
            r.1 matches Some(n) ==> self@.size_of_set == Some(n as nat),
            r.1 is None ==> self@.size_of_set is None,
    {
        (self.position_in_set, self.size_of_set)
    }
}

/// A radio labelled with the given text, whose id is that text.
pub fn radio_from_label(label: &str) -> (r: Radio)
    ensures
        r@.id == ElementKey::Name(label@),
        r@.label == Some(label@),
        r@.accessibility_label is None,
        !r@.checked,
        !r@.disabled,
{
    Radio::new(label).label(label)
}

// MARK: RadioGroup

/// A group of radio options, at most one of them selected.
///
/// The click handler (`G`) is the host toolkit's own value, run with the
/// index of the option that takes the selection; the group never looks
/// into it.
pub struct RadioGroup<G> {
    id: ElementId,
    radios: Vec<Radio>,
    layout: Axis,
    selected_index: Option<usize>,
    disabled: bool,
    on_click: Option<G>,
}

/// The configuration a [`RadioGroup`] holds.
pub struct RadioGroupModel<G> {
    pub id: ElementKey,
    pub radios: Seq<RadioModel>,
    pub layout: Axis,
    pub selected_index: Option<nat>,
    pub disabled: bool,
    pub on_click: Option<G>,
}

impl<G> View for RadioGroup<G> {
    type V = RadioGroupModel<G>;

    closed spec fn view(&self) -> RadioGroupModel<G> {
        RadioGroupModel {
            id: self.id@,
            radios: self.radios@.map_values(|r: Radio| r@),
            layout: self.layout,
            selected_index: match self.selected_index {
                Some(i) => Some(i as nat),
                None => None,
            },
            disabled: self.disabled,
            on_click: self.on_click,
        }
    }
}

/// Whether option `ix` of a group can take the selection: neither the group
/// nor the option is disabled.
pub open spec fn option_selectable<G>(group: RadioGroupModel<G>, ix: int) -> bool {
    !group.disabled && !group.radios[ix].disabled
}

/// The selectable flags of all options, in order.
pub open spec fn selectable_spec<G>(group: RadioGroupModel<G>) -> Seq<bool> {
    Seq::new(group.radios.len(), |ix: int| option_selectable(group, ix))
}

/// The group's single tab stop: the selected option when it can take the
/// selection, otherwise the first option that can.
pub open spec fn tab_stop_spec(selected: Option<nat>, selectable: Seq<bool>) -> Option<int> {
    match selected {
        Some(ix) => if ix < selectable.len() && selectable[ix as int] {
            Some(ix as int)
        } else {
            first_true_from(selectable, 0)
        },
        None => first_true_from(selectable, 0),
    }
}

/// The first index at or after `k` whose flag is set.
pub open spec fn first_true_from(flags: Seq<bool>, k: nat) -> Option<int>
    decreases flags.len() - k,
{
    if k >= flags.len() {
        None
    } else if flags[k as int] {
        Some(k as int)
    } else {
        first_true_from(flags, k + 1)
    }
}

/// How the group renders option `ix`: identified by its position, placed in
/// the set (1-based), checked when it is the selected one, a tab stop when it
/// is the group's tab stop, and disabled exactly when the group is.
pub open spec fn arranged_option<G>(group: RadioGroupModel<G>, ix: int, tab_stop: Option<int>) -> RadioModel {
    RadioModel {
        id: ElementKey::Integer(ix as nat),
        position_in_set: Some((ix + 1) as nat),
        size_of_set: Some(group.radios.len()),
        tab_stop: tab_stop == Some(ix),
        disabled: group.disabled,
        checked: group.selected_index == Some(ix as nat),
        ..group.radios[ix]
    }
}

impl<G> RadioGroup<G> {
    fn new(id: &str) -> (r: Self)
        ensures
            r@.id == ElementKey::Name(id@),
            r@.radios.len() == 0,
            r@.layout == Axis::Vertical,
            r@.selected_index is None,
            !r@.disabled,
            r@.on_click is None,
    {
        let r = RadioGroup {
            id: ElementId::Name(owned(id)),
            radios: Vec::new(),
            layout: Axis::Vertical,
            selected_index: None,
            disabled: false,
            on_click: None,
        };
        assert(r@.radios =~= Seq::<RadioModel>::empty());
        r
    }

    /// Create a new Radio group with default Vertical layout.
    pub fn vertical(id: &str) -> (r: Self)
        ensures
            r@.id == ElementKey::Name(id@),
            r@.radios.len() == 0,
            r@.layout == Axis::Vertical,
            r@.selected_index is None,
            !r@.disabled,
            r@.on_click is None,
    {
        Self::new(id)
    }

    /// Create a new Radio group with Horizontal layout.
    pub fn horizontal(id: &str) -> (r: Self)
        ensures
            r@.id == ElementKey::Name(id@),
            r@.radios.len() == 0,
            r@.layout == Axis::Horizontal,
            r@.selected_index is None,
            !r@.disabled,
            r@.on_click is None,
    {
        Self::new(id).layout(Axis::Horizontal)
    }

    /// Set the layout of the Radio group. Default is `Axis::Vertical`.
    pub fn layout(self, layout: Axis) -> (r: Self)
        ensures
            r@ == (RadioGroupModel { layout, ..self@ }),
    {
        RadioGroup { layout, ..self }
    }

    /// Set the selected index.
    pub fn selected_index(self, index: Option<usize>) -> (r: Self)
        ensures
            r@ == (RadioGroupModel {
                selected_index: match index {
                    Some(i) => Some(i as nat),
                    None => None,
                },
                ..self@
            }),
    {
        RadioGroup { selected_index: index, ..self }
    }

    /// Set the disabled state.
    pub fn disabled(self, disabled: bool) -> (r: Self)
        ensures
            r@ == (RadioGroupModel { disabled, ..self@ }),
    {
        RadioGroup { disabled, ..self }
    }

    /// Run `handler` with the option's index when an option takes the
    /// selection. Without a handler the group does not listen for arrow
    /// keys.
    pub fn on_click(self, handler: G) -> (r: Self)
        ensures
            r@ == (RadioGroupModel { on_click: Some(handler), ..self@ }),
    {
        RadioGroup { on_click: Some(handler), ..self }
    }

    /// The click handler, if the group has one.
    pub fn click_handler(&self) -> (r: Option<&G>)
        ensures
            match r {
                Some(h) => self@.on_click == Some(*h),
                None => self@.on_click is None,
            },
    {
        self.on_click.as_ref()
    }

    /// Add a child Radio element.
    pub fn child(self, child: Radio) -> (r: Self)
        ensures
            r@ == (RadioGroupModel { radios: self@.radios.push(child@), ..self@ }),
    {
        let mut radios = self.radios;
        radios.push(child);
        let r = RadioGroup { radios, ..self };
        assert(r@.radios =~= self@.radios.push(child@));
        r
    }

    /// Add multiple child Radio elements.
    pub fn children(self, children: Vec<Radio>) -> (r: Self)
        ensures
            r@ == (RadioGroupModel {
                radios: self@.radios + children@.map_values(|c: Radio| c@),
                ..self@
            }),
    {
        let mut radios = self.radios;
        let mut more = children;
        radios.append(&mut more);
        let r = RadioGroup { radios, ..self };
        assert(r@.radios =~= self@.radios + children@.map_values(|c: Radio| c@));
        r
    }

    /// Which options can take the selection.
    pub fn selectable(&self) -> (r: Vec<bool>)
        ensures
            r@ == selectable_spec(self@),
    {
        let mut out: Vec<bool> = Vec::new();
        let n = self.radios.len();
        for ix in 0..n
            invariant
                n == self.radios@.len(),
                out@.len() == ix,
                forall|j: int| 0 <= j < ix ==> out@[j] == option_selectable(self@, j),
        {
            out.push(!self.disabled && !self.radios[ix].disabled);
        }
        assert(out@ =~= selectable_spec(self@));
        out
    }

    /// The group's single tab stop: tabbing into the group lands on the
    /// selected option rather than the first.
    pub fn tab_stop_index(&self) -> (r: Option<usize>)
        ensures
            match r {
                Some(ix) => tab_stop_spec(self@.selected_index, selectable_spec(self@)) == Some(
                    ix as int,
                ),
                None => tab_stop_spec(self@.selected_index, selectable_spec(self@)) is None,
            },
    {
        let selectable = self.selectable();
        tab_stop_of(self.selected_index, &selectable)
    }

    /// The option that arrow key `key` moves the selection (and focus) to,
    /// from the option that holds focus, to be handed to the click handler;
    /// `None` when the group has no click handler (it then listens for no
    /// keys), the key is not an unmodified arrow, no option is focused, or no
    /// other option can take the selection.
    pub fn key_target(&self, key: &str, modified: bool, focused: Option<usize>) -> (r: Option<usize>)
        requires
            self@.radios.len() <= isize::MAX,
        ensures
            self@.on_click is None ==> r is None,
            self@.on_click is Some ==> match (arrow_step_spec(key@, modified), focused) {
                (Some(step), Some(from)) => if from < self@.radios.len() {
                    match r {
                        Some(ix) => next_selectable_spec(
                            from as int,
                            step as int,
                            selectable_spec(self@),
                        ) == Some(ix as int),
                        None => next_selectable_spec(
                            from as int,
                            step as int,
                            selectable_spec(self@),
                        ) is None,
                    }
                } else {
                    r is None
                },
                _ => r is None,
            },
    {
        if self.on_click.is_none() {
            return None;
        }
        let step = match arrow_step(key, modified) {
            Some(step) => step,
            None => return None,
        };
        let from = match focused {
            Some(from) => from,
            None => return None,
        };
        if from >= self.radios.len() {
            return None;
        }
        let selectable = self.selectable();
        assert(self.radios@.len() == self@.radios.len());
        next_selectable(from, step, selectable.as_slice())
    }

    /// The options as the group renders them: see [`arranged_option`].
    pub fn arrange(self) -> (r: Vec<Radio>)
        ensures
            r@.len() == self@.radios.len(),
            forall|ix: int|
                0 <= ix < r@.len() ==> #[trigger] r@[ix]@ == arranged_option(
                    self@,
                    ix,
                    tab_stop_spec(self@.selected_index, selectable_spec(self@)),
                ),
    {
        let tab_stop = self.tab_stop_index();
        let ghost g = self@;
        let ghost ts = tab_stop_spec(g.selected_index, selectable_spec(g));
        let total = self.radios.len();
        let selected = self.selected_index;
        let disabled = self.disabled;
        let mut out: Vec<Radio> = Vec::new();
        let mut ix: usize = 0;
        for radio in it: self.radios
            invariant
                total == g.radios.len(),
                it.seq().len() == total,
                forall|j: int| 0 <= j < total ==> #[trigger] it.seq()[j]@ == g.radios[j],
                ix == it.index(),
                ix == out@.len(),
                selected == self.selected_index,
                disabled == g.disabled,
                g.selected_index == match selected {
                    Some(i) => Some(i as nat),
                    None => None::<nat>,
                },
                match tab_stop {
                    Some(t) => ts == Some(t as int),
                    None => ts is None,
                },
                forall|j: int| 0 <= j < ix ==> #[trigger] out@[j]@ == arranged_option(g, j, ts),
        {
            let checked = match selected {
                Some(s) => s == ix,
                None => false,
            };
            let is_stop = match tab_stop {
                Some(t) => t == ix,
                None => false,
            };
            let arranged = Radio {
                id: ElementId::Integer(ix),
                position_in_set: Some(ix + 1),
                size_of_set: Some(total),
                tab_stop: is_stop,
                disabled,
                checked,
                ..radio
            };
            assert(radio@ == g.radios[ix as int]);
            assert(arranged@.id == arranged_option(g, ix as int, ts).id);
            assert(arranged@.checked == arranged_option(g, ix as int, ts).checked);
            assert(arranged@.tab_stop == arranged_option(g, ix as int, ts).tab_stop);
            assert(arranged@ == arranged_option(g, ix as int, ts));
            out.push(arranged);
            ix = ix + 1;
        }
        out
    }
}

/// The tab stop among options with the given selectable flags.
fn tab_stop_of(selected: Option<usize>, selectable: &Vec<bool>) -> (r: Option<usize>)
    ensures
        match r {
            Some(ix) => tab_stop_spec(
                match selected {
                    Some(i) => Some(i as nat),
                    None => None,
                },
                selectable@,
            ) == Some(ix as int),
            None => tab_stop_spec(
                match selected {
                    Some(i) => Some(i as nat),
                    None => None,
                },
                selectable@,
            ) is None,
        },
{
    if let Some(ix) = selected {
        if ix < selectable.len() && selectable[ix] {
            return Some(ix);
        }
    }
    let ghost sel_nat = match selected {
        Some(i) => Some(i as nat),
        None => None::<nat>,
    };
    assert(tab_stop_spec(sel_nat, selectable@) == first_true_from(selectable@, 0));
    let n = selectable.len();
    let mut k: usize = 0;
    while k < n
        invariant
            n == selectable@.len(),
            k <= n,
            sel_nat == match selected {
                Some(i) => Some(i as nat),
                None => None::<nat>,
            },
            tab_stop_spec(sel_nat, selectable@) == first_true_from(selectable@, 0),
            first_true_from(selectable@, 0) == first_true_from(selectable@, k as nat),
        decreases n - k,
    {
        if selectable[k] {
            return Some(k);
        }
        k = k + 1;
    }
    None
}

// MARK: laws of the group

/// An explicit accessibility label becomes the announced name, whatever the
/// visible label, and leaves the visible label as it was.
pub proof fn lemma_explicit_name_wins(m: RadioModel, name: Seq<char>)
    ensures
        announced_name_spec(RadioModel { accessibility_label: Some(name), ..m }) == Some(name),
        (RadioModel { accessibility_label: Some(name), ..m }).label == m.label,
{
}

/// Without an explicit accessibility label, the visible label is announced.
pub proof fn lemma_label_is_announced_by_default(m: RadioModel)
    requires
        m.accessibility_label is None,
    ensures
        announced_name_spec(m) == m.label,
{
}

proof fn lemma_first_true_is_true(flags: Seq<bool>, k: nat)
    ensures
        first_true_from(flags, k) matches Some(ix) ==> k <= ix < flags.len() && flags[ix],
        first_true_from(flags, k) is None ==> forall|j: int| k <= j < flags.len() ==> !flags[j],
    decreases flags.len() - k,
{
    if k < flags.len() {
        lemma_first_true_is_true(flags, k + 1);
    }
}

/// The group's tab stop is an option that can take the selection; there is
/// one exactly when some option can; and it is the selected option whenever
/// that one can take the selection.
pub proof fn lemma_tab_stop_is_selectable(selected: Option<nat>, selectable: Seq<bool>)
    ensures
        tab_stop_spec(selected, selectable) matches Some(ix) ==> 0 <= ix < selectable.len()
            && selectable[ix],
        tab_stop_spec(selected, selectable) is None <==> forall|j: int|
            0 <= j < selectable.len() ==> !selectable[j],
        match selected {
            Some(s) => s < selectable.len() && selectable[s as int] ==> tab_stop_spec(
                selected,
                selectable,
            ) == Some(s as int),
            None => true,
        },
{
    lemma_first_true_is_true(selectable, 0);
}

/// At most one option of a group is checked, and it is the selected one;
/// at most one is a tab stop.
pub proof fn lemma_one_checked_one_stop<G>(group: RadioGroupModel<G>, tab_stop: Option<int>, i: int, j: int)
    requires
        0 <= i < group.radios.len(),
        0 <= j < group.radios.len(),
        i != j,
    ensures
        !(arranged_option(group, i, tab_stop).checked && arranged_option(group, j, tab_stop).checked),
        !(arranged_option(group, i, tab_stop).tab_stop && arranged_option(
            group,
            j,
            tab_stop,
        ).tab_stop),
        arranged_option(group, i, tab_stop).checked <==> group.selected_index == Some(i as nat),
{
}

} // verus!
