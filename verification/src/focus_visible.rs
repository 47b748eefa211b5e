//! Whether the user is currently driving the UI from the keyboard, which is
//! what decides whether focus rings are drawn.
//!
//! Focus is always tracked, but the ring only appears once a key is pressed
//! and hides again on the next pointer press (as the web's `:focus-visible`
//! does). Focus that lands on a control by click, or that a component moves
//! programmatically, therefore stays silent.

use vstd::prelude::*;

verus! {

/// The input modality behind the event being handled.
pub struct FocusVisible {
    visible: bool,
}

/// Recording a modality: the new visibility, and whether it changed (which
/// asks for a redraw).
pub open spec fn focus_transition(before: bool, visible: bool) -> (bool, bool) {
    (visible, before != visible)
}

impl FocusVisible {
    /// Focus rings start hidden.
    pub fn init() -> (r: Self)
        ensures
            !r.is_visible_spec(),
    {
        FocusVisible { visible: false }
    }

    pub closed spec fn is_visible_spec(&self) -> bool {
        self.visible
    }

    /// Whether focus rings should be drawn right now.
    pub fn focus_visible(&self) -> (r: bool)
        ensures
            r == self.is_visible_spec(),
    {
        self.visible
    }

    /// Record the input modality. Returns whether this changed it, in which
    /// case the window redraws so rings appear or vanish on the same frame.
    pub fn set_focus_visible(&mut self, visible: bool) -> (refresh: bool)
        ensures
            (final(self).is_visible_spec(), refresh) == focus_transition(
                old(self).is_visible_spec(),
                visible,
            ),
    {
        if self.visible == visible {
            return false;
        }
        self.visible = visible;
        true
    }

    /// Every key press shows the rings.
    pub fn on_keystroke(&mut self) -> (refresh: bool)
        ensures
            final(self).is_visible_spec(),
            refresh == !old(self).is_visible_spec(),
    {
        self.set_focus_visible(true)
    }

    /// A pointer press hides the rings, seen in the capture phase, before
    /// any component handles it; the bubble phase changes nothing.
    pub fn on_mouse_down(&mut self, capture_phase: bool) -> (refresh: bool)
        ensures
            capture_phase ==> !final(self).is_visible_spec() && refresh == old(
                self,
            ).is_visible_spec(),
            !capture_phase ==> final(self).is_visible_spec() == old(self).is_visible_spec()
                && !refresh,
    {
        if capture_phase {
            self.set_focus_visible(false)
        } else {
            false
        }
    }
}

/// Recording the same modality twice is the same as recording it once: the
/// second time changes nothing and asks for no redraw.
pub proof fn lemma_set_focus_visible_idempotent(before: bool, visible: bool)
    ensures
        focus_transition(focus_transition(before, visible).0, visible) == (visible, false),
{
}

/// A key press followed by a pointer press (capture phase) leaves the rings
/// hidden, and both steps redraw exactly when they change the modality.
pub proof fn lemma_pointer_hides_what_keys_show(before: bool)
    ensures
        focus_transition(before, true).0,
        !focus_transition(focus_transition(before, true).0, false).0,
        focus_transition(focus_transition(before, true).0, false).1,
{
}

} // verus!
