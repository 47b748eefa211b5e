//! Deferred paint priorities for the window's overlay surfaces.
//!
//! Overlays paint in ascending priority order, so priority decides which
//! overlay covers which, regardless of where each one sits in the element
//! tree. From bottom to top:
//!
//! - [`DIALOG_PRIORITY`] plus the dialog's stack index,
//! - [`POPUP_PRIORITY`] plus the submenu depth,
//! - [`TOOLTIP_PRIORITY`], above everything.
//!
//! The gaps between the tiers leave room for the per-surface offsets.

use vstd::prelude::*;

verus! {

/// Base priority for dialogs. The dialog's stack index is added to it.
pub const DIALOG_PRIORITY: usize = 10;

/// Base priority for interactive surfaces that must appear above dialogs.
/// Nested menus add their depth to it.
pub const POPUP_PRIORITY: usize = 100;

/// Priority for the window's tooltip overlay, the topmost surface.
pub const TOOLTIP_PRIORITY: usize = 1000;

/// The largest stack index or submenu depth that a surface may add to its
/// tier's base priority without reaching the tier above.
pub const MAX_TIER_OFFSET: usize = 16;

/// The priority a surface paints at: its tier's base plus its offset.
pub open spec fn painted_priority(base: usize, offset: usize) -> int {
    base + offset
}

/// The tiers are ordered dialog < popup < tooltip, and every dialog offset
/// or menu depth up to `MAX_TIER_OFFSET` stays strictly below the next tier:
/// any stacked dialog paints under any popup, and any popup under the tooltip.
pub proof fn lemma_tiers_are_ordered(dialog_ix: usize, menu_depth: usize)
    requires
        dialog_ix <= MAX_TIER_OFFSET,
        menu_depth <= MAX_TIER_OFFSET,
    ensures
        DIALOG_PRIORITY < POPUP_PRIORITY < TOOLTIP_PRIORITY,
        POPUP_PRIORITY - DIALOG_PRIORITY > MAX_TIER_OFFSET,
        TOOLTIP_PRIORITY - POPUP_PRIORITY > MAX_TIER_OFFSET,
        painted_priority(DIALOG_PRIORITY, dialog_ix) < POPUP_PRIORITY,
        painted_priority(POPUP_PRIORITY, menu_depth) < TOOLTIP_PRIORITY,
{
}

} // verus!
