//! Sidebar building blocks: groups of items and menus of (nested) items.

pub mod group;
pub mod menu;

use vstd::prelude::*;

verus! {

/// Items that can be shown collapsed (icons only) or expanded.
pub trait Collapsible: Sized {
    spec fn spec_collapsed(&self) -> bool;

    /// The item with its collapsed flag set, everything else as it was.
    spec fn spec_collapse(self, collapsed: bool) -> Self;

    /// Whether the item is collapsed.
    fn is_collapsed(&self) -> (r: bool)
        ensures
            r == self.spec_collapsed(),
    ;

    /// The item, collapsed or expanded.
    fn collapsed(self, collapsed: bool) -> (r: Self)
        ensures
            r.spec_collapsed() == collapsed,
            r == self.spec_collapse(collapsed),
    ;
}

/// The host toolkit's values that sidebar menus carry without looking into
/// them: click handlers, suffix builders, context-menu builders, key
/// handlers and focus handles.
pub trait SidebarHost {
    type ClickHandler;
    type Suffix;
    type ContextMenu;
    type KeyHandler;
    type FocusHandle;
}

} // verus!
