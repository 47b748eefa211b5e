//! A labelled group of sidebar items.

use vstd::prelude::*;

use crate::sidebar::Collapsible;
use crate::text::{child_id, child_id_string, owned, to_uppercase, uppercase};

verus! {

/// A group of items in a sidebar, under a label.
pub struct SidebarGroup<E> {
    label: String,
    uppercase: bool,
    bottom_border: bool,
    collapsed: bool,
    children: Vec<E>,
}

/// What a [`SidebarGroup`] holds.
pub struct SidebarGroupModel<E> {
    pub label: Seq<char>,
    pub uppercase: bool,
    pub bottom_border: bool,
    pub collapsed: bool,
    pub children: Seq<E>,
}

impl<E> View for SidebarGroup<E> {
    type V = SidebarGroupModel<E>;

    closed spec fn view(&self) -> SidebarGroupModel<E> {
        SidebarGroupModel {
            label: self.label@,
            uppercase: self.uppercase,
            bottom_border: self.bottom_border,
            collapsed: self.collapsed,
            children: self.children@,
        }
    }
}

/// How a group renders: its label (hidden while collapsed), whether the
/// label has a bottom border, and its children, each with its id and
/// collapsed like the group.
pub struct SidebarGroupLayout<E> {
    pub label: Option<String>,
    pub label_border: bool,
    pub children: Vec<(String, E)>,
}

/// The label a group shows: none while collapsed, otherwise the label,
/// uppercased when asked to.
pub open spec fn shown_label<E>(g: SidebarGroupModel<E>) -> Option<Seq<char>> {
    if g.collapsed {
        None
    } else if g.uppercase {
        Some(uppercase(g.label))
    } else {
        Some(g.label)
    }
}

impl<E> SidebarGroup<E> {
    /// Create a new group with the given label: expanded, no children, the
    /// label as written and without a border.
    pub fn new(label: &str) -> (r: Self)
        ensures
            r@ == (SidebarGroupModel::<E> {
                label: label@,
                uppercase: false,
                bottom_border: false,
                collapsed: false,
                children: seq![],
            }),
    {
        let r = SidebarGroup {
            label: owned(label),
            uppercase: false,
            bottom_border: false,
            collapsed: false,
            children: Vec::new(),
        };
        assert(r@.children =~= Seq::<E>::empty());
        r
    }

    /// Render the group label in uppercase.
    pub fn uppercase(self, uppercase: bool) -> (r: Self)
        ensures
            r@ == (SidebarGroupModel { uppercase, ..self@ }),
    {
        SidebarGroup { uppercase, ..self }
    }

    /// Add a 1px bottom border below the group label.
    pub fn label_border(self, border: bool) -> (r: Self)
        ensures
            r@ == (SidebarGroupModel { bottom_border: border, ..self@ }),
    {
        SidebarGroup { bottom_border: border, ..self }
    }

    /// Add a child to the group.
    pub fn child(self, child: E) -> (r: Self)
        ensures
            r@ == (SidebarGroupModel { children: self@.children.push(child), ..self@ }),
    {
        let mut children = self.children;
        children.push(child);
        SidebarGroup { children, ..self }
    }

    /// Add multiple children to the group, after the ones it has.
    pub fn children(self, children: Vec<E>) -> (r: Self)
        ensures
            r@ == (SidebarGroupModel { children: self@.children + children@, ..self@ }),
    {
        let mut all = self.children;
        let mut more = children;
        all.append(&mut more);
        SidebarGroup { children: all, ..self }
    }

    /// The label the group shows (see [`shown_label`]).
    pub fn label_text(&self) -> (r: Option<String>)
        ensures
            match r {
                Some(s) => shown_label(self@) == Some(s@),
                None => shown_label(self@) is None,
            },
    {
        if self.collapsed {
            None
        } else if self.uppercase {
            Some(to_uppercase(self.label.as_str()))
        } else {
            Some(self.label.clone())
        }
    }
}

impl<E: Collapsible> SidebarGroup<E> {
    /// How the group renders under id `id`: its shown label, the label
    /// border, and its children in order, the `ix`-th with id `"{id}-{ix}"`:
    /// the group's `ix`-th child, collapsed exactly when the group is.
    pub fn layout(self, id: &str) -> (r: SidebarGroupLayout<E>)
        ensures
            match r.label {
                Some(s) => shown_label(self@) == Some(s@),
                None => shown_label(self@) is None,
            },
            r.label_border == self@.bottom_border,
            r.children@.len() == self@.children.len(),
            forall|ix: int|
                0 <= ix < r.children@.len() ==> {
                    &&& (#[trigger] r.children@[ix]).0@ == child_id(id@, ix as nat)
                    &&& r.children@[ix].1 == self@.children[ix].spec_collapse(self@.collapsed)
                    &&& r.children@[ix].1.spec_collapsed() == self@.collapsed
                },
    {
        let label = self.label_text();
        let collapsed = self.collapsed;
        let bottom_border = self.bottom_border;
        let ghost children = self@.children;
        let n = self.children.len();
        let mut out: Vec<(String, E)> = Vec::new();
        let mut ix: usize = 0;
        for child in it: self.children
            invariant
                it.seq() == children,
                n == children.len(),
                ix == it.index(),
                out@.len() == ix,
                forall|j: int|
                    0 <= j < ix ==> {
                        &&& (#[trigger] out@[j]).0@ == child_id(id@, j as nat)
                        &&& out@[j].1 == children[j].spec_collapse(collapsed)
                        &&& out@[j].1.spec_collapsed() == collapsed
                    },
        {
            out.push((child_id_string(id, ix), child.collapsed(collapsed)));
            ix = ix + 1;
        }
        SidebarGroupLayout { label, label_border: bottom_border, children: out }
    }
}

impl<E> Collapsible for SidebarGroup<E> {
    open spec fn spec_collapsed(&self) -> bool {
        self@.collapsed
    }

    closed spec fn spec_collapse(self, collapsed: bool) -> Self {
        SidebarGroup { collapsed, ..self }
    }

    fn is_collapsed(&self) -> (r: bool) {
        self.collapsed
    }

    fn collapsed(self, collapsed: bool) -> (r: Self)
        ensures
            r@ == (SidebarGroupModel { collapsed, ..self@ }),
    {
        SidebarGroup { collapsed, ..self }
    }
}

impl<E> SidebarGroup<E> {
    /// A group collapsed (or expanded) by [`Collapsible::collapsed`] differs
    /// from it in the flag alone.
    pub proof fn lemma_collapse_keeps_the_rest(self, collapsed: bool)
        ensures
            self.spec_collapse(collapsed)@ == (SidebarGroupModel { collapsed, ..self@ }),
    {
    }
}

} // verus!
