//! Dialog footers and the footer buttons that close or confirm the dialog.

use vstd::prelude::*;

verus! {

/// The action a footer button dispatches to its dialog.
#[derive(Clone, Copy, Debug, PartialEq, Eq, Structural)]
pub enum DialogCommand {
    /// Close the dialog.
    CancelDialog,
    /// Confirm the dialog.
    ConfirmDialog,
}

/// Footer section of a dialog, typically holding its action buttons.
pub struct DialogFooter<E> {
    children: Vec<E>,
}

impl<E> DialogFooter<E> {
    /// An empty footer.
    pub fn new() -> (r: Self)
        ensures
            r.children_spec() == Seq::<E>::empty(),
    {
        DialogFooter { children: Vec::new() }
    }

    pub closed spec fn children_spec(&self) -> Seq<E> {
        self.children@
    }

    /// Add children after the ones the footer has.
    pub fn extend(&mut self, elements: Vec<E>)
        ensures
            final(self).children_spec() == old(self).children_spec() + elements@,
    {
        let mut more = elements;
        self.children.append(&mut more);
    }

    /// The footer's children.
    pub fn children(&self) -> (r: &Vec<E>)
        ensures
            r@ == self.children_spec(),
    {
        &self.children
    }
}

/// Buttons that can sit in a dialog footer. By default a button neither
/// cancels nor confirms the dialog.
pub trait DialogFooterButton {
    /// Whether the button cancels the dialog; by default it does not.
    fn is_cancel(&self) -> (r: bool)
        default_ensures
            r == false,
    {
        false
    }

    /// Whether the button confirms the dialog; by default it does not.
    fn is_action(&self) -> (r: bool)
        default_ensures
            r == false,
    {
        false
    }
}

/// A footer wrapper whose click closes the dialog.
pub struct DialogClose<E> {
    children: Vec<E>,
}

impl<E> DialogClose<E> {
    /// An empty close wrapper.
    pub fn new() -> (r: Self)
        ensures
            r.children_spec() == Seq::<E>::empty(),
    {
        DialogClose { children: Vec::new() }
    }

    pub closed spec fn children_spec(&self) -> Seq<E> {
        self.children@
    }

    /// Add children after the ones the wrapper has.
    pub fn extend(&mut self, elements: Vec<E>)
        ensures
            final(self).children_spec() == old(self).children_spec() + elements@,
    {
        let mut more = elements;
        self.children.append(&mut more);
    }

    /// What a click dispatches: closing the dialog.
    pub fn command(&self) -> (r: DialogCommand)
        ensures
            r == DialogCommand::CancelDialog,
    {
        DialogCommand::CancelDialog
    }

    /// The key of the focus handle the wrapper keeps across renders, so
    /// the dispatched action routes through the dialog.
    pub fn focus_key(&self) -> (r: &'static str)
        ensures
            r@ == "dialog-close"@,
    {
        "dialog-close"
    }
}

/// A footer wrapper whose click confirms the dialog.
pub struct DialogAction<E> {
    children: Vec<E>,
}

impl<E> DialogAction<E> {
    /// An empty action wrapper.
    pub fn new() -> (r: Self)
        ensures
            r.children_spec() == Seq::<E>::empty(),
    {
        DialogAction { children: Vec::new() }
    }

    pub closed spec fn children_spec(&self) -> Seq<E> {
        self.children@
    }

    /// Add children after the ones the wrapper has.
    pub fn extend(&mut self, elements: Vec<E>)
        ensures
            final(self).children_spec() == old(self).children_spec() + elements@,
    {
        let mut more = elements;
        self.children.append(&mut more);
    }

    /// What a click dispatches: confirming the dialog.
    pub fn command(&self) -> (r: DialogCommand)
        ensures
            r == DialogCommand::ConfirmDialog,
    {
        DialogCommand::ConfirmDialog
    }

    /// The key of the focus handle the wrapper keeps across renders.
    pub fn focus_key(&self) -> (r: &'static str)
        ensures
            r@ == "dialog-action"@,
    {
        "dialog-action"
    }
}

} // verus!
