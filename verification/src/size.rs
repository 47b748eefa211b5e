//! Component sizes and layout axes.

use vstd::prelude::*;

verus! {

/// The size of a component.
#[derive(Clone, Copy, Debug, PartialEq, Eq, Structural)]
pub enum Size {
    XSmall,
    Small,
    Medium,
    Large,
}

impl Default for Size {
    /// The default size is `Medium`.
    fn default() -> (s: Self)
        ensures
            s == Size::Medium,
    {
        Size::Medium
    }
}

/// A layout axis.
#[derive(Clone, Copy, Debug, PartialEq, Eq, Structural)]
pub enum Axis {
    Vertical,
    Horizontal,
}

impl Axis {
    pub fn is_vertical(&self) -> (r: bool)
        ensures
            r == (*self == Axis::Vertical),
    {
        match self {
            Axis::Vertical => true,
            Axis::Horizontal => false,
        }
    }
}

/// The identity of an element: a name, or a position among its siblings.
#[derive(Debug)]
pub enum ElementId {
    Name(String),
    Integer(usize),
    NamedInteger(String, u64),
}

/// What an `ElementId` stands for, with the name as a character sequence.
pub enum ElementKey {
    Name(Seq<char>),
    Integer(nat),
    NamedInteger(Seq<char>, nat),
}

impl View for ElementId {
    type V = ElementKey;

    open spec fn view(&self) -> ElementKey {
        match self {
            ElementId::Name(s) => ElementKey::Name(s@),
            ElementId::Integer(i) => ElementKey::Integer(*i as nat),
            ElementId::NamedInteger(s, i) => ElementKey::NamedInteger(s@, *i as nat),
        }
    }
}

} // verus!
