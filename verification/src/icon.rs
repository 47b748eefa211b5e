//! Icons: a description of an icon (its asset path and size), built from
//! anything that names an icon.

use vstd::prelude::*;

use crate::size::Size;
use crate::text::owned;

verus! {

/// Types implementing this trait name an icon, and can be turned into an
/// [`Icon`]. Implement it for a custom set of icon names to use them as a
/// drop-in replacement for [`IconName`].
pub trait IconNamed {
    /// The embedded path a name stands for.
    spec fn spec_path(&self) -> Seq<char>;

    /// Returns the embedded path of the icon.
    fn path(self) -> (r: String)
        ensures
            r@ == self.spec_path(),
    ;
}

/// Names of bundled icons. The kit generates the full set of names from
/// its icon asset directory at build time; this enum holds, with their
/// asset paths written out, the icons the components here draw.
#[derive(Clone, Copy, Debug, PartialEq, Eq, Structural)]
pub enum IconName {
    ChevronDown,
    ChevronRight,
    Close,
    Inbox,
    Search,
}

/// The asset path of a bundled icon.
pub open spec fn icon_name_path(name: IconName) -> Seq<char> {
    match name {
        IconName::ChevronDown => "icons/chevron-down.svg"@,
        IconName::ChevronRight => "icons/chevron-right.svg"@,
        IconName::Close => "icons/close.svg"@,
        IconName::Inbox => "icons/inbox.svg"@,
        IconName::Search => "icons/search.svg"@,
    }
}

impl IconNamed for IconName {
    open spec fn spec_path(&self) -> Seq<char> {
        icon_name_path(*self)
    }

    fn path(self) -> (r: String) {
        match self {
            IconName::ChevronDown => owned("icons/chevron-down.svg"),
            IconName::ChevronRight => owned("icons/chevron-right.svg"),
            IconName::Close => owned("icons/close.svg"),
            IconName::Inbox => owned("icons/inbox.svg"),
            IconName::Search => owned("icons/search.svg"),
        }
    }
}

/// An icon: a description of one, not a built element.
#[derive(Debug)]
pub struct Icon {
    path: String,
    size: Option<Size>,
}

/// What an [`Icon`] describes.
pub struct IconModel {
    pub path: Seq<char>,
    pub size: Option<Size>,
}

impl View for Icon {
    type V = IconModel;

    closed spec fn view(&self) -> IconModel {
        IconModel { path: self.path@, size: self.size }
    }
}

/// Values that can be turned into an [`Icon`]: every icon name, and an icon
/// itself.
pub trait IntoIcon {
    /// The icon a value turns into.
    spec fn spec_icon(&self) -> IconModel;

    /// Turn the value into an icon.
    fn into_icon(self) -> (r: Icon)
        ensures
            r@ == self.spec_icon(),
    ;
}

impl<T: IconNamed> IntoIcon for T {
    /// The named icon, with no explicit size.
    open spec fn spec_icon(&self) -> IconModel {
        IconModel { path: self.spec_path(), size: None }
    }

    fn into_icon(self) -> (r: Icon) {
        Icon::build(self)
    }
}

impl IntoIcon for Icon {
    /// The icon, unchanged.
    open spec fn spec_icon(&self) -> IconModel {
        self@
    }

    fn into_icon(self) -> (r: Icon) {
        self
    }
}

impl Icon {
    /// The icon that `icon` stands for: a name's icon with no explicit
    /// size, or an icon unchanged.
    pub fn new<T: IntoIcon>(icon: T) -> (r: Self)
        ensures
            r@ == icon.spec_icon(),
    {
        icon.into_icon()
    }

    fn build<T: IconNamed>(name: T) -> (r: Self)
        ensures
            r@ == (IconModel { path: name.spec_path(), size: None }),
    {
        Self::empty().path_owned(name.path())
    }

    fn path_owned(self, path: String) -> (r: Self)
        ensures
            r@ == (IconModel { path: path@, ..self@ }),
    {
        Icon { path, ..self }
    }

    /// Set the icon path of the Assets bundle, for example `icons/foo.svg`.
    pub fn path(self, path: &str) -> (r: Self)
        ensures
            r@ == (IconModel { path: path@, ..self@ }),
    {
        self.path_owned(owned(path))
    }

    /// The icon's asset path.
    pub fn path_ref(&self) -> (r: &String)
        ensures
            r@ == self@.path,
    {
        &self.path
    }

    /// An icon with an empty path and no explicit size.
    pub fn empty() -> (r: Self)
        ensures
            r@ == (IconModel { path: Seq::empty(), size: None }),
    {
        Icon { path: String::new(), size: None }
    }

    /// Set the size of the icon.
    pub fn with_size(self, size: Size) -> (r: Self)
        ensures
            r@ == (IconModel { size: Some(size), ..self@ }),
    {
        Icon { size: Some(size), ..self }
    }

    /// The icon's explicit size, if one was set.
    pub fn size(&self) -> (r: Option<Size>)
        ensures
            r == self@.size,
    {
        self.size
    }
}

/// The icon of a clear button: the given one, or the close icon.
pub fn clear_button_icon(icon: Option<Icon>) -> (r: Icon)
    ensures
        match icon {
            Some(i) => r@ == i@,
            None => r@ == (IconModel { path: icon_name_path(IconName::Close), size: None }),
        },
{
    match icon {
        Some(icon) => icon,
        None => Icon::new(IconName::Close),
    }
}

} // verus!
