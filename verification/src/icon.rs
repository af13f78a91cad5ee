//! The icons that pages and custom elements ask for.

use vstd::prelude::*;

verus! {

/// The name of an icon of the icon set that the application draws with.
#[derive(Clone, Copy, Debug, PartialEq, Eq, Structural)]
pub enum IconName {
    Drama,
    Folder,
    GalleryVerticalEnd,
    GitHub,
    Globe,
    HardDrive,
    Keyboard,
    LayoutDashboard,
    Palette,
    Search,
    Settings,
}

} // verus!
