//! The pages of the application.

use vstd::prelude::*;
use crate::icon::IconName;

pub mod git;
pub mod keymap;
pub mod s3;
pub mod search;
pub mod settings;

verus! {

/// The pages that the navigation can show.
#[derive(Clone, Copy, PartialEq, Eq, Debug, Structural)]
pub enum PageKind {
    Explorer,
    Search,
    Git,
    S3,
    Extensions,
    Settings,
    KeyMap,
    Themes,
    IconThemes,
}

/// What a page shows while its feature is not built yet.
#[derive(Debug, PartialEq, Eq)]
pub struct Announcement {
    /// The headline.
    pub heading: String,
    /// The line below the headline.
    pub message: String,
}

impl PageKind {
    /// Every page, in the order of the navigation.
    pub open spec fn order() -> Seq<PageKind> {
        seq![
            PageKind::Explorer,
            PageKind::Search,
            PageKind::Git,
            PageKind::S3,
            PageKind::Extensions,
            PageKind::Settings,
            PageKind::KeyMap,
            PageKind::Themes,
            PageKind::IconThemes,
        ]
    }

    /// The position of the page in the navigation.
    pub open spec fn position(self) -> int {
        match self {
            PageKind::Explorer => 0,
            PageKind::Search => 1,
            PageKind::Git => 2,
            PageKind::S3 => 3,
            PageKind::Extensions => 4,
            PageKind::Settings => 5,
            PageKind::KeyMap => 6,
            PageKind::Themes => 7,
            PageKind::IconThemes => 8,
        }
    }

    /// The name of the page as the navigation shows it.
    pub open spec fn name(self) -> Seq<char> {
        match self {
            PageKind::Explorer => "Explorer"@,
            PageKind::Search => "Search"@,
            PageKind::Git => "Git"@,
            PageKind::S3 => "S3"@,
            PageKind::Extensions => "Extensions"@,
            PageKind::Settings => "Settings"@,
            PageKind::KeyMap => "Keymap"@,
            PageKind::Themes => "Themes"@,
            PageKind::IconThemes => "Icon Themes"@,
        }
    }

    /// The icon of the page in the navigation.
    pub open spec fn icon(self) -> IconName {
        match self {
            PageKind::Explorer => IconName::Folder,
            PageKind::Search => IconName::Search,
            PageKind::Git => IconName::GitHub,
            PageKind::S3 => IconName::HardDrive,
            PageKind::Extensions => IconName::LayoutDashboard,
            PageKind::Settings => IconName::Settings,
            PageKind::KeyMap => IconName::Keyboard,
            PageKind::Themes => IconName::Palette,
            PageKind::IconThemes => IconName::Drama,
        }
    }

    /// The name of the page as the navigation shows it.
    pub fn label(&self) -> (label: &'static str)
        ensures
            label@ == self.name(),
    {
        match self {
            PageKind::Explorer => "Explorer",
            PageKind::Search => "Search",
            PageKind::Git => "Git",
            PageKind::S3 => "S3",
            PageKind::Extensions => "Extensions",
            PageKind::Settings => "Settings",
            PageKind::KeyMap => "Keymap",
            PageKind::Themes => "Themes",
            PageKind::IconThemes => "Icon Themes",
        }
    }

    /// The icon of the page in the navigation.
    pub fn icon_name(&self) -> (icon: IconName)
        ensures
            icon == self.icon(),
    {
        match self {
            PageKind::Explorer => IconName::Folder,
            PageKind::Search => IconName::Search,
            PageKind::Git => IconName::GitHub,
            PageKind::S3 => IconName::HardDrive,
            PageKind::Extensions => IconName::LayoutDashboard,
            PageKind::Settings => IconName::Settings,
            PageKind::KeyMap => IconName::Keyboard,
            PageKind::Themes => IconName::Palette,
            PageKind::IconThemes => IconName::Drama,
        }
    }

    /// The position of the page in the navigation, counted from zero.
    pub fn index(&self) -> (index: usize)
        ensures
            index == self.position(),
            index < Self::order().len(),
            Self::order()[index as int] == *self,
    {
        match self {
            PageKind::Explorer => 0,
            PageKind::Search => 1,
            PageKind::Git => 2,
            PageKind::S3 => 3,
            PageKind::Extensions => 4,
            PageKind::Settings => 5,
            PageKind::KeyMap => 6,
            PageKind::Themes => 7,
            PageKind::IconThemes => 8,
        }
    }

    /// Every page, in the order of the navigation.
    pub fn all() -> (pages: Vec<PageKind>)
        ensures
            pages@ == Self::order(),
    {
        vec![
            PageKind::Explorer,
            PageKind::Search,
            PageKind::Git,
            PageKind::S3,
            PageKind::Extensions,
            PageKind::Settings,
            PageKind::KeyMap,
            PageKind::Themes,
            PageKind::IconThemes,
        ]
    }
}

/// The navigation lists every page, and each page once: a page stands at
/// its own position and at no other.
pub proof fn lemma_order_lists_every_page_once(kind: PageKind, i: int)
    ensures
        0 <= kind.position() < PageKind::order().len(),
        PageKind::order()[kind.position()] == kind,
        0 <= i < PageKind::order().len() && PageKind::order()[i] == kind ==> i == kind.position(),
{
}

} // verus!
