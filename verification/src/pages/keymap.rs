//! The page of the keymap editor.

use vstd::prelude::*;
use crate::pages::{Announcement, PageKind};

verus! {

/// The page of the keymap editor. The feature is not built yet; the page announces it.
#[derive(Clone, Copy, Debug, PartialEq, Eq, Structural)]
pub struct KeymapPage;

impl KeymapPage {
    /// The page.
    pub fn new() -> (page: Self) {
        Self
    }

    /// The entry of the navigation that opens this page.
    pub fn kind(&self) -> (kind: PageKind)
        ensures
            kind == PageKind::KeyMap,
    {
        PageKind::KeyMap
    }

    /// What the page shows: its headline and the announcement below it.
    pub fn content(&self) -> (shown: Announcement)
        ensures
            shown.heading@ == "⌨️ Keymap"@,
            shown.message@ == "Keymap customization feature to be implemented"@,
    {
        Announcement {
            heading: "⌨️ Keymap".to_owned(),
            message: "Keymap customization feature to be implemented".to_owned(),
        }
    }
}

} // verus!
