//! The page of the Git integration.

use vstd::prelude::*;
use crate::pages::{Announcement, PageKind};

verus! {

/// The page of the Git integration. The feature is not built yet; the page announces it.
#[derive(Clone, Copy, Debug, PartialEq, Eq, Structural)]
pub struct GitPage;

impl GitPage {
    /// The page.
    pub fn new() -> (page: Self) {
        Self
    }

    /// The entry of the navigation that opens this page.
    pub fn kind(&self) -> (kind: PageKind)
        ensures
            kind == PageKind::Git,
    {
        PageKind::Git
    }

    /// What the page shows: its headline and the announcement below it.
    pub fn content(&self) -> (shown: Announcement)
        ensures
            shown.heading@ == "📦 Git"@,
            shown.message@ == "Git integration feature to be implemented"@,
    {
        Announcement {
            heading: "📦 Git".to_owned(),
            message: "Git integration feature to be implemented".to_owned(),
        }
    }
}

} // verus!
