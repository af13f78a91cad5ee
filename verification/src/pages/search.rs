//! The page of the full-text search.

use vstd::prelude::*;
use crate::pages::{Announcement, PageKind};

verus! {

/// The page of the full-text search. The feature is not built yet; the page announces it.
#[derive(Clone, Copy, Debug, PartialEq, Eq, Structural)]
pub struct SearchPage;

impl SearchPage {
    /// The page.
    pub fn new() -> (page: Self) {
        Self
    }

    /// The entry of the navigation that opens this page.
    pub fn kind(&self) -> (kind: PageKind)
        ensures
            kind == PageKind::Search,
    {
        PageKind::Search
    }

    /// What the page shows: its headline and the announcement below it.
    pub fn content(&self) -> (shown: Announcement)
        ensures
            shown.heading@ == "🔍 Search"@,
            shown.message@ == "Full-text search feature to be implemented"@,
    {
        Announcement {
            heading: "🔍 Search".to_owned(),
            message: "Full-text search feature to be implemented".to_owned(),
        }
    }
}

} // verus!
