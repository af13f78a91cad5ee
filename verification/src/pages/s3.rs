//! The page of the S3 storage browser.

use vstd::prelude::*;
use crate::pages::{Announcement, PageKind};

verus! {

/// The page of the S3 storage browser. The feature is not built yet; the page announces it.
#[derive(Clone, Copy, Debug, PartialEq, Eq, Structural)]
pub struct S3Page;

impl S3Page {
    /// The page.
    pub fn new() -> (page: Self) {
        Self
    }

    /// The entry of the navigation that opens this page.
    pub fn kind(&self) -> (kind: PageKind)
        ensures
            kind == PageKind::S3,
    {
        PageKind::S3
    }

    /// What the page shows: its headline and the announcement below it.
    pub fn content(&self) -> (shown: Announcement)
        ensures
            shown.heading@ == "☁️ S3"@,
            shown.message@ == "S3 compatible storage integration to be implemented"@,
    {
        Announcement {
            heading: "☁️ S3".to_owned(),
            message: "S3 compatible storage integration to be implemented".to_owned(),
        }
    }
}

} // verus!
