//! The shell around the pages: the root view with its navigation, and the
//! actions that menus and key bindings dispatch.

use vstd::prelude::*;

pub mod app;

pub use app::RootView;

verus! {

/// What the unified toolbar is given to show.
#[derive(Clone, Debug, PartialEq, Eq)]
pub struct UnifiedToolbarProps {
    /// The text on the sample button.
    pub sample_button_label: String,
}

impl Default for UnifiedToolbarProps {
    fn default() -> (props: UnifiedToolbarProps)
        ensures
            props.sample_button_label@ == "サンプル"@,
    {
        UnifiedToolbarProps { sample_button_label: "サンプル".to_owned() }
    }
}

/// The action that selects the font with the given index.
#[derive(Clone, Copy, Debug, PartialEq, Eq, Structural)]
pub struct SelectFont(pub usize);

/// The action that selects the corner radius with the given index.
#[derive(Clone, Copy, Debug, PartialEq, Eq, Structural)]
pub struct SelectRadius(pub usize);

/// The action that selects the locale with the given name.
#[derive(Debug, PartialEq, Eq)]
pub struct SelectLocale(pub String);

} // verus!
