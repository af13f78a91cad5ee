//! The root view: which page is shown, and how the navigation and the account
//! menu change it.

use vstd::prelude::*;
use crate::icon::IconName;
use crate::pages::PageKind;

verus! {

/// The entries of the account menu.
#[derive(Clone, Copy, Debug, PartialEq, Eq, Structural)]
pub enum AccountMenuCommand {
    ProfileSummary,
    Settings,
    Extensions,
    Keymap,
    Themes,
    IconThemes,
    SignOut,
}

/// The action that the account menu dispatches.
#[derive(Clone, Copy, Debug, PartialEq, Eq, Structural)]
pub struct AccountMenuAction {
    pub command: AccountMenuCommand,
}

/// What is written to the log when an account-menu entry is chosen.
#[derive(Clone, Copy, Debug, PartialEq, Eq, Structural)]
pub enum LogEntry {
    /// The entry has no page yet.
    NotImplemented(AccountMenuCommand),
    /// The user asked to sign out.
    SignOutRequested,
}

/// What the host has to do after the root view has handled an action.
#[derive(Clone, Copy, Debug, PartialEq, Eq, Structural)]
pub struct Reaction {
    /// Whether the view changed and has to be drawn again.
    pub notify: bool,
    /// Whether the default handling of the action is to be suppressed.
    pub prevent_default: bool,
    /// What to write to the log, if anything.
    pub log: Option<LogEntry>,
}

/// One button of the navigation bar.
#[derive(Clone, Copy, Debug, PartialEq, Eq, Structural)]
pub struct NavigationButton {
    /// The page that the button opens.
    pub page: PageKind,
    /// The number that tells the button's element from its siblings.
    pub id: usize,
    /// The icon on the button.
    pub icon: IconName,
    /// Whether the button's page is the one shown.
    pub active: bool,
}

/// The root view of the application window.
#[derive(Clone, Copy, Debug, PartialEq, Eq, Structural)]
pub struct RootView {
    current_page: PageKind,
}

impl AccountMenuCommand {
    /// The page that the entry opens, where it opens one.
    pub open spec fn target(self) -> Option<PageKind> {
        match self {
            AccountMenuCommand::Settings => Some(PageKind::Settings),
            AccountMenuCommand::Extensions => Some(PageKind::Extensions),
            _ => None,
        }
    }

    /// The page shown after the entry is chosen while `current` is shown:
    /// the page that the entry opens, or `current` where it opens none.
    pub open spec fn leads_to(self, current: PageKind) -> PageKind {
        match self.target() {
            Some(page) => page,
            None => current,
        }
    }

    /// What the host has to do when the entry is chosen while `current` is
    /// shown.
    ///
    /// An entry that opens a page asks for a redraw exactly if the page
    /// changes. The profile summary only suppresses the default handling.
    /// An entry without a page is logged and suppressed. Signing out is
    /// logged.
    pub open spec fn reaction(self, current: PageKind) -> Reaction {
        match self {
            AccountMenuCommand::ProfileSummary => Reaction {
                notify: false,
                prevent_default: true,
                log: None,
            },
            AccountMenuCommand::Settings => Reaction {
                notify: current != PageKind::Settings,
                prevent_default: false,
                log: None,
            },
            AccountMenuCommand::Extensions => Reaction {
                notify: current != PageKind::Extensions,
                prevent_default: false,
                log: None,
            },
            AccountMenuCommand::Keymap | AccountMenuCommand::Themes | AccountMenuCommand::IconThemes => Reaction {
                notify: false,
                prevent_default: true,
                log: Some(LogEntry::NotImplemented(self)),
            },
            AccountMenuCommand::SignOut => Reaction {
                notify: false,
                prevent_default: false,
                log: Some(LogEntry::SignOutRequested),
            },
        }
    }
}

impl RootView {
    /// The page that the view shows.
    pub closed spec fn page(self) -> PageKind {
        self.current_page
    }

    /// The button of `page` in the navigation of a view that shows
    /// `current`.
    pub open spec fn button(page: PageKind, current: PageKind) -> NavigationButton {
        NavigationButton {
            page,
            id: page.position() as usize,
            icon: page.icon(),
            active: page == current,
        }
    }

    /// The root view of a fresh window. It shows the explorer.
    pub fn new() -> (view: RootView)
        ensures
            view.page() == PageKind::Explorer,
    {
        RootView { current_page: PageKind::Explorer }
    }

    /// The page that the view shows.
    pub fn current_page(&self) -> (page: PageKind)
        ensures
            page == self.page(),
    {
        self.current_page
    }

    /// Shows `page`. Says whether the view changed, that is whether it has
    /// to be drawn again.
    pub fn set_page(&mut self, page: PageKind) -> (changed: bool)
        ensures
            final(self).page() == page,
            changed == (old(self).page() != page),
    {
        if self.current_page != page {
            self.current_page = page;
            true
        } else {
            false
        }
    }

    /// Handles an action of the account menu: shows the page that the entry
    /// opens, where it opens one, and says what is left for the host to do.
    pub fn handle_account_action(&mut self, action: &AccountMenuAction) -> (reaction: Reaction)
        ensures
            final(self).page() == action.command.leads_to(old(self).page()),
            reaction == action.command.reaction(old(self).page()),
    {
        match action.command {
            AccountMenuCommand::ProfileSummary => Reaction {
                notify: false,
                prevent_default: true,
                log: None,
            },
            AccountMenuCommand::Settings => {
                let notify = self.set_page(PageKind::Settings);
                Reaction { notify, prevent_default: false, log: None }
            },
            AccountMenuCommand::Extensions => {
                let notify = self.set_page(PageKind::Extensions);
                Reaction { notify, prevent_default: false, log: None }
            },
            AccountMenuCommand::Keymap | AccountMenuCommand::Themes | AccountMenuCommand::IconThemes => Reaction {
                notify: false,
                prevent_default: true,
                log: Some(LogEntry::NotImplemented(action.command)),
            },
            AccountMenuCommand::SignOut => Reaction {
                notify: false,
                prevent_default: false,
                log: Some(LogEntry::SignOutRequested),
            },
        }
    }

    /// The button of `page` in the navigation, drawn as active or not.
    pub fn navigation_button(&self, page: PageKind, active: bool) -> (button: NavigationButton)
        ensures
            button == (NavigationButton {
                page,
                id: page.position() as usize,
                icon: page.icon(),
                active,
            }),
    {
        NavigationButton { page, id: page.index(), icon: page.icon_name(), active }
    }

    /// The buttons of the navigation bar: one for every page, in the order
    /// of the navigation, the button of the page shown being the active one.
    pub fn render_navigation(&self) -> (buttons: Vec<NavigationButton>)
        ensures
            buttons@.len() == PageKind::order().len(),
            forall|i: int|
                0 <= i < buttons@.len() ==> #[trigger] buttons@[i] == Self::button(
                    PageKind::order()[i],
                    self.page(),
                ),
    {
        let active_page = self.current_page;
        let pages = PageKind::all();
        let mut buttons: Vec<NavigationButton> = Vec::new();
        let mut i: usize = 0;
        while i < pages.len()
            invariant
                i <= pages.len(),
                pages@ == PageKind::order(),
                active_page == self.page(),
                buttons@.len() == i,
                forall|j: int|
                    0 <= j < i ==> #[trigger] buttons@[j] == Self::button(
                        PageKind::order()[j],
                        self.page(),
                    ),
            decreases pages.len() - i,
        {
            let page = pages[i];
            let is_active = active_page == page;
            buttons.push(self.navigation_button(page, is_active));
            i += 1;
        }
        buttons
    }

    /// The notice to show when search is toggled: none while a text input
    /// has the focus, which then takes the key for itself.
    pub fn on_action_toggle_search(&self, input_focused: bool) -> (notice: Option<&'static str>)
        ensures
            notice is None <==> input_focused,
            notice matches Some(text) ==> text@ == "You have toggled search."@,
    {
        if input_focused {
            return None;
        }
        Some("You have toggled search.")
    }
}

/// Exactly one button of the navigation is active: the one at the position
/// of the page shown.
pub proof fn lemma_one_active_button(current: PageKind, i: int)
    requires
        0 <= i < PageKind::order().len(),
    ensures
        RootView::button(PageKind::order()[i], current).active <==> i == current.position(),
{
}

} // verus!
