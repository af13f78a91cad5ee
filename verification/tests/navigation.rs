use nohrs::icon::IconName;
use nohrs::pages::git::GitPage;
use nohrs::pages::keymap::KeymapPage;
use nohrs::pages::s3::S3Page;
use nohrs::pages::search::SearchPage;
use nohrs::pages::PageKind;
use nohrs::ui::app::{AccountMenuAction, AccountMenuCommand, LogEntry, Reaction};
use nohrs::ui::{RootView, SelectFont, SelectLocale, SelectRadius, UnifiedToolbarProps};

#[test]
fn page_labels() {
    assert_eq!(PageKind::Explorer.label(), "Explorer");
    assert_eq!(PageKind::Search.label(), "Search");
    assert_eq!(PageKind::Git.label(), "Git");
    assert_eq!(PageKind::S3.label(), "S3");
    assert_eq!(PageKind::Extensions.label(), "Extensions");
    assert_eq!(PageKind::Settings.label(), "Settings");
    assert_eq!(PageKind::KeyMap.label(), "Keymap");
    assert_eq!(PageKind::Themes.label(), "Themes");
    assert_eq!(PageKind::IconThemes.label(), "Icon Themes");
}

#[test]
fn page_icons() {
    assert_eq!(PageKind::Explorer.icon_name(), IconName::Folder);
    assert_eq!(PageKind::Search.icon_name(), IconName::Search);
    assert_eq!(PageKind::Git.icon_name(), IconName::GitHub);
    assert_eq!(PageKind::S3.icon_name(), IconName::HardDrive);
    assert_eq!(PageKind::Extensions.icon_name(), IconName::LayoutDashboard);
    assert_eq!(PageKind::Settings.icon_name(), IconName::Settings);
    assert_eq!(PageKind::KeyMap.icon_name(), IconName::Keyboard);
    assert_eq!(PageKind::Themes.icon_name(), IconName::Palette);
    assert_eq!(PageKind::IconThemes.icon_name(), IconName::Drama);
}

#[test]
fn all_lists_every_page_in_order() {
    assert_eq!(
        PageKind::all(),
        vec![
            PageKind::Explorer,
            PageKind::Search,
            PageKind::Git,
            PageKind::S3,
            PageKind::Extensions,
            PageKind::Settings,
            PageKind::KeyMap,
            PageKind::Themes,
            PageKind::IconThemes,
        ]
    );
}

#[test]
fn index_is_the_position_in_all() {
    let all = PageKind::all();
    for (position, page) in all.iter().enumerate() {
        assert_eq!(page.index(), position);
    }
}

#[test]
fn pages_announce_their_feature() {
    let search = SearchPage::new();
    assert_eq!(search.kind(), PageKind::Search);
    assert_eq!(search.content().heading, "🔍 Search");
    assert_eq!(search.content().message, "Full-text search feature to be implemented");
    let git = GitPage::new();
    assert_eq!(git.kind(), PageKind::Git);
    assert_eq!(git.content().heading, "📦 Git");
    assert_eq!(git.content().message, "Git integration feature to be implemented");
    let keymap = KeymapPage::new();
    assert_eq!(keymap.kind(), PageKind::KeyMap);
    assert_eq!(keymap.content().heading, "⌨️ Keymap");
    assert_eq!(keymap.content().message, "Keymap customization feature to be implemented");
    let s3 = S3Page::new();
    assert_eq!(s3.kind(), PageKind::S3);
    assert_eq!(s3.content().heading, "☁️ S3");
    assert_eq!(s3.content().message, "S3 compatible storage integration to be implemented");
}

#[test]
fn a_fresh_root_view_shows_the_explorer() {
    assert_eq!(RootView::new().current_page(), PageKind::Explorer);
}

#[test]
fn set_page_reports_a_change() {
    let mut view = RootView::new();
    assert!(view.set_page(PageKind::Git));
    assert_eq!(view.current_page(), PageKind::Git);
    assert!(!view.set_page(PageKind::Git));
    assert_eq!(view.current_page(), PageKind::Git);
    assert!(view.set_page(PageKind::Explorer));
    assert_eq!(view.current_page(), PageKind::Explorer);
}

fn act(view: &mut RootView, command: AccountMenuCommand) -> Reaction {
    view.handle_account_action(&AccountMenuAction { command })
}

#[test]
fn account_menu_opens_settings_and_extensions() {
    let mut view = RootView::new();
    assert_eq!(
        act(&mut view, AccountMenuCommand::Settings),
        Reaction { notify: true, prevent_default: false, log: None }
    );
    assert_eq!(view.current_page(), PageKind::Settings);
    assert_eq!(
        act(&mut view, AccountMenuCommand::Settings),
        Reaction { notify: false, prevent_default: false, log: None }
    );
    assert_eq!(view.current_page(), PageKind::Settings);
    assert_eq!(
        act(&mut view, AccountMenuCommand::Extensions),
        Reaction { notify: true, prevent_default: false, log: None }
    );
    assert_eq!(view.current_page(), PageKind::Extensions);
}

#[test]
fn account_menu_entries_without_a_page_keep_the_page() {
    for command in
        [AccountMenuCommand::Keymap, AccountMenuCommand::Themes, AccountMenuCommand::IconThemes]
    {
        let mut view = RootView::new();
        view.set_page(PageKind::Search);
        assert_eq!(
            act(&mut view, command),
            Reaction {
                notify: false,
                prevent_default: true,
                log: Some(LogEntry::NotImplemented(command)),
            }
        );
        assert_eq!(view.current_page(), PageKind::Search);
    }
}

#[test]
fn profile_summary_and_sign_out_keep_the_page() {
    let mut view = RootView::new();
    assert_eq!(
        act(&mut view, AccountMenuCommand::ProfileSummary),
        Reaction { notify: false, prevent_default: true, log: None }
    );
    assert_eq!(
        act(&mut view, AccountMenuCommand::SignOut),
        Reaction { notify: false, prevent_default: false, log: Some(LogEntry::SignOutRequested) }
    );
    assert_eq!(view.current_page(), PageKind::Explorer);
}

#[test]
fn navigation_has_one_button_per_page() {
    let mut view = RootView::new();
    view.set_page(PageKind::S3);
    let buttons = view.render_navigation();
    let all = PageKind::all();
    assert_eq!(buttons.len(), all.len());
    for (position, button) in buttons.iter().enumerate() {
        assert_eq!(button.page, all[position]);
        assert_eq!(button.id, position);
        assert_eq!(button.icon, all[position].icon_name());
        assert_eq!(button.active, all[position] == PageKind::S3);
    }
    assert_eq!(buttons.iter().filter(|button| button.active).count(), 1);
}

#[test]
fn navigation_button_takes_the_given_state() {
    let view = RootView::new();
    let button = view.navigation_button(PageKind::Themes, false);
    assert_eq!(button.page, PageKind::Themes);
    assert_eq!(button.id, 7);
    assert_eq!(button.icon, IconName::Palette);
    assert!(!button.active);
    assert!(view.navigation_button(PageKind::Themes, true).active);
}

#[test]
fn toggling_search_is_silent_while_an_input_has_focus() {
    let view = RootView::new();
    assert_eq!(view.on_action_toggle_search(true), None);
    assert_eq!(view.on_action_toggle_search(false), Some("You have toggled search."));
}

#[test]
fn selection_actions_carry_their_payload() {
    assert_eq!(SelectFont(3).0, 3);
    assert_eq!(SelectRadius(8).0, 8);
    assert_eq!(SelectFont(3), SelectFont(3));
    assert_ne!(SelectRadius(1), SelectRadius(2));
    assert_eq!(SelectLocale("ja".to_string()).0, "ja");
}

#[test]
fn toolbar_props_default_to_the_sample_label() {
    assert_eq!(UnifiedToolbarProps::default().sample_button_label, "サンプル");
}
