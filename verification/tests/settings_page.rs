use nohrs::pages::settings::SettingsPage;
use nohrs::setting::{
    AppSettings, Axis, BoolKey, Control, CustomElement, Globals, GroupBoxVariant, Number,
    NumberKey, ResetError, SettingItem, SettingPage, SettingValue, Settings, Size, TextKey,
};

fn find<'a>(pages: &'a [SettingPage], label: &str) -> &'a SettingItem {
    for page in pages {
        for group in page.sections() {
            for item in group.rows() {
                if item.label().map(|l| l.as_str()) == Some(label) {
                    return item;
                }
            }
        }
    }
    panic!("no item labelled {}", label)
}

fn values(settings: &Settings, state: &AppSettings) -> Vec<Option<SettingValue>> {
    let mut found = Vec::new();
    for page in settings.entries() {
        for group in page.sections() {
            for item in group.rows() {
                found.push(item.value(state));
            }
        }
    }
    found
}

fn changed() -> AppSettings {
    let mut state = AppSettings::default();
    state.set_flag(BoolKey::DarkMode, true);
    state.set_flag(BoolKey::AutoSwitchTheme, true);
    state.set_text(TextKey::GroupVariant, "fill".to_string());
    state.set_text(TextKey::GroupSize, "small".to_string());
    state.set_text(TextKey::FontFamily, "Helvetica".to_string());
    state.set_number(NumberKey::FontSize, Number::whole(40));
    state.set_number(NumberKey::LineHeight, Number::whole(30));
    state.set_text(TextKey::CliPath, "/bin/zsh".to_string());
    state.set_flag(BoolKey::NotificationsEnabled, false);
    state.set_flag(BoolKey::AutoUpdate, false);
    state
}

#[test]
fn the_description_has_three_pages() {
    let state = AppSettings::default();
    let pages = SettingsPage::new().setting_pages(&state);
    let titles: Vec<&String> = pages.iter().map(|page| page.heading()).collect();
    assert_eq!(titles, ["General", "Software Update", "About"]);
    let open: Vec<bool> = pages.iter().map(|page| page.is_default_open()).collect();
    assert_eq!(open, [true, false, false]);
    let groups: Vec<Vec<Option<&String>>> = pages
        .iter()
        .map(|page| page.sections().iter().map(|group| group.heading()).collect())
        .collect();
    assert_eq!(groups[0], [Some(&"Appearance".to_string()), Some(&"Font".to_string()), Some(&"Other".to_string())]);
    assert_eq!(groups[1], [Some(&"Updates".to_string())]);
    assert_eq!(groups[2], [None, Some(&"Links".to_string())]);
    let sizes: Vec<Vec<usize>> = pages
        .iter()
        .map(|page| page.sections().iter().map(|group| group.rows().len()).collect())
        .collect();
    assert_eq!(sizes, [vec![5, 3, 2], vec![2], vec![1, 2]]);
}

#[test]
fn pages_are_resettable_as_the_settings_say() {
    let mut state = AppSettings::default();
    for page in SettingsPage::new().setting_pages(&state) {
        assert!(page.is_resettable());
    }
    state.set_flag(BoolKey::Resettable, false);
    for page in SettingsPage::new().setting_pages(&state) {
        assert!(!page.is_resettable());
    }
}

#[test]
fn the_description_declares_controls_and_defaults() {
    let state = AppSettings::default();
    let pages = SettingsPage::new().setting_pages(&state);

    let dark = find(&pages, "Dark Mode").field().unwrap();
    assert_eq!(dark.control(), &Control::Switch);
    assert_eq!(dark.default(), Some(&SettingValue::Bool(false)));

    let auto = find(&pages, "Auto Switch Theme").field().unwrap();
    assert_eq!(auto.control(), &Control::Checkbox);
    assert_eq!(auto.default(), Some(&SettingValue::Bool(false)));

    let resettable = find(&pages, "Resettable").field().unwrap();
    assert_eq!(resettable.default(), Some(&SettingValue::Bool(true)));

    let variant = find(&pages, "Group Variant").field().unwrap();
    assert_eq!(
        variant.control(),
        &Control::Dropdown(vec![
            ("normal".to_string(), "Normal".to_string()),
            ("outline".to_string(), "Outline".to_string()),
            ("fill".to_string(), "Fill".to_string()),
        ])
    );
    assert_eq!(variant.default(), Some(&SettingValue::Text("outline".to_string())));

    let size = find(&pages, "Group Size").field().unwrap();
    assert_eq!(
        size.control(),
        &Control::Dropdown(vec![
            ("medium".to_string(), "Medium".to_string()),
            ("small".to_string(), "Small".to_string()),
            ("xsmall".to_string(), "XSmall".to_string()),
        ])
    );
    assert_eq!(size.default(), Some(&SettingValue::Text("medium".to_string())));

    let family = find(&pages, "Font Family").field().unwrap();
    assert_eq!(family.default(), Some(&SettingValue::Text("Arial".to_string())));

    let font_size = find(&pages, "Font Size").field().unwrap();
    match font_size.control() {
        Control::NumberInput(options) => {
            assert_eq!(options.min, Number::whole(8));
            assert_eq!(options.max, Number::whole(72));
            assert_eq!(options.step, Number::whole(1));
        }
        other => panic!("unexpected control {:?}", other),
    }
    assert_eq!(font_size.default(), Some(&SettingValue::Number(Number::whole(14))));

    let line_height = find(&pages, "Line Height").field().unwrap();
    match line_height.control() {
        Control::NumberInput(options) => {
            assert_eq!(options.min, Number::whole(8));
            assert_eq!(options.max, Number::whole(32));
        }
        other => panic!("unexpected control {:?}", other),
    }
    assert_eq!(line_height.default(), Some(&SettingValue::Number(Number::whole(12))));

    let cli = find(&pages, "CLI Path");
    assert_eq!(cli.axis(), Some(Axis::Vertical));
    assert_eq!(cli.field().unwrap().control(), &Control::Input);
    assert_eq!(
        cli.field().unwrap().default(),
        Some(&SettingValue::Text("/usr/local/bin/bash".to_string()))
    );
    assert_eq!(
        cli.description_text(),
        Some(&"Path to the CLI executable. \nThis item uses Vertical layout.".to_string())
    );

    let updates = find(&pages, "Auto Update").field().unwrap();
    assert_eq!(updates.default(), Some(&SettingValue::Bool(true)));
    let notifications = find(&pages, "Enable Notifications").field().unwrap();
    assert_eq!(notifications.default(), Some(&SettingValue::Bool(true)));
}

#[test]
fn the_description_holds_the_custom_elements() {
    let state = AppSettings::default();
    let pages = SettingsPage::new().setting_pages(&state);
    match pages[0].sections()[2].rows()[0].element() {
        Some(CustomElement::Link { text, button, .. }) => {
            assert_eq!(text, "This is a custom element item.");
            assert_eq!(button.label(), "Repository...");
            assert_eq!(button.url(), "https://github.com/longbridge/gpui-component");
        }
        other => panic!("unexpected element {:?}", other),
    }
    match pages[2].sections()[0].rows()[0].element() {
        Some(CustomElement::Banner { title, caption, .. }) => {
            assert_eq!(title, "NOHRS - File Manager");
            assert_eq!(caption, "A modern file manager built with GPUI.");
        }
        other => panic!("unexpected element {:?}", other),
    }
    let docs = find(&pages, "Documentation").field().unwrap();
    assert!(docs.is_custom());
    match docs.control() {
        Control::Element(element) => {
            assert_eq!(element.label(), "Rust Docs...");
            assert_eq!(element.url(), "https://docs.rs/gpui-component");
        }
        other => panic!("unexpected control {:?}", other),
    }
}

#[test]
fn getters_see_the_live_state() {
    let mut state = AppSettings::default();
    let pages = SettingsPage::new().setting_pages(&state);
    let family = find(&pages, "Font Family");
    assert_eq!(family.value(&state), Some(SettingValue::Text("Arial".to_string())));
    state.set_text(TextKey::FontFamily, "Courier New".to_string());
    assert_eq!(family.value(&state), Some(SettingValue::Text("Courier New".to_string())));
}

#[test]
fn building_twice_gives_the_same_values() {
    let state = changed();
    let view = SettingsPage::new();
    let first = view.build(&state);
    let second = view.build(&state);
    assert_eq!(values(&first, &state), values(&second, &state));
    assert_eq!(first.size(), second.size());
    assert_eq!(first.group_variant(), second.group_variant());
    assert_eq!(first.entries().len(), second.entries().len());
    assert_eq!(state, changed());
}

#[test]
fn build_takes_the_presentation_from_the_settings() {
    let state = AppSettings::default();
    let registry = SettingsPage::new().build(&state);
    assert_eq!(registry.id(), "app-settings");
    assert_eq!(registry.size(), Size::Medium);
    assert_eq!(registry.group_variant(), GroupBoxVariant::Outline);
    let registry = SettingsPage::new().build(&changed());
    assert_eq!(registry.size(), Size::Small);
    assert_eq!(registry.group_variant(), GroupBoxVariant::Fill);
}

#[test]
fn render_installs_fresh_settings_once() {
    let mut cx = Globals::new();
    let view = SettingsPage::default();
    let first = view.render(&mut cx);
    assert!(cx.has_global());
    assert_eq!(AppSettings::global(&cx), &AppSettings::default());
    AppSettings::global_mut(&mut cx).set_flag(BoolKey::DarkMode, true);
    let second = view.render(&mut cx);
    assert!(AppSettings::global(&cx).flag(BoolKey::DarkMode));
    assert_eq!(first.entries().len(), 3);
    assert_eq!(second.entries().len(), 3);
}

#[test]
fn ensure_initialized_keeps_installed_settings() {
    let mut cx = Globals::new();
    cx.set_global(changed());
    SettingsPage::ensure_settings_initialized(&mut cx);
    assert_eq!(AppSettings::global(&cx), &changed());
    let mut empty = Globals::new();
    SettingsPage::ensure_settings_initialized(&mut empty);
    assert_eq!(AppSettings::global(&empty), &AppSettings::default());
}

#[test]
fn resetting_general_restores_every_default_of_the_page() {
    let mut state = changed();
    let registry = SettingsPage::new().build(&state);
    assert_eq!(registry.reset(0, &mut state), Ok(()));
    for group in registry.entries()[0].sections() {
        for item in group.rows() {
            if let Some(field) = item.field() {
                assert_eq!(item.value(&state).as_ref(), field.default());
            }
        }
    }
    assert!(!state.flag(BoolKey::NotificationsEnabled));
    assert!(!state.flag(BoolKey::AutoUpdate));
    let mut expected = AppSettings::default();
    expected.set_flag(BoolKey::NotificationsEnabled, false);
    expected.set_flag(BoolKey::AutoUpdate, false);
    assert_eq!(state, expected);
}

#[test]
fn resetting_software_update_touches_only_its_settings() {
    let mut state = changed();
    let registry = SettingsPage::new().build(&state);
    assert_eq!(registry.reset(1, &mut state), Ok(()));
    let mut expected = changed();
    expected.set_flag(BoolKey::NotificationsEnabled, true);
    expected.set_flag(BoolKey::AutoUpdate, true);
    assert_eq!(state, expected);
}

#[test]
fn resetting_about_changes_nothing() {
    let mut state = changed();
    let registry = SettingsPage::new().build(&state);
    assert_eq!(registry.reset(2, &mut state), Ok(()));
    assert_eq!(state, changed());
    assert_eq!(registry.reset(3, &mut state), Err(ResetError::UnknownPage));
}

#[test]
fn nothing_is_reset_while_resetting_is_switched_off() {
    let mut state = changed();
    state.set_flag(BoolKey::Resettable, false);
    let before = state.clone();
    let registry = SettingsPage::new().build(&state);
    for page in 0..3 {
        assert_eq!(registry.reset(page, &mut state), Err(ResetError::NotResettable));
    }
    assert_eq!(state, before);
}

#[test]
fn no_page_of_the_description_is_modified_after_its_reset() {
    for page in 0..3 {
        let mut state = changed();
        let registry = SettingsPage::new().build(&state);
        assert_eq!(registry.reset(page, &mut state), Ok(()));
        assert!(!registry.entries()[page].is_modified(&state));
    }
    let state = changed();
    let registry = SettingsPage::new().build(&state);
    assert!(registry.entries()[0].is_modified(&state));
    assert!(registry.entries()[1].is_modified(&state));
    assert!(!registry.entries()[2].is_modified(&state));
}
