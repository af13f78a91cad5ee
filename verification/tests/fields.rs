use nohrs::setting::{
    Accessor, AppSettings, Axis, BoolKey, ConfigError, Control, GroupBoxVariant, Number,
    NumberFieldOptions, NumberKey, OpenURLSettingField, RenderOptions, SettingField, SettingItem,
    SettingValue, Size, TextKey, ValueKind,
};

fn text(value: &str) -> SettingValue {
    SettingValue::Text(value.to_string())
}

fn bounds(min: i32, max: i32) -> NumberFieldOptions {
    NumberFieldOptions { min: Number::whole(min), max: Number::whole(max), ..Default::default() }
}

fn fonts() -> Vec<(String, String)> {
    vec![
        ("Arial".to_string(), "Arial".to_string()),
        ("Helvetica".to_string(), "Helvetica".to_string()),
    ]
}

#[test]
fn number_counts_thousandths() {
    assert_eq!(Number::whole(14).millis(), 14_000);
    assert_eq!(Number::whole(-3).millis(), -3_000);
    assert_eq!(Number::from_millis(14_500).millis(), 14_500);
    assert_eq!(Number::whole(0), Number::from_millis(0));
    assert_eq!(Number::lowest().millis(), i64::MIN);
    assert_eq!(Number::highest().millis(), i64::MAX);
}

#[test]
fn number_orders_by_value() {
    assert!(Number::whole(8).lt(&Number::whole(9)));
    assert!(!Number::whole(9).lt(&Number::whole(9)));
    assert!(Number::whole(9).le(&Number::whole(9)));
    assert!(!Number::whole(10).le(&Number::whole(9)));
}

#[test]
fn number_clamp_limits_to_the_interval() {
    let min = Number::whole(8);
    let max = Number::whole(72);
    assert_eq!(Number::whole(100).clamp(min, max), Number::whole(72));
    assert_eq!(Number::whole(1).clamp(min, max), Number::whole(8));
    assert_eq!(Number::whole(14).clamp(min, max), Number::whole(14));
    assert_eq!(Number::whole(8).clamp(min, max), Number::whole(8));
    assert_eq!(Number::whole(72).clamp(min, max), Number::whole(72));
    assert_eq!(Number::from_millis(72_001).clamp(min, max), Number::whole(72));
    assert_eq!(Number::from_millis(7_999).clamp(min, max), Number::whole(8));
}

#[test]
fn default_number_options_have_no_bounds() {
    let options = NumberFieldOptions::default();
    assert_eq!(options.min, Number::lowest());
    assert_eq!(options.max, Number::highest());
    assert_eq!(options.step, Number::whole(1));
    assert!(options.is_valid());
}

#[test]
fn number_options_are_valid_when_ordered() {
    assert!(bounds(8, 72).is_valid());
    assert!(bounds(8, 8).is_valid());
    assert!(!bounds(9, 8).is_valid());
}

#[test]
fn value_kinds() {
    assert_eq!(SettingValue::Bool(true).kind(), ValueKind::Bool);
    assert_eq!(text("a").kind(), ValueKind::Text);
    assert_eq!(SettingValue::Number(Number::whole(1)).kind(), ValueKind::Number);
    assert_eq!(Accessor::Bool(BoolKey::DarkMode).kind(), ValueKind::Bool);
    assert_eq!(Accessor::Text(TextKey::CliPath).kind(), ValueKind::Text);
    assert_eq!(Accessor::Number(NumberKey::FontSize).kind(), ValueKind::Number);
}

#[test]
fn value_same_compares_kind_and_content() {
    assert!(SettingValue::Bool(true).same(&SettingValue::Bool(true)));
    assert!(!SettingValue::Bool(true).same(&SettingValue::Bool(false)));
    assert!(text("a").same(&text("a")));
    assert!(!text("a").same(&text("b")));
    assert!(!text("1").same(&SettingValue::Number(Number::from_millis(1))));
    assert!(SettingValue::Number(Number::whole(2)).same(&SettingValue::Number(Number::whole(2))));
    assert_eq!(text("a").clone(), text("a"));
}

#[test]
fn size_names_round_trip() {
    for size in [Size::XSmall, Size::Small, Size::Medium, Size::Large] {
        assert_eq!(Size::from_str(size.as_str()), size);
    }
    assert_eq!(Size::Medium.as_str(), "medium");
    assert_eq!(Size::XSmall.as_str(), "xsmall");
    assert_eq!(Size::from_str("huge"), Size::Medium);
    assert_eq!(Size::from_str(""), Size::Medium);
    assert_eq!(Size::default(), Size::Medium);
}

#[test]
fn variant_names_round_trip() {
    for variant in [GroupBoxVariant::Normal, GroupBoxVariant::Fill, GroupBoxVariant::Outline] {
        assert_eq!(GroupBoxVariant::from_str(variant.as_str()), variant);
    }
    assert_eq!(GroupBoxVariant::Outline.as_str(), "outline");
    assert_eq!(GroupBoxVariant::from_str("dotted"), GroupBoxVariant::Normal);
    assert_eq!(GroupBoxVariant::default(), GroupBoxVariant::Normal);
}

#[test]
fn switch_reads_what_was_written() {
    let mut state = AppSettings::default();
    let field = SettingField::switch(BoolKey::AutoUpdate);
    assert_eq!(field.value(&state), Some(SettingValue::Bool(true)));
    assert!(field.set_value(SettingValue::Bool(false), &mut state));
    assert_eq!(field.value(&state), Some(SettingValue::Bool(false)));
    assert!(field.set_value(SettingValue::Bool(true), &mut state));
    assert_eq!(field.value(&state), Some(SettingValue::Bool(true)));
}

#[test]
fn checkbox_reads_what_was_written() {
    let mut state = AppSettings::default();
    let field = SettingField::checkbox(BoolKey::AutoSwitchTheme);
    assert!(field.set_value(SettingValue::Bool(true), &mut state));
    assert_eq!(field.value(&state), Some(SettingValue::Bool(true)));
    assert!(state.flag(BoolKey::AutoSwitchTheme));
}

#[test]
fn input_reads_what_was_written() {
    let mut state = AppSettings::default();
    let field = SettingField::input(TextKey::CliPath);
    assert!(field.set_value(text("/bin/zsh"), &mut state));
    assert_eq!(field.value(&state), Some(text("/bin/zsh")));
    assert!(field.set_value(text(""), &mut state));
    assert_eq!(field.value(&state), Some(text("")));
}

#[test]
fn number_input_reads_the_clamped_value() {
    let mut state = AppSettings::default();
    let field = SettingField::number_input(bounds(8, 72), NumberKey::FontSize).unwrap();
    assert!(field.set_value(SettingValue::Number(Number::whole(20)), &mut state));
    assert_eq!(field.value(&state), Some(SettingValue::Number(Number::whole(20))));
    assert!(field.set_value(SettingValue::Number(Number::whole(100)), &mut state));
    assert_eq!(field.value(&state), Some(SettingValue::Number(Number::whole(72))));
    assert!(field.set_value(SettingValue::Number(Number::whole(-5)), &mut state));
    assert_eq!(field.value(&state), Some(SettingValue::Number(Number::whole(8))));
}

#[test]
fn number_input_below_min_behaves_as_min() {
    let field = SettingField::number_input(bounds(8, 72), NumberKey::FontSize).unwrap();
    let mut below = AppSettings::default();
    let mut at = AppSettings::default();
    field.set_value(SettingValue::Number(Number::whole(7)), &mut below);
    field.set_value(SettingValue::Number(Number::whole(8)), &mut at);
    assert_eq!(below, at);
    assert_eq!(below.number(NumberKey::FontSize), Number::whole(8));
}

#[test]
fn number_input_above_max_behaves_as_max() {
    let field = SettingField::number_input(bounds(8, 72), NumberKey::FontSize).unwrap();
    let mut above = AppSettings::default();
    let mut at = AppSettings::default();
    field.set_value(SettingValue::Number(Number::whole(73)), &mut above);
    field.set_value(SettingValue::Number(Number::whole(72)), &mut at);
    assert_eq!(above, at);
    assert_eq!(above.number(NumberKey::FontSize), Number::whole(72));
}

#[test]
fn number_input_with_equal_bounds_stores_the_bound() {
    let mut state = AppSettings::default();
    let field = SettingField::number_input(bounds(10, 10), NumberKey::LineHeight).unwrap();
    field.set_value(SettingValue::Number(Number::whole(3)), &mut state);
    assert_eq!(state.number(NumberKey::LineHeight), Number::whole(10));
    field.set_value(SettingValue::Number(Number::whole(30)), &mut state);
    assert_eq!(state.number(NumberKey::LineHeight), Number::whole(10));
}

#[test]
fn dropdown_stores_a_listed_value() {
    let mut state = AppSettings::default();
    let field = SettingField::dropdown(fonts(), TextKey::FontFamily).unwrap();
    assert!(field.set_value(text("Helvetica"), &mut state));
    assert_eq!(field.value(&state), Some(text("Helvetica")));
}

#[test]
fn dropdown_ignores_an_unlisted_value() {
    let mut state = AppSettings::default();
    let field = SettingField::dropdown(fonts(), TextKey::FontFamily).unwrap();
    assert!(field.set_value(text("Helvetica"), &mut state));
    let before = state.clone();
    assert!(!field.set_value(text("Comic Sans"), &mut state));
    assert_eq!(state, before);
    assert_eq!(field.value(&state), Some(text("Helvetica")));
    assert!(!field.set_value(text("helvetica"), &mut state));
    assert_eq!(state, before);
}

#[test]
fn dropdown_matches_stored_values_not_labels() {
    let mut state = AppSettings::default();
    let options = vec![("outline".to_string(), "Outline".to_string())];
    let field = SettingField::dropdown(options, TextKey::GroupVariant).unwrap();
    let before = state.clone();
    assert!(!field.set_value(text("Outline"), &mut state));
    assert_eq!(state, before);
    assert!(field.set_value(text("outline"), &mut state));
}

#[test]
fn is_offered_finds_stored_values() {
    let options = fonts();
    assert!(nohrs::setting::field::is_offered(&options, &"Arial".to_string()));
    assert!(nohrs::setting::field::is_offered(&options, &"Helvetica".to_string()));
    assert!(!nohrs::setting::field::is_offered(&options, &"Courier".to_string()));
    assert!(!nohrs::setting::field::is_offered(&Vec::new(), &"Arial".to_string()));
}

#[test]
fn a_value_of_the_wrong_kind_is_not_stored() {
    let mut state = AppSettings::default();
    let before = state.clone();
    assert!(!SettingField::switch(BoolKey::DarkMode).set_value(text("true"), &mut state));
    assert!(!SettingField::input(TextKey::CliPath).set_value(
        SettingValue::Bool(true),
        &mut state
    ));
    let number = SettingField::number_input(bounds(8, 72), NumberKey::FontSize).unwrap();
    assert!(!number.set_value(text("12"), &mut state));
    let dropdown = SettingField::dropdown(fonts(), TextKey::FontFamily).unwrap();
    assert!(!dropdown.set_value(SettingValue::Number(Number::whole(1)), &mut state));
    assert_eq!(state, before);
}

#[test]
fn a_custom_element_holds_no_value() {
    let mut state = AppSettings::default();
    let before = state.clone();
    let field = SettingField::element(OpenURLSettingField::new("Docs", "https://docs.rs"));
    assert!(field.is_custom());
    assert_eq!(field.accessor(), None);
    assert_eq!(field.value(&state), None);
    assert!(!field.set_value(SettingValue::Bool(true), &mut state));
    assert!(!field.reset(&mut state));
    assert_eq!(state, before);
}

#[test]
fn number_input_refuses_bounds_in_the_wrong_order() {
    let made = SettingField::number_input(bounds(72, 8), NumberKey::FontSize);
    assert_eq!(made.err(), Some(ConfigError::InvalidBounds));
    assert!(SettingField::number_input(bounds(8, 8), NumberKey::FontSize).is_ok());
}

#[test]
fn dropdown_refuses_an_empty_option_list() {
    let made = SettingField::dropdown(Vec::new(), TextKey::FontFamily);
    assert_eq!(made.err(), Some(ConfigError::EmptyOptions));
}

#[test]
fn a_second_default_is_refused() {
    let field = SettingField::switch(BoolKey::DarkMode)
        .default_value(SettingValue::Bool(false))
        .unwrap();
    let again = field.default_value(SettingValue::Bool(true));
    assert_eq!(again.err(), Some(ConfigError::DuplicateDefault));
}

#[test]
fn a_default_of_the_wrong_kind_is_refused() {
    let made = SettingField::switch(BoolKey::DarkMode).default_value(text("off"));
    assert_eq!(made.err(), Some(ConfigError::DefaultTypeMismatch));
    let made = SettingField::input(TextKey::CliPath).default_value(SettingValue::Bool(true));
    assert_eq!(made.err(), Some(ConfigError::DefaultTypeMismatch));
    let made = SettingField::element(OpenURLSettingField::new("a", "b"))
        .default_value(SettingValue::Bool(true));
    assert_eq!(made.err(), Some(ConfigError::DefaultTypeMismatch));
}

#[test]
fn an_item_without_default_is_refused() {
    let made = SettingItem::new("Dark Mode", SettingField::switch(BoolKey::DarkMode));
    assert_eq!(made.err(), Some(ConfigError::MissingDefault));
    let made = SettingItem::new(
        "Docs",
        SettingField::element(OpenURLSettingField::new("Docs", "https://docs.rs")),
    );
    assert!(made.is_ok());
}

#[test]
fn the_default_is_captured_at_declaration() {
    let mut state = AppSettings::default();
    state.set_flag(BoolKey::AutoUpdate, false);
    let field = SettingField::switch(BoolKey::AutoUpdate)
        .default_value(SettingValue::Bool(true))
        .unwrap();
    assert_eq!(field.default(), Some(&SettingValue::Bool(true)));
    assert_eq!(field.value(&state), Some(SettingValue::Bool(false)));
    state.set_flag(BoolKey::AutoUpdate, true);
    state.set_flag(BoolKey::AutoUpdate, false);
    assert_eq!(field.default(), Some(&SettingValue::Bool(true)));
    assert!(field.reset(&mut state));
    assert!(state.flag(BoolKey::AutoUpdate));
}

#[test]
fn field_reset_goes_through_the_setter() {
    let mut state = AppSettings::default();
    let field = SettingField::number_input(bounds(8, 72), NumberKey::FontSize)
        .unwrap()
        .default_value(SettingValue::Number(Number::whole(100)))
        .unwrap();
    assert!(field.reset(&mut state));
    assert_eq!(state.number(NumberKey::FontSize), Number::whole(72));
    let field = SettingField::dropdown(fonts(), TextKey::FontFamily)
        .unwrap()
        .default_value(text("Courier"))
        .unwrap();
    state.set_text(TextKey::FontFamily, "Helvetica".to_string());
    assert!(!field.reset(&mut state));
    assert_eq!(state.text(TextKey::FontFamily), "Helvetica");
}

#[test]
fn field_getters_report_the_declaration() {
    let field = SettingField::number_input(bounds(8, 72), NumberKey::FontSize).unwrap();
    assert_eq!(field.control(), &Control::NumberInput(bounds(8, 72)));
    assert_eq!(field.accessor(), Some(Accessor::Number(NumberKey::FontSize)));
    assert_eq!(field.default(), None);
    assert!(!field.is_custom());
    let field = SettingField::dropdown(fonts(), TextKey::FontFamily).unwrap();
    assert_eq!(field.control(), &Control::Dropdown(fonts()));
    assert_eq!(SettingField::switch(BoolKey::DarkMode).control(), &Control::Switch);
    assert_eq!(SettingField::checkbox(BoolKey::DarkMode).control(), &Control::Checkbox);
    assert_eq!(SettingField::input(TextKey::CliPath).control(), &Control::Input);
}

#[test]
fn open_url_field_renders_an_outlined_button() {
    let element = OpenURLSettingField::new("Repository...", "https://example.org/repo");
    assert_eq!(element.label(), "Repository...");
    assert_eq!(element.url(), "https://example.org/repo");
    let options = RenderOptions {
        size: Size::Small,
        group_variant: GroupBoxVariant::Fill,
        layout: Axis::Horizontal,
    };
    let button = element.render_field(&options);
    assert_eq!(button.id, "open-url");
    assert_eq!(button.label, "Repository...");
    assert_eq!(button.size, Size::Small);
    assert!(button.outline);
    assert_eq!(button.url, "https://example.org/repo");
    assert_eq!(element.clone(), element);
}

#[test]
fn dropdown_selection_follows_the_state() {
    let mut state = AppSettings::default();
    let field = SettingField::dropdown(fonts(), TextKey::FontFamily).unwrap();
    assert_eq!(field.selected(&state), Some(0));
    state.set_text(TextKey::FontFamily, "Helvetica".to_string());
    assert_eq!(field.selected(&state), Some(1));
}

#[test]
fn dropdown_shows_no_selection_for_an_unlisted_value() {
    let mut state = AppSettings::default();
    state.set_text(TextKey::FontFamily, "Comic Sans".to_string());
    let field = SettingField::dropdown(fonts(), TextKey::FontFamily).unwrap();
    assert_eq!(field.selected(&state), None);
    assert_eq!(field.value(&state), Some(text("Comic Sans")));
}

#[test]
fn dropdown_selects_the_first_of_equal_options() {
    let state = AppSettings::default();
    let options = vec![
        ("Helvetica".to_string(), "Helvetica".to_string()),
        ("Arial".to_string(), "Arial".to_string()),
        ("Arial".to_string(), "Arial again".to_string()),
    ];
    let field = SettingField::dropdown(options, TextKey::FontFamily).unwrap();
    assert_eq!(field.selected(&state), Some(1));
}

#[test]
fn only_dropdowns_have_a_selection() {
    let state = AppSettings::default();
    assert_eq!(SettingField::input(TextKey::FontFamily).selected(&state), None);
    assert_eq!(SettingField::switch(BoolKey::DarkMode).selected(&state), None);
    let element = SettingField::element(OpenURLSettingField::new("a", "b"));
    assert_eq!(element.selected(&state), None);
}

#[test]
fn config_errors_say_what_is_wrong() {
    assert_eq!(ConfigError::InvalidBounds.message(), "lower bound above upper bound");
    assert_eq!(ConfigError::EmptyOptions.message(), "dropdown without options");
    assert_eq!(ConfigError::DuplicateDefault.message(), "default declared twice");
    assert_eq!(ConfigError::DefaultTypeMismatch.message(), "default of the wrong kind");
    assert_eq!(ConfigError::MissingDefault.message(), "field without default");
}

#[test]
fn a_field_is_modified_while_it_differs_from_its_default() {
    let mut state = AppSettings::default();
    let field = SettingField::number_input(bounds(8, 72), NumberKey::FontSize)
        .unwrap()
        .default_value(SettingValue::Number(Number::whole(14)))
        .unwrap();
    assert!(!field.is_modified(&state));
    field.set_value(SettingValue::Number(Number::whole(15)), &mut state);
    assert!(field.is_modified(&state));
    field.reset(&mut state);
    assert!(!field.is_modified(&state));
}

#[test]
fn a_field_without_default_is_never_modified() {
    let mut state = AppSettings::default();
    let field = SettingField::switch(BoolKey::DarkMode);
    assert!(!field.is_modified(&state));
    state.set_flag(BoolKey::DarkMode, true);
    assert!(!field.is_modified(&state));
    let element = SettingField::element(OpenURLSettingField::new("a", "b"));
    assert!(!element.is_modified(&state));
}
