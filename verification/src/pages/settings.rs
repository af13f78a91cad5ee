//! The settings page: the declarative description of every setting of the
//! application, and the registry that is built from it.

use vstd::prelude::*;
use crate::icon::IconName;
use crate::setting::field::{
    ControlView, FieldView, OpenURLSettingField, OpenUrlView, SettingField,
};
use crate::setting::group::{restore_items, GroupView, SettingGroup};
use crate::setting::item::{CustomElement, CustomElementView, ItemView, SettingItem};
use crate::setting::number::{Number, MILLIS_PER_UNIT};
use crate::setting::options::{Axis, GroupBoxVariant, NumberFieldOptions, Size};
use crate::setting::page::{restore_groups, PageView, SettingPage};
use crate::setting::settings::{Settings, SettingsView};
use crate::setting::state::{
    Accessor, AppSettings, AppSettingsView, BoolKey, Globals, NumberKey, TextKey,
};
use crate::setting::value::{SettingValue, ValueView};

verus! {

/// The view that shows the settings of the application.
///
/// It holds no state of its own: the values live in the [`AppSettings`] of
/// the process, and the registry is built from them for every pass of the
/// presentation.
#[derive(Clone, Copy, Debug, PartialEq, Eq, Structural)]
pub struct SettingsPage {}

/// A row with a field, as the description below declares all of its rows.
pub open spec fn row(
    label: Seq<char>,
    description: Seq<char>,
    layout: Axis,
    control: ControlView,
    accessor: Accessor,
    default_value: ValueView,
) -> ItemView {
    ItemView::Field {
        label,
        description: Some(description),
        layout,
        field: FieldView { control, accessor: Some(accessor), default_value: Some(default_value) },
    }
}

/// A row with a button that opens `url`.
pub open spec fn link_row(
    label: Seq<char>,
    description: Seq<char>,
    button: Seq<char>,
    url: Seq<char>,
) -> ItemView {
    ItemView::Field {
        label,
        description: Some(description),
        layout: Axis::Horizontal,
        field: FieldView {
            control: ControlView::Element(OpenUrlView { label: button, url }),
            accessor: None,
            default_value: None,
        },
    }
}

impl SettingsPage {
    /// The options of the dropdown that selects the group-box variant.
    pub open spec fn variant_options() -> Seq<(Seq<char>, Seq<char>)> {
        seq![
            (GroupBoxVariant::Normal.name(), "Normal"@),
            (GroupBoxVariant::Outline.name(), "Outline"@),
            (GroupBoxVariant::Fill.name(), "Fill"@),
        ]
    }

    /// The options of the dropdown that selects the size of the controls.
    pub open spec fn size_options() -> Seq<(Seq<char>, Seq<char>)> {
        seq![
            (Size::Medium.name(), "Medium"@),
            (Size::Small.name(), "Small"@),
            (Size::XSmall.name(), "XSmall"@),
        ]
    }

    /// The options of the dropdown that selects the font family.
    pub open spec fn font_options() -> Seq<(Seq<char>, Seq<char>)> {
        seq![
            ("Arial"@, "Arial"@),
            ("Helvetica"@, "Helvetica"@),
            ("Times New Roman"@, "Times New Roman"@),
            ("Courier New"@, "Courier New"@),
        ]
    }

    /// The bounds of the font size: 8 to 72, in steps of one.
    pub open spec fn font_size_bounds() -> NumberFieldOptions {
        NumberFieldOptions { min: Number::of(8), max: Number::of(72), step: Number::of(1) }
    }

    /// The bounds of the line height: 8 to 32, in steps of one.
    pub open spec fn line_height_bounds() -> NumberFieldOptions {
        NumberFieldOptions { min: Number::of(8), max: Number::of(32), step: Number::of(1) }
    }

    /// The group "Appearance" of the page "General".
    pub open spec fn appearance_group() -> GroupView {
        let initial = AppSettingsView::initial();
        GroupView {
            title: Some("Appearance"@),
            items: seq![
                row(
                    "Dark Mode"@,
                    "Switch between light and dark themes."@,
                    Axis::Horizontal,
                    ControlView::Switch,
                    Accessor::Bool(BoolKey::DarkMode),
                    ValueView::Bool(false),
                ),
                row(
                    "Auto Switch Theme"@,
                    "Automatically switch theme based on system settings."@,
                    Axis::Horizontal,
                    ControlView::Checkbox,
                    Accessor::Bool(BoolKey::AutoSwitchTheme),
                    ValueView::Bool(initial.auto_switch_theme),
                ),
                row(
                    "Resettable"@,
                    "Enable/Disable reset button for settings."@,
                    Axis::Horizontal,
                    ControlView::Switch,
                    Accessor::Bool(BoolKey::Resettable),
                    ValueView::Bool(initial.resettable),
                ),
                row(
                    "Group Variant"@,
                    "Select the variant for setting groups."@,
                    Axis::Horizontal,
                    ControlView::Dropdown(Self::variant_options()),
                    Accessor::Text(TextKey::GroupVariant),
                    ValueView::Text(GroupBoxVariant::Outline.name()),
                ),
                row(
                    "Group Size"@,
                    "Select the size for the setting group."@,
                    Axis::Horizontal,
                    ControlView::Dropdown(Self::size_options()),
                    Accessor::Text(TextKey::GroupSize),
                    ValueView::Text(Size::Medium.name()),
                ),
            ],
        }
    }

    fn appearance() -> (group: SettingGroup)
        ensures
            group@ == Self::appearance_group(),
    {
        let default_settings = AppSettings::default();
        let variants = vec![
            (GroupBoxVariant::Normal.as_str().to_owned(), "Normal".to_owned()),
            (GroupBoxVariant::Outline.as_str().to_owned(), "Outline".to_owned()),
            (GroupBoxVariant::Fill.as_str().to_owned(), "Fill".to_owned()),
        ];
        assert(variants.deep_view() =~= Self::variant_options());
        let sizes = vec![
            (Size::Medium.as_str().to_owned(), "Medium".to_owned()),
            (Size::Small.as_str().to_owned(), "Small".to_owned()),
            (Size::XSmall.as_str().to_owned(), "XSmall".to_owned()),
        ];
        assert(sizes.deep_view() =~= Self::size_options());
        let items = vec![
            SettingItem::new(
                "Dark Mode",
                SettingField::switch(BoolKey::DarkMode).default_value(
                    SettingValue::Bool(false),
                ).unwrap(),
            ).unwrap().description("Switch between light and dark themes."),
            SettingItem::new(
                "Auto Switch Theme",
                SettingField::checkbox(BoolKey::AutoSwitchTheme).default_value(
                    default_settings.get(Accessor::Bool(BoolKey::AutoSwitchTheme)),
                ).unwrap(),
            ).unwrap().description("Automatically switch theme based on system settings."),
            SettingItem::new(
                "Resettable",
                SettingField::switch(BoolKey::Resettable).default_value(
                    default_settings.get(Accessor::Bool(BoolKey::Resettable)),
                ).unwrap(),
            ).unwrap().description("Enable/Disable reset button for settings."),
            SettingItem::new(
                "Group Variant",
                SettingField::dropdown(variants, TextKey::GroupVariant).unwrap().default_value(
                    SettingValue::Text(GroupBoxVariant::Outline.as_str().to_owned()),
                ).unwrap(),
            ).unwrap().description("Select the variant for setting groups."),
            SettingItem::new(
                "Group Size",
                SettingField::dropdown(sizes, TextKey::GroupSize).unwrap().default_value(
                    SettingValue::Text(Size::default().as_str().to_owned()),
                ).unwrap(),
            ).unwrap().description("Select the size for the setting group."),
        ];
        assert(items.deep_view() =~= Self::appearance_group().items);
        SettingGroup::new().title("Appearance").items(items)
    }

    /// The group "Font" of the page "General".
    pub open spec fn font_group() -> GroupView {
        let initial = AppSettingsView::initial();
        GroupView {
            title: Some("Font"@),
            items: seq![
                row(
                    "Font Family"@,
                    "Select the font family for the application."@,
                    Axis::Horizontal,
                    ControlView::Dropdown(Self::font_options()),
                    Accessor::Text(TextKey::FontFamily),
                    ValueView::Text(initial.font_family),
                ),
                row(
                    "Font Size"@,
                    "Adjust the font size for better readability between 8 and 72."@,
                    Axis::Horizontal,
                    ControlView::NumberInput(Self::font_size_bounds()),
                    Accessor::Number(NumberKey::FontSize),
                    ValueView::Number(initial.font_size),
                ),
                row(
                    "Line Height"@,
                    "Adjust the line height for better readability between 8 and 32."@,
                    Axis::Horizontal,
                    ControlView::NumberInput(Self::line_height_bounds()),
                    Accessor::Number(NumberKey::LineHeight),
                    ValueView::Number(initial.line_height),
                ),
            ],
        }
    }

    fn font() -> (group: SettingGroup)
        ensures
            group@ == Self::font_group(),
    {
        let default_settings = AppSettings::default();
        let fonts = vec![
            ("Arial".to_owned(), "Arial".to_owned()),
            ("Helvetica".to_owned(), "Helvetica".to_owned()),
            ("Times New Roman".to_owned(), "Times New Roman".to_owned()),
            ("Courier New".to_owned(), "Courier New".to_owned()),
        ];
        assert(fonts.deep_view() =~= Self::font_options());
        let font_size = NumberFieldOptions {
            min: Number::whole(8),
            max: Number::whole(72),
            ..Default::default()
        };
        let line_height = NumberFieldOptions {
            min: Number::whole(8),
            max: Number::whole(32),
            ..Default::default()
        };
        let group = SettingGroup::new().title("Font").item(
            SettingItem::new(
                "Font Family",
                SettingField::dropdown(fonts, TextKey::FontFamily).unwrap().default_value(
                    default_settings.get(Accessor::Text(TextKey::FontFamily)),
                ).unwrap(),
            ).unwrap().description("Select the font family for the application."),
        ).item(
            SettingItem::new(
                "Font Size",
                SettingField::number_input(font_size, NumberKey::FontSize).unwrap().default_value(
                    default_settings.get(Accessor::Number(NumberKey::FontSize)),
                ).unwrap(),
            ).unwrap().description(
                "Adjust the font size for better readability between 8 and 72.",
            ),
        ).item(
            SettingItem::new(
                "Line Height",
                SettingField::number_input(
                    line_height,
                    NumberKey::LineHeight,
                ).unwrap().default_value(
                    default_settings.get(Accessor::Number(NumberKey::LineHeight)),
                ).unwrap(),
            ).unwrap().description(
                "Adjust the line height for better readability between 8 and 32.",
            ),
        );
        assert(group@.items =~= Self::font_group().items);
        group
    }

    /// The group "Other" of the page "General".
    pub open spec fn other_group() -> GroupView {
        let initial = AppSettingsView::initial();
        GroupView {
            title: Some("Other"@),
            items: seq![
                ItemView::Element(
                    CustomElementView::Link {
                        text: "This is a custom element item."@,
                        icon: IconName::Globe,
                        button: OpenUrlView {
                            label: "Repository..."@,
                            url: "https://github.com/longbridge/gpui-component"@,
                        },
                    },
                ),
                row(
                    "CLI Path"@,
                    "Path to the CLI executable. \nThis item uses Vertical layout."@,
                    Axis::Vertical,
                    ControlView::Input,
                    Accessor::Text(TextKey::CliPath),
                    ValueView::Text(initial.cli_path),
                ),
            ],
        }
    }

    fn other() -> (group: SettingGroup)
        ensures
            group@ == Self::other_group(),
    {
        let default_settings = AppSettings::default();
        let items = vec![
            SettingItem::render(
                CustomElement::Link {
                    text: "This is a custom element item.".to_owned(),
                    icon: IconName::Globe,
                    button: OpenURLSettingField::new(
                        "Repository...",
                        "https://github.com/longbridge/gpui-component",
                    ),
                },
            ),
            SettingItem::new(
                "CLI Path",
                SettingField::input(TextKey::CliPath).default_value(
                    default_settings.get(Accessor::Text(TextKey::CliPath)),
                ).unwrap(),
            ).unwrap().layout(Axis::Vertical).description(
                "Path to the CLI executable. \nThis item uses Vertical layout.",
            ),
        ];
        assert(items.deep_view() =~= Self::other_group().items);
        SettingGroup::new().title("Other").items(items)
    }

    /// The group "Updates" of the page "Software Update".
    pub open spec fn updates_group() -> GroupView {
        let initial = AppSettingsView::initial();
        GroupView {
            title: Some("Updates"@),
            items: seq![
                row(
                    "Enable Notifications"@,
                    "Receive notifications about updates and news."@,
                    Axis::Horizontal,
                    ControlView::Switch,
                    Accessor::Bool(BoolKey::NotificationsEnabled),
                    ValueView::Bool(initial.notifications_enabled),
                ),
                row(
                    "Auto Update"@,
                    "Automatically download and install updates."@,
                    Axis::Horizontal,
                    ControlView::Switch,
                    Accessor::Bool(BoolKey::AutoUpdate),
                    ValueView::Bool(initial.auto_update),
                ),
            ],
        }
    }

    fn updates() -> (group: SettingGroup)
        ensures
            group@ == Self::updates_group(),
    {
        let default_settings = AppSettings::default();
        let items = vec![
            SettingItem::new(
                "Enable Notifications",
                SettingField::switch(BoolKey::NotificationsEnabled).default_value(
                    default_settings.get(Accessor::Bool(BoolKey::NotificationsEnabled)),
                ).unwrap(),
            ).unwrap().description("Receive notifications about updates and news."),
            SettingItem::new(
                "Auto Update",
                SettingField::switch(BoolKey::AutoUpdate).default_value(
                    default_settings.get(Accessor::Bool(BoolKey::AutoUpdate)),
                ).unwrap(),
            ).unwrap().description("Automatically download and install updates."),
        ];
        assert(items.deep_view() =~= Self::updates_group().items);
        SettingGroup::new().title("Updates").items(items)
    }

    /// The untitled group of the page "About": the banner of the
    /// application.
    pub open spec fn banner_group() -> GroupView {
        GroupView {
            title: None,
            items: seq![
                ItemView::Element(
                    CustomElementView::Banner {
                        icon: IconName::GalleryVerticalEnd,
                        title: "NOHRS - File Manager"@,
                        caption: "A modern file manager built with GPUI."@,
                    },
                ),
            ],
        }
    }

    fn banner() -> (group: SettingGroup)
        ensures
            group@ == Self::banner_group(),
    {
        let group = SettingGroup::new().item(
            SettingItem::render(
                CustomElement::Banner {
                    icon: IconName::GalleryVerticalEnd,
                    title: "NOHRS - File Manager".to_owned(),
                    caption: "A modern file manager built with GPUI.".to_owned(),
                },
            ),
        );
        assert(group@.items =~= Self::banner_group().items);
        group
    }

    /// The group "Links" of the page "About".
    pub open spec fn links_group() -> GroupView {
        GroupView {
            title: Some("Links"@),
            items: seq![
                link_row(
                    "GitHub Repository"@,
                    "Open the GitHub repository in your default browser."@,
                    "Repository..."@,
                    "https://github.com/longbridge/gpui-component"@,
                ),
                link_row(
                    "Documentation"@,
                    "Rust doc for the `gpui-component` crate."@,
                    "Rust Docs..."@,
                    "https://docs.rs/gpui-component"@,
                ),
            ],
        }
    }

    fn links() -> (group: SettingGroup)
        ensures
            group@ == Self::links_group(),
    {
        let items = vec![
            SettingItem::new(
                "GitHub Repository",
                SettingField::element(
                    OpenURLSettingField::new(
                        "Repository...",
                        "https://github.com/longbridge/gpui-component",
                    ),
                ),
            ).unwrap().description("Open the GitHub repository in your default browser."),
            SettingItem::new(
                "Documentation",
                SettingField::element(
                    OpenURLSettingField::new("Rust Docs...", "https://docs.rs/gpui-component"),
                ),
            ).unwrap().description("Rust doc for the `gpui-component` crate."),
        ];
        assert(items.deep_view() =~= Self::links_group().items);
        SettingGroup::new().title("Links").items(items)
    }

    /// The page "General": appearance, font and other settings.
    pub open spec fn general_page(resettable: bool) -> PageView {
        PageView {
            title: "General"@,
            resettable,
            default_open: true,
            groups: seq![Self::appearance_group(), Self::font_group(), Self::other_group()],
        }
    }

    /// The page "Software Update".
    pub open spec fn update_page(resettable: bool) -> PageView {
        PageView {
            title: "Software Update"@,
            resettable,
            default_open: false,
            groups: seq![Self::updates_group()],
        }
    }

    /// The page "About": the banner and the links.
    pub open spec fn about_page(resettable: bool) -> PageView {
        PageView {
            title: "About"@,
            resettable,
            default_open: false,
            groups: seq![Self::banner_group(), Self::links_group()],
        }
    }

    /// The pages of the settings view, all of them resettable or none.
    pub open spec fn pages(resettable: bool) -> Seq<PageView> {
        seq![
            Self::general_page(resettable),
            Self::update_page(resettable),
            Self::about_page(resettable),
        ]
    }

    /// The registry that is built in `state`: the pages, resettable as the
    /// settings say, and the presentation choices that the settings select.
    pub open spec fn registry(state: AppSettingsView) -> SettingsView {
        SettingsView {
            id: "app-settings"@,
            size: state.size(),
            group_variant: state.variant(),
            pages: Self::pages(state.resettable),
        }
    }

    /// What the container holds once the settings are needed: the settings
    /// it held, or those of a fresh process where it held none.
    pub open spec fn initialized(cx: Option<AppSettingsView>) -> AppSettingsView {
        match cx {
            Some(settings) => settings,
            None => AppSettingsView::initial(),
        }
    }

    /// The settings view.
    pub fn new() -> (page: SettingsPage) {
        SettingsPage {  }
    }

    /// Installs the settings of a fresh process where none are installed,
    /// and leaves installed settings as they are.
    pub fn ensure_settings_initialized(cx: &mut Globals)
        ensures
            final(cx)@ == Some(Self::initialized(old(cx)@)),
    {
        if !cx.has_global() {
            cx.set_global(AppSettings::default());
        }
    }

    /// The pages of the settings view, built from the declarative
    /// description. Every page is resettable exactly if `settings` say so;
    /// nothing else of `settings` enters the pages, and nothing is written.
    pub fn setting_pages(&self, settings: &AppSettings) -> (pages: Vec<SettingPage>)
        ensures
            pages.deep_view() == Self::pages(settings@.resettable),
    {
        let resettable = settings.flag(BoolKey::Resettable);
        let general_groups = vec![Self::appearance(), Self::font(), Self::other()];
        assert(general_groups.deep_view() =~= Self::general_page(resettable).groups);
        let update_groups = vec![Self::updates()];
        assert(update_groups.deep_view() =~= Self::update_page(resettable).groups);
        let about = SettingPage::new("About").resettable(resettable).group(Self::banner()).group(
            Self::links(),
        );
        assert(about@.groups =~= Self::about_page(resettable).groups);
        let pages = vec![
            SettingPage::new("General").resettable(resettable).default_open(true).groups(
                general_groups,
            ),
            SettingPage::new("Software Update").resettable(resettable).groups(update_groups),
            about,
        ];
        assert(pages.deep_view() =~= Self::pages(resettable));
        pages
    }

    /// Builds the registry for one pass of the presentation.
    ///
    /// The settings are installed first where the container holds none.
    /// The registry is then a function of the settings alone, and building
    /// it writes nothing: two builds with no write between them give the
    /// same registry.
    pub fn render(&self, cx: &mut Globals) -> (registry: Settings)
        ensures
            final(cx)@ == Some(Self::initialized(old(cx)@)),
            registry@ == Self::registry(Self::initialized(old(cx)@)),
    {
        Self::ensure_settings_initialized(cx);
        let settings = AppSettings::global(cx);
        Self::build(self, settings)
    }

    /// Builds the registry from `settings`, reading only.
    pub fn build(&self, settings: &AppSettings) -> (registry: Settings)
        ensures
            registry@ == Self::registry(settings@),
    {
        let registry = Settings::new("app-settings").with_size(settings.size()).with_group_variant(
            settings.group_variant(),
        ).pages(self.setting_pages(settings));
        assert(registry@.pages =~= Self::pages(settings@.resettable));
        registry
    }
}

impl Default for SettingsPage {
    fn default() -> (page: SettingsPage) {
        SettingsPage {  }
    }
}

impl SettingsPage {
    /// What a reset of the page "General" leaves behind: every setting of
    /// the page at its declared default, the settings of the other pages as
    /// they were.
    pub open spec fn general_restored(state: AppSettingsView) -> AppSettingsView {
        AppSettingsView {
            notifications_enabled: state.notifications_enabled,
            auto_update: state.auto_update,
            ..AppSettingsView::initial()
        }
    }

    /// What a reset of the page "Software Update" leaves behind.
    pub open spec fn update_restored(state: AppSettingsView) -> AppSettingsView {
        AppSettingsView { notifications_enabled: true, auto_update: true, ..state }
    }
}

/// Restoring the group "Appearance" puts its five settings at their
/// defaults and leaves the others as they were.
pub proof fn lemma_appearance_restore(state: AppSettingsView)
    ensures
        SettingsPage::appearance_group().restore(state) == (AppSettingsView {
            dark_mode: false,
            auto_switch_theme: false,
            resettable: true,
            group_variant: GroupBoxVariant::Outline.name(),
            group_size: Size::Medium.name(),
            ..state
        }),
{
    let items = SettingsPage::appearance_group().items;
    reveal_with_fuel(restore_items, 6);
    assert(SettingsPage::variant_options()[1].0 == GroupBoxVariant::Outline.name());
    assert(SettingsPage::size_options()[0].0 == Size::Medium.name());
    assert(items.drop_last().drop_last().drop_last().drop_last() =~= seq![items[0]]);
    assert(items.drop_last().drop_last().drop_last() =~= seq![items[0], items[1]]);
    assert(items.drop_last().drop_last() =~= seq![items[0], items[1], items[2]]);
    assert(items.drop_last() =~= seq![items[0], items[1], items[2], items[3]]);
}

/// Restoring the group "Font" puts its three settings at their defaults and
/// leaves the others as they were.
pub proof fn lemma_font_restore(state: AppSettingsView)
    ensures
        SettingsPage::font_group().restore(state) == (AppSettingsView {
            font_family: "Arial"@,
            font_size: 14 * MILLIS_PER_UNIT,
            line_height: 12 * MILLIS_PER_UNIT,
            ..state
        }),
{
    let items = SettingsPage::font_group().items;
    reveal_with_fuel(restore_items, 4);
    assert(SettingsPage::font_options()[0].0 == "Arial"@);
    assert(items.drop_last().drop_last() =~= seq![items[0]]);
    assert(items.drop_last() =~= seq![items[0], items[1]]);
}

/// Restoring the group "Other" puts the CLI path at its default and leaves
/// the others as they were.
pub proof fn lemma_other_restore(state: AppSettingsView)
    ensures
        SettingsPage::other_group().restore(state) == (AppSettingsView {
            cli_path: "/usr/local/bin/bash"@,
            ..state
        }),
{
    let items = SettingsPage::other_group().items;
    reveal_with_fuel(restore_items, 3);
    assert(items.drop_last() =~= seq![items[0]]);
}

/// A reset of the page "General" puts every setting of the page at its
/// declared default, whatever the state was before, and leaves the settings
/// of the other pages as they were.
pub proof fn lemma_general_reset(resettable: bool, state: AppSettingsView)
    ensures
        SettingsPage::general_page(resettable).restore(state) == SettingsPage::general_restored(
            state,
        ),
{
    let groups = SettingsPage::general_page(resettable).groups;
    reveal_with_fuel(restore_groups, 4);
    assert(groups.drop_last().drop_last() =~= seq![groups[0]]);
    assert(groups.drop_last() =~= seq![groups[0], groups[1]]);
    let s1 = groups[0].restore(state);
    let s2 = groups[1].restore(s1);
    lemma_appearance_restore(state);
    lemma_font_restore(s1);
    lemma_other_restore(s2);
}

/// A reset of the page "Software Update" switches notifications and
/// automatic updates on, their declared defaults, and leaves every other
/// setting as it was.
pub proof fn lemma_update_reset(resettable: bool, state: AppSettingsView)
    ensures
        SettingsPage::update_page(resettable).restore(state) == SettingsPage::update_restored(
            state,
        ),
{
    let groups = SettingsPage::update_page(resettable).groups;
    let items = SettingsPage::updates_group().items;
    reveal_with_fuel(restore_groups, 2);
    reveal_with_fuel(restore_items, 3);
    assert(items.drop_last() =~= seq![items[0]]);
}

/// A reset of the page "About", which holds custom elements only, changes
/// nothing.
pub proof fn lemma_about_reset(resettable: bool, state: AppSettingsView)
    ensures
        SettingsPage::about_page(resettable).restore(state) == state,
{
    let groups = SettingsPage::about_page(resettable).groups;
    let links = SettingsPage::links_group().items;
    reveal_with_fuel(restore_groups, 3);
    reveal_with_fuel(restore_items, 3);
    assert(groups.drop_last() =~= seq![groups[0]]);
    assert(links.drop_last() =~= seq![links[0]]);
}

/// After a reset of any page of the description, the getter of every item
/// of that page that holds a value returns exactly the item's declared
/// default, whatever the state was before.
pub proof fn lemma_description_restores_every_default(
    resettable: bool,
    state: AppSettingsView,
    page: int,
    group: int,
    item: int,
)
    requires
        0 <= page < SettingsPage::pages(resettable).len(),
        0 <= group < SettingsPage::pages(resettable)[page].groups.len(),
        0 <= item < SettingsPage::pages(resettable)[page].groups[group].items.len(),
        SettingsPage::pages(resettable)[page].groups[group].items[item].accessor() is Some,
    ensures
        SettingsPage::pages(resettable)[page].groups[group].items[item].read(
            SettingsPage::pages(resettable)[page].restore(state),
        ) == SettingsPage::pages(resettable)[page].groups[group].items[item].default_value(),
{
    lemma_general_reset(resettable, state);
    lemma_update_reset(resettable, state);
    lemma_about_reset(resettable, state);
}

/// After a reset of any page of the description, no item of that page holds
/// another value than its declared default.
pub proof fn lemma_description_reset_leaves_nothing_modified(
    resettable: bool,
    state: AppSettingsView,
    page: int,
)
    requires
        0 <= page < SettingsPage::pages(resettable).len(),
    ensures
        !SettingsPage::pages(resettable)[page].modified(
            SettingsPage::pages(resettable)[page].restore(state),
        ),
{
    let shown = SettingsPage::pages(resettable)[page];
    let after = shown.restore(state);
    assert forall|group: int| 0 <= group < shown.groups.len() implies !(
    #[trigger] shown.groups[group]).modified(after) by {
        assert forall|item: int| 0 <= item < shown.groups[group].items.len() implies !(
        #[trigger] shown.groups[group].items[item]).differs(after) by {
            if shown.groups[group].items[item].accessor() is Some {
                lemma_description_restores_every_default(resettable, state, page, group, item);
            }
        }
    }
}

/// Every page of the description is well formed.
pub proof fn lemma_pages_well_formed(resettable: bool, page: int)
    requires
        0 <= page < SettingsPage::pages(resettable).len(),
    ensures
        SettingsPage::pages(resettable)[page].wf(),
{
    assert(SettingsPage::variant_options().len() == 3);
    assert(SettingsPage::size_options().len() == 3);
    assert(SettingsPage::font_options().len() == 4);
}

/// Building is idempotent. The registry is a function of the settings and
/// building writes none of them: two registries built from the same
/// settings are the same tree, and the getter of each of its items returns
/// the same value in both.
pub proof fn lemma_build_idempotent(
    state: AppSettingsView,
    first: SettingsView,
    second: SettingsView,
    page: int,
    group: int,
    item: int,
)
    requires
        first == SettingsPage::registry(state),
        second == SettingsPage::registry(state),
    ensures
        first == second,
        first.pages[page].groups[group].items[item].read(state)
            == second.pages[page].groups[group].items[item].read(state),
{
}

/// A second pass of the presentation finds the settings that the first
/// left, and builds the registry that the first built.
pub proof fn lemma_render_idempotent(cx: Option<AppSettingsView>)
    ensures
        SettingsPage::initialized(Some(SettingsPage::initialized(cx))) == SettingsPage::initialized(
            cx,
        ),
        SettingsPage::registry(SettingsPage::initialized(Some(SettingsPage::initialized(cx))))
            == SettingsPage::registry(SettingsPage::initialized(cx)),
{
}

} // verus!
