//! The live application settings and the keys that name their slots.

use vstd::prelude::*;
use crate::setting::number::{Number, MILLIS_PER_UNIT};
use crate::setting::options::{GroupBoxVariant, Size};
use crate::setting::value::{SettingValue, ValueKind, ValueView};

verus! {

/// The boolean settings.
#[derive(Clone, Copy, Debug, PartialEq, Eq, Structural)]
pub enum BoolKey {
    DarkMode,
    AutoSwitchTheme,
    Resettable,
    NotificationsEnabled,
    AutoUpdate,
}

/// The text settings.
#[derive(Clone, Copy, Debug, PartialEq, Eq, Structural)]
pub enum TextKey {
    CliPath,
    FontFamily,
    GroupVariant,
    GroupSize,
}

/// The numeric settings.
#[derive(Clone, Copy, Debug, PartialEq, Eq, Structural)]
pub enum NumberKey {
    FontSize,
    LineHeight,
}

/// A path to one slot of the application settings: the pair of a getter and
/// a setter that a field is bound to.
#[derive(Clone, Copy, Debug, PartialEq, Eq, Structural)]
pub enum Accessor {
    Bool(BoolKey),
    Text(TextKey),
    Number(NumberKey),
}

impl Accessor {
    /// The kind of value that the slot holds.
    pub open spec fn spec_kind(self) -> ValueKind {
        match self {
            Accessor::Bool(_) => ValueKind::Bool,
            Accessor::Text(_) => ValueKind::Text,
            Accessor::Number(_) => ValueKind::Number,
        }
    }

    /// The kind of value that the slot holds.
    #[verifier::when_used_as_spec(spec_kind)]
    pub fn kind(self) -> (kind: ValueKind)
        ensures
            kind == self.spec_kind(),
    {
        match self {
            Accessor::Bool(_) => ValueKind::Bool,
            Accessor::Text(_) => ValueKind::Text,
            Accessor::Number(_) => ValueKind::Number,
        }
    }
}

/// The live values of every setting.
///
/// One record exists per process. Its slots are read and written through
/// keys only, so that every change passes through a setter.
#[derive(Debug, PartialEq, Eq)]
pub struct AppSettings {
    dark_mode: bool,
    auto_switch_theme: bool,
    cli_path: String,
    font_family: String,
    font_size: Number,
    line_height: Number,
    notifications_enabled: bool,
    auto_update: bool,
    resettable: bool,
    group_variant: String,
    group_size: String,
}

/// The mathematical content of [`AppSettings`]: one value per slot.
pub struct AppSettingsView {
    pub dark_mode: bool,
    pub auto_switch_theme: bool,
    pub cli_path: Seq<char>,
    pub font_family: Seq<char>,
    pub font_size: int,
    pub line_height: int,
    pub notifications_enabled: bool,
    pub auto_update: bool,
    pub resettable: bool,
    pub group_variant: Seq<char>,
    pub group_size: Seq<char>,
}

impl AppSettingsView {
    /// The settings of a fresh process.
    pub open spec fn initial() -> AppSettingsView {
        AppSettingsView {
            dark_mode: false,
            auto_switch_theme: false,
            cli_path: "/usr/local/bin/bash"@,
            font_family: "Arial"@,
            font_size: 14 * MILLIS_PER_UNIT,
            line_height: 12 * MILLIS_PER_UNIT,
            notifications_enabled: true,
            auto_update: true,
            resettable: true,
            group_variant: GroupBoxVariant::Outline.name(),
            group_size: Size::Medium.name(),
        }
    }

    /// The value of a boolean slot.
    pub open spec fn flag(self, key: BoolKey) -> bool {
        match key {
            BoolKey::DarkMode => self.dark_mode,
            BoolKey::AutoSwitchTheme => self.auto_switch_theme,
            BoolKey::Resettable => self.resettable,
            BoolKey::NotificationsEnabled => self.notifications_enabled,
            BoolKey::AutoUpdate => self.auto_update,
        }
    }

    /// The value of a text slot.
    pub open spec fn text(self, key: TextKey) -> Seq<char> {
        match key {
            TextKey::CliPath => self.cli_path,
            TextKey::FontFamily => self.font_family,
            TextKey::GroupVariant => self.group_variant,
            TextKey::GroupSize => self.group_size,
        }
    }

    /// The value of a numeric slot.
    pub open spec fn number(self, key: NumberKey) -> int {
        match key {
            NumberKey::FontSize => self.font_size,
            NumberKey::LineHeight => self.line_height,
        }
    }

    /// These settings with one boolean slot replaced.
    pub open spec fn with_flag(self, key: BoolKey, value: bool) -> AppSettingsView {
        match key {
            BoolKey::DarkMode => AppSettingsView { dark_mode: value, ..self },
            BoolKey::AutoSwitchTheme => AppSettingsView { auto_switch_theme: value, ..self },
            BoolKey::Resettable => AppSettingsView { resettable: value, ..self },
            BoolKey::NotificationsEnabled => AppSettingsView {
                notifications_enabled: value,
                ..self
            },
            BoolKey::AutoUpdate => AppSettingsView { auto_update: value, ..self },
        }
    }

    /// These settings with one text slot replaced.
    pub open spec fn with_text(self, key: TextKey, value: Seq<char>) -> AppSettingsView {
        match key {
            TextKey::CliPath => AppSettingsView { cli_path: value, ..self },
            TextKey::FontFamily => AppSettingsView { font_family: value, ..self },
            TextKey::GroupVariant => AppSettingsView { group_variant: value, ..self },
            TextKey::GroupSize => AppSettingsView { group_size: value, ..self },
        }
    }

    /// These settings with one numeric slot replaced.
    pub open spec fn with_number(self, key: NumberKey, value: int) -> AppSettingsView {
        match key {
            NumberKey::FontSize => AppSettingsView { font_size: value, ..self },
            NumberKey::LineHeight => AppSettingsView { line_height: value, ..self },
        }
    }

    /// What the getter of `accessor` returns.
    pub open spec fn read(self, accessor: Accessor) -> ValueView {
        match accessor {
            Accessor::Bool(key) => ValueView::Bool(self.flag(key)),
            Accessor::Text(key) => ValueView::Text(self.text(key)),
            Accessor::Number(key) => ValueView::Number(self.number(key)),
        }
    }

    /// What the setter of `accessor` leaves behind when handed `value`: the
    /// slot replaced where the value has the slot's kind, nothing changed
    /// where it has not.
    pub open spec fn write(self, accessor: Accessor, value: ValueView) -> AppSettingsView {
        match (accessor, value) {
            (Accessor::Bool(key), ValueView::Bool(b)) => self.with_flag(key, b),
            (Accessor::Text(key), ValueView::Text(t)) => self.with_text(key, t),
            (Accessor::Number(key), ValueView::Number(n)) => self.with_number(key, n),
            _ => self,
        }
    }

    /// The size of the controls that these settings select.
    pub open spec fn size(self) -> Size {
        Size::parse(self.group_size)
    }

    /// The group-box variant that these settings select.
    pub open spec fn variant(self) -> GroupBoxVariant {
        GroupBoxVariant::parse(self.group_variant)
    }
}

impl View for AppSettings {
    type V = AppSettingsView;

    closed spec fn view(&self) -> AppSettingsView {
        AppSettingsView {
            dark_mode: self.dark_mode,
            auto_switch_theme: self.auto_switch_theme,
            cli_path: self.cli_path@,
            font_family: self.font_family@,
            font_size: self.font_size@,
            line_height: self.line_height@,
            notifications_enabled: self.notifications_enabled,
            auto_update: self.auto_update,
            resettable: self.resettable,
            group_variant: self.group_variant@,
            group_size: self.group_size@,
        }
    }
}

impl Default for AppSettings {
    /// The settings of a fresh process.
    fn default() -> (settings: AppSettings)
        ensures
            settings@ == AppSettingsView::initial(),
    {
        AppSettings {
            dark_mode: false,
            auto_switch_theme: false,
            cli_path: "/usr/local/bin/bash".to_owned(),
            font_family: "Arial".to_owned(),
            font_size: Number::whole(14),
            line_height: Number::whole(12),
            notifications_enabled: true,
            auto_update: true,
            resettable: true,
            group_variant: GroupBoxVariant::Outline.as_str().to_owned(),
            group_size: Size::Medium.as_str().to_owned(),
        }
    }
}

impl Clone for AppSettings {
    fn clone(&self) -> (copy: AppSettings)
        ensures
            copy@ == self@,
    {
        AppSettings {
            dark_mode: self.dark_mode,
            auto_switch_theme: self.auto_switch_theme,
            cli_path: self.cli_path.clone(),
            font_family: self.font_family.clone(),
            font_size: self.font_size,
            line_height: self.line_height,
            notifications_enabled: self.notifications_enabled,
            auto_update: self.auto_update,
            resettable: self.resettable,
            group_variant: self.group_variant.clone(),
            group_size: self.group_size.clone(),
        }
    }
}

/// The process-wide container in which the application settings live.
///
/// It holds at most one settings record. The record is installed on first
/// use and stays until the container is dropped.
#[derive(Debug)]
pub struct Globals {
    settings: Option<AppSettings>,
}

impl View for Globals {
    type V = Option<AppSettingsView>;

    /// The settings that the container holds, if it holds any.
    closed spec fn view(&self) -> Option<AppSettingsView> {
        match self.settings {
            Some(settings) => Some(settings@),
            None => None,
        }
    }
}

impl Globals {
    /// A container that holds no settings yet.
    pub fn new() -> (cx: Globals)
        ensures
            cx@ is None,
    {
        Globals { settings: None }
    }

    /// Whether the settings are installed.
    pub fn has_global(&self) -> (installed: bool)
        ensures
            installed == (self@ is Some),
    {
        self.settings.is_some()
    }

    /// Installs `settings`, in the place of any that were installed before.
    pub fn set_global(&mut self, settings: AppSettings)
        ensures
            final(self)@ == Some(settings@),
    {
        self.settings = Some(settings);
    }
}

impl AppSettings {
    /// The installed settings, for reading.
    pub fn global(cx: &Globals) -> (settings: &AppSettings)
        requires
            cx@ is Some,
        ensures
            Some(settings@) == cx@,
    {
        cx.settings.as_ref().unwrap()
    }

    /// The installed settings, for writing through the setters: what is
    /// written to the record is what the container holds afterwards.
    pub fn global_mut(cx: &mut Globals) -> (settings: &mut AppSettings)
        requires
            old(cx)@ is Some,
        ensures
            Some(settings@) == old(cx)@,
            final(cx)@ == Some(final(settings)@),
    {
        cx.settings.as_mut().unwrap()
    }

    /// Reads a boolean slot.
    pub fn flag(&self, key: BoolKey) -> (value: bool)
        ensures
            value == self@.flag(key),
    {
        match key {
            BoolKey::DarkMode => self.dark_mode,
            BoolKey::AutoSwitchTheme => self.auto_switch_theme,
            BoolKey::Resettable => self.resettable,
            BoolKey::NotificationsEnabled => self.notifications_enabled,
            BoolKey::AutoUpdate => self.auto_update,
        }
    }

    /// Reads a text slot.
    pub fn text(&self, key: TextKey) -> (value: &String)
        ensures
            value@ == self@.text(key),
    {
        match key {
            TextKey::CliPath => &self.cli_path,
            TextKey::FontFamily => &self.font_family,
            TextKey::GroupVariant => &self.group_variant,
            TextKey::GroupSize => &self.group_size,
        }
    }

    /// Reads a numeric slot.
    pub fn number(&self, key: NumberKey) -> (value: Number)
        ensures
            value@ == self@.number(key),
    {
        match key {
            NumberKey::FontSize => self.font_size,
            NumberKey::LineHeight => self.line_height,
        }
    }

    /// Writes a boolean slot and leaves every other slot as it was.
    pub fn set_flag(&mut self, key: BoolKey, value: bool)
        ensures
            final(self)@ == old(self)@.with_flag(key, value),
    {
        match key {
            BoolKey::DarkMode => self.dark_mode = value,
            BoolKey::AutoSwitchTheme => self.auto_switch_theme = value,
            BoolKey::Resettable => self.resettable = value,
            BoolKey::NotificationsEnabled => self.notifications_enabled = value,
            BoolKey::AutoUpdate => self.auto_update = value,
        }
    }

    /// Writes a text slot and leaves every other slot as it was.
    pub fn set_text(&mut self, key: TextKey, value: String)
        ensures
            final(self)@ == old(self)@.with_text(key, value@),
    {
        match key {
            TextKey::CliPath => self.cli_path = value,
            TextKey::FontFamily => self.font_family = value,
            TextKey::GroupVariant => self.group_variant = value,
            TextKey::GroupSize => self.group_size = value,
        }
    }

    /// Writes a numeric slot and leaves every other slot as it was.
    pub fn set_number(&mut self, key: NumberKey, value: Number)
        ensures
            final(self)@ == old(self)@.with_number(key, value@),
    {
        match key {
            NumberKey::FontSize => self.font_size = value,
            NumberKey::LineHeight => self.line_height = value,
        }
    }

    /// The getter of `accessor`: the current value of its slot. Reads only.
    pub fn get(&self, accessor: Accessor) -> (value: SettingValue)
        ensures
            value@ == self@.read(accessor),
    {
        match accessor {
            Accessor::Bool(key) => SettingValue::Bool(self.flag(key)),
            Accessor::Text(key) => SettingValue::Text(self.text(key).clone()),
            Accessor::Number(key) => SettingValue::Number(self.number(key)),
        }
    }

    /// The setter of `accessor`: stores `value` in its slot. A value of
    /// another kind than the slot's is refused and nothing changes.
    pub fn set(&mut self, accessor: Accessor, value: SettingValue) -> (stored: bool)
        ensures
            stored == (value@.kind() == accessor.kind()),
            final(self)@ == old(self)@.write(accessor, value@),
    {
        match accessor {
            Accessor::Bool(key) => match value {
                SettingValue::Bool(b) => {
                    self.set_flag(key, b);
                    true
                },
                _ => false,
            },
            Accessor::Text(key) => match value {
                SettingValue::Text(t) => {
                    self.set_text(key, t);
                    true
                },
                _ => false,
            },
            Accessor::Number(key) => match value {
                SettingValue::Number(n) => {
                    self.set_number(key, n);
                    true
                },
                _ => false,
            },
        }
    }

    /// The size of the controls that the settings select.
    pub fn size(&self) -> (size: Size)
        ensures
            size == self@.size(),
    {
        Size::from_str(self.group_size.as_str())
    }

    /// The group-box variant that the settings select.
    pub fn group_variant(&self) -> (variant: GroupBoxVariant)
        ensures
            variant == self@.variant(),
    {
        GroupBoxVariant::from_str(self.group_variant.as_str())
    }
}

} // verus!
