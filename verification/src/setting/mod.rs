//! A declarative settings framework: pages of groups of items, each item a
//! typed field bound to a slot of the application state, with a declared
//! default that a page reset restores.

pub mod field;
pub mod group;
pub mod item;
pub mod laws;
pub mod number;
pub mod options;
pub mod page;
pub mod settings;
pub mod state;
pub mod value;

pub use field::{
    Button, ConfigError, Control, ControlView, FieldView, OpenURLSettingField, OpenUrlView,
    SettingField,
};
pub use group::{GroupView, SettingGroup};
pub use item::{CustomElement, CustomElementView, ItemView, SettingItem};
pub use number::Number;
pub use options::{Axis, GroupBoxVariant, NumberFieldOptions, RenderOptions, Size};
pub use page::{PageView, ResetError, SettingPage};
pub use settings::{Settings, SettingsView};
pub use state::{
    Accessor, AppSettings, AppSettingsView, BoolKey, Globals, NumberKey, TextKey,
};
pub use value::{SettingValue, ValueKind, ValueView};
