//! Fields: one typed, bindable value slot each, with its control, its
//! accessor and its declared default.

use vstd::prelude::*;
use crate::setting::number::clamp;
use crate::setting::options::{NumberFieldOptions, RenderOptions, Size};
use crate::setting::state::{Accessor, AppSettings, AppSettingsView, BoolKey, NumberKey, TextKey};
use crate::setting::value::{SettingValue, ValueKind, ValueView};

verus! {

/// Why a declarative description of settings is refused.
#[derive(Clone, Copy, Debug, PartialEq, Eq, Structural)]
pub enum ConfigError {
    /// A numeric field whose lower bound lies above its upper bound.
    InvalidBounds,
    /// A dropdown without a single option.
    EmptyOptions,
    /// A second default for a field that has one.
    DuplicateDefault,
    /// A default of another kind than the field's values, or a default for a
    /// custom element, which holds no value.
    DefaultTypeMismatch,
    /// An item whose field holds a value but declares no default.
    MissingDefault,
}

impl ConfigError {
    /// The refusal in words.
    pub open spec fn text(self) -> Seq<char> {
        match self {
            ConfigError::InvalidBounds => "lower bound above upper bound"@,
            ConfigError::EmptyOptions => "dropdown without options"@,
            ConfigError::DuplicateDefault => "default declared twice"@,
            ConfigError::DefaultTypeMismatch => "default of the wrong kind"@,
            ConfigError::MissingDefault => "field without default"@,
        }
    }

    /// The refusal in words.
    pub fn message(&self) -> (text: &'static str)
        ensures
            text@ == self.text(),
    {
        match self {
            ConfigError::InvalidBounds => "lower bound above upper bound",
            ConfigError::EmptyOptions => "dropdown without options",
            ConfigError::DuplicateDefault => "default declared twice",
            ConfigError::DefaultTypeMismatch => "default of the wrong kind",
            ConfigError::MissingDefault => "field without default",
        }
    }
}

/// A custom field element: a button that opens a URL.
#[derive(Debug, PartialEq, Eq)]
pub struct OpenURLSettingField {
    label: String,
    url: String,
}

/// The mathematical content of an [`OpenURLSettingField`].
pub struct OpenUrlView {
    pub label: Seq<char>,
    pub url: Seq<char>,
}

impl View for OpenURLSettingField {
    type V = OpenUrlView;

    closed spec fn view(&self) -> OpenUrlView {
        OpenUrlView { label: self.label@, url: self.url@ }
    }
}

/// A button as a custom element asks for it to be drawn.
#[derive(Debug, PartialEq, Eq)]
pub struct Button {
    /// The element id.
    pub id: String,
    /// The text on the button.
    pub label: String,
    /// The size of the button.
    pub size: Size,
    /// Whether the button is drawn as an outline.
    pub outline: bool,
    /// The URL that a click opens.
    pub url: String,
}

impl Clone for OpenURLSettingField {
    fn clone(&self) -> (copy: OpenURLSettingField)
        ensures
            copy@ == self@,
    {
        OpenURLSettingField { label: self.label.clone(), url: self.url.clone() }
    }
}

impl OpenURLSettingField {
    /// A button labelled `label` that opens `url`.
    pub fn new(label: &str, url: &str) -> (element: OpenURLSettingField)
        ensures
            element@ == (OpenUrlView { label: label@, url: url@ }),
    {
        OpenURLSettingField { label: label.to_owned(), url: url.to_owned() }
    }

    /// The text on the button.
    pub fn label(&self) -> (label: &String)
        ensures
            label@ == self@.label,
    {
        &self.label
    }

    /// The URL that a click opens.
    pub fn url(&self) -> (url: &String)
        ensures
            url@ == self@.url,
    {
        &self.url
    }

    /// The button to draw for this element: outlined, in the size of the
    /// surrounding view, opening the element's URL.
    pub fn render_field(&self, options: &RenderOptions) -> (button: Button)
        ensures
            button.id@ == "open-url"@,
            button.label@ == self@.label,
            button.size == options.size,
            button.outline,
            button.url@ == self@.url,
    {
        Button {
            id: "open-url".to_owned(),
            label: self.label.clone(),
            size: options.size,
            outline: true,
            url: self.url.clone(),
        }
    }
}

/// With which control a field is edited.
#[derive(Debug, PartialEq, Eq)]
pub enum Control {
    /// A boolean drawn as a switch.
    Switch,
    /// A boolean drawn as a checkbox.
    Checkbox,
    /// Free text.
    Input,
    /// A number kept within bounds.
    NumberInput(NumberFieldOptions),
    /// One of the listed options, each a stored value and its display label.
    Dropdown(Vec<(String, String)>),
    /// A custom element, which holds no value.
    Element(OpenURLSettingField),
}

/// The mathematical content of a [`Control`].
pub enum ControlView {
    Switch,
    Checkbox,
    Input,
    NumberInput(NumberFieldOptions),
    Dropdown(Seq<(Seq<char>, Seq<char>)>),
    Element(OpenUrlView),
}

impl View for Control {
    type V = ControlView;

    open spec fn view(&self) -> ControlView {
        match self {
            Control::Switch => ControlView::Switch,
            Control::Checkbox => ControlView::Checkbox,
            Control::Input => ControlView::Input,
            Control::NumberInput(options) => ControlView::NumberInput(*options),
            Control::Dropdown(options) => ControlView::Dropdown(options.deep_view()),
            Control::Element(element) => ControlView::Element(element@),
        }
    }
}

/// Whether `options` lists `text` as a stored value.
pub open spec fn offers(options: Seq<(Seq<char>, Seq<char>)>, text: Seq<char>) -> bool {
    exists|i: int| 0 <= i < options.len() && (#[trigger] options[i]).0 == text
}

/// Whether `position` is that of the first option of `options` whose stored
/// value is `text`.
pub open spec fn is_first_offer(
    options: Seq<(Seq<char>, Seq<char>)>,
    text: Seq<char>,
    position: int,
) -> bool {
    &&& 0 <= position < options.len()
    &&& options[position].0 == text
    &&& forall|j: int| 0 <= j < position ==> (#[trigger] options[j]).0 != text
}

impl ControlView {
    /// The kind of value that the control edits; none for a custom element.
    pub open spec fn value_kind(self) -> Option<ValueKind> {
        match self {
            ControlView::Switch | ControlView::Checkbox => Some(ValueKind::Bool),
            ControlView::Input | ControlView::Dropdown(_) => Some(ValueKind::Text),
            ControlView::NumberInput(_) => Some(ValueKind::Number),
            ControlView::Element(_) => None,
        }
    }

    /// What the control hands to the accessor's setter when it is given
    /// `value`: a number clamped to the bounds, a dropdown text only where it
    /// is one of the options, nothing for a value of the wrong kind.
    pub open spec fn accept(self, value: ValueView) -> Option<ValueView> {
        match (self, value) {
            (ControlView::Switch, ValueView::Bool(_)) => Some(value),
            (ControlView::Checkbox, ValueView::Bool(_)) => Some(value),
            (ControlView::Input, ValueView::Text(_)) => Some(value),
            (ControlView::NumberInput(options), ValueView::Number(n)) => Some(
                ValueView::Number(clamp(n, options.min@, options.max@)),
            ),
            (ControlView::Dropdown(options), ValueView::Text(t)) => if offers(options, t) {
                Some(value)
            } else {
                None
            },
            _ => None,
        }
    }
}

/// One bindable, typed, editable value slot.
#[derive(Debug)]
pub struct SettingField {
    control: Control,
    accessor: Option<Accessor>,
    default_value: Option<SettingValue>,
}

/// The mathematical content of a [`SettingField`].
pub struct FieldView {
    /// The control and its options.
    pub control: ControlView,
    /// The slot that the field reads and writes; none for a custom element.
    pub accessor: Option<Accessor>,
    /// The declared default, which a reset restores.
    pub default_value: Option<ValueView>,
}

impl FieldView {
    /// The invariant of every field that the constructors hand out: the
    /// accessor has the kind of the control's values, numeric bounds are in
    /// order, a dropdown has an option, a default has the kind of the
    /// accessor, and a custom element has neither accessor nor default.
    pub open spec fn wf(self) -> bool {
        &&& match self.accessor {
            Some(accessor) => self.control.value_kind() == Some(accessor.spec_kind()),
            None => self.control is Element,
        }
        &&& self.control matches ControlView::NumberInput(options) ==> options.valid()
        &&& self.control matches ControlView::Dropdown(options) ==> options.len() > 0
        &&& self.default_value matches Some(value) ==> self.control.value_kind() == Some(
            value.kind(),
        )
    }

    /// Whether `value` can still be declared as the default: the field has
    /// none yet and holds values of this kind.
    pub open spec fn admits_default(self, value: ValueView) -> bool {
        &&& self.default_value is None
        &&& self.accessor matches Some(accessor)
        &&& accessor.spec_kind() == value.kind()
    }

    /// Why a default is refused, where it is: the field has one already,
    /// or else the kind of the value is not that of the field.
    pub open spec fn default_refusal(self) -> ConfigError {
        if self.default_value is Some {
            ConfigError::DuplicateDefault
        } else {
            ConfigError::DefaultTypeMismatch
        }
    }

    /// Whether the field is a custom element.
    pub open spec fn is_custom(self) -> bool {
        self.accessor is None
    }

    /// What the getter returns in `state`; nothing for a custom element.
    pub open spec fn read(self, state: AppSettingsView) -> Option<ValueView> {
        match self.accessor {
            Some(accessor) => Some(state.read(accessor)),
            None => None,
        }
    }

    /// Whether the setter stores anything when given `value`.
    pub open spec fn takes(self, value: ValueView) -> bool {
        &&& self.accessor matches Some(accessor)
        &&& self.control.accept(value) matches Some(passed)
        &&& passed.kind() == accessor.spec_kind()
    }

    /// Whether the setter stores `value` exactly as given.
    pub open spec fn keeps(self, value: ValueView) -> bool {
        self.takes(value) && self.control.accept(value) == Some(value)
    }

    /// Whether a dropdown shows an option as selected in `state`: the
    /// field is a dropdown and the current value of its slot is among its
    /// options.
    pub open spec fn has_selection(self, state: AppSettingsView) -> bool {
        self.control matches ControlView::Dropdown(options) && self.read(state) matches Some(
            ValueView::Text(current),
        ) && offers(options, current)
    }

    /// Whether `position` is that of the option that a dropdown shows as
    /// selected in `state`: the first option whose stored value is the
    /// current value of the slot.
    pub open spec fn selects(self, state: AppSettingsView, position: int) -> bool {
        self.control matches ControlView::Dropdown(options) && self.read(state) matches Some(
            ValueView::Text(current),
        ) && is_first_offer(options, current, position)
    }

    /// The state that the setter leaves behind when given `value` in `state`.
    pub open spec fn write(self, state: AppSettingsView, value: ValueView) -> AppSettingsView {
        match (self.accessor, self.control.accept(value)) {
            (Some(accessor), Some(passed)) => state.write(accessor, passed),
            _ => state,
        }
    }

    /// Whether the field holds, in `state`, another value than its declared
    /// default. A field without a default, and a custom element, never does.
    pub open spec fn differs(self, state: AppSettingsView) -> bool {
        &&& self.accessor matches Some(accessor)
        &&& self.default_value matches Some(value)
        &&& state.read(accessor) != value
    }

    /// The state that restoring the declared default leaves behind.
    pub open spec fn restore(self, state: AppSettingsView) -> AppSettingsView {
        match self.default_value {
            Some(value) => self.write(state, value),
            None => state,
        }
    }
}

impl View for SettingField {
    type V = FieldView;

    closed spec fn view(&self) -> FieldView {
        FieldView {
            control: self.control@,
            accessor: self.accessor,
            default_value: match self.default_value {
                Some(value) => Some(value@),
                None => None,
            },
        }
    }
}

impl DeepView for SettingField {
    type V = FieldView;

    open spec fn deep_view(&self) -> FieldView {
        self@
    }
}

/// Whether `options` lists `text` as a stored value.
pub fn is_offered(options: &Vec<(String, String)>, text: &String) -> (found: bool)
    ensures
        found == offers(options.deep_view(), text@),
{
    let mut i: usize = 0;
    while i < options.len()
        invariant
            i <= options.len(),
            forall|j: int| 0 <= j < i ==> (#[trigger] options.deep_view()[j]).0 != text@,
        decreases options.len() - i,
    {
        assert(options.deep_view()[i as int] == (options@[i as int].0@, options@[i as int].1@));
        if options[i].0 == *text {
            return true;
        }
        i += 1;
    }
    false
}

impl SettingField {
    /// A boolean field drawn as a switch.
    pub fn switch(key: BoolKey) -> (field: SettingField)
        ensures
            field@ == (FieldView {
                control: ControlView::Switch,
                accessor: Some(Accessor::Bool(key)),
                default_value: None,
            }),
            field@.wf(),
    {
        SettingField {
            control: Control::Switch,
            accessor: Some(Accessor::Bool(key)),
            default_value: None,
        }
    }

    /// A boolean field drawn as a checkbox.
    pub fn checkbox(key: BoolKey) -> (field: SettingField)
        ensures
            field@ == (FieldView {
                control: ControlView::Checkbox,
                accessor: Some(Accessor::Bool(key)),
                default_value: None,
            }),
            field@.wf(),
    {
        SettingField {
            control: Control::Checkbox,
            accessor: Some(Accessor::Bool(key)),
            default_value: None,
        }
    }

    /// A free-text field.
    pub fn input(key: TextKey) -> (field: SettingField)
        ensures
            field@ == (FieldView {
                control: ControlView::Input,
                accessor: Some(Accessor::Text(key)),
                default_value: None,
            }),
            field@.wf(),
    {
        SettingField {
            control: Control::Input,
            accessor: Some(Accessor::Text(key)),
            default_value: None,
        }
    }

    /// A numeric field that keeps its value within the bounds of `options`.
    /// Bounds in the wrong order are refused.
    pub fn number_input(options: NumberFieldOptions, key: NumberKey) -> (made: Result<
        SettingField,
        ConfigError,
    >)
        ensures
            made is Ok <==> options.valid(),
            made matches Ok(field) ==> field@.wf() && field@ == (FieldView {
                control: ControlView::NumberInput(options),
                accessor: Some(Accessor::Number(key)),
                default_value: None,
            }),
            made matches Err(error) ==> error == ConfigError::InvalidBounds,
    {
        if !options.is_valid() {
            return Err(ConfigError::InvalidBounds);
        }
        Ok(
            SettingField {
                control: Control::NumberInput(options),
                accessor: Some(Accessor::Number(key)),
                default_value: None,
            },
        )
    }

    /// A field that selects one of `options`, each a stored value with its
    /// display label. An empty list is refused.
    pub fn dropdown(options: Vec<(String, String)>, key: TextKey) -> (made: Result<
        SettingField,
        ConfigError,
    >)
        ensures
            made is Ok <==> options.len() > 0,
            made matches Ok(field) ==> field@.wf() && field@ == (FieldView {
                control: ControlView::Dropdown(options.deep_view()),
                accessor: Some(Accessor::Text(key)),
                default_value: None,
            }),
            made matches Err(error) ==> error == ConfigError::EmptyOptions,
    {
        if options.len() == 0 {
            return Err(ConfigError::EmptyOptions);
        }
        Ok(
            SettingField {
                control: Control::Dropdown(options),
                accessor: Some(Accessor::Text(key)),
                default_value: None,
            },
        )
    }

    /// A custom element in the place of a control. It holds no value.
    pub fn element(element: OpenURLSettingField) -> (field: SettingField)
        ensures
            field@ == (FieldView {
                control: ControlView::Element(element@),
                accessor: None,
                default_value: None,
            }),
            field@.wf(),
    {
        SettingField { control: Control::Element(element), accessor: None, default_value: None }
    }

    /// Declares the default that a reset restores. It is captured here, once:
    /// a second default is refused, and so is one whose kind is not that of
    /// the field's values.
    pub fn default_value(self, value: SettingValue) -> (made: Result<SettingField, ConfigError>)
        ensures
            made is Ok <==> self@.admits_default(value@),
            made matches Ok(field) ==> field@ == (FieldView {
                default_value: Some(value@),
                ..self@
            }) && (self@.wf() ==> field@.wf()),
            made matches Err(error) ==> error == self@.default_refusal(),
    {
        if self.default_value.is_some() {
            return Err(ConfigError::DuplicateDefault);
        }
        match self.accessor {
            Some(accessor) => {
                if accessor.kind() == value.kind() {
                    Ok(
                        SettingField {
                            control: self.control,
                            accessor: self.accessor,
                            default_value: Some(value),
                        },
                    )
                } else {
                    Err(ConfigError::DefaultTypeMismatch)
                }
            },
            None => Err(ConfigError::DefaultTypeMismatch),
        }
    }

    /// The control of the field.
    pub fn control(&self) -> (control: &Control)
        ensures
            control@ == self@.control,
    {
        &self.control
    }

    /// The slot that the field is bound to; none for a custom element.
    pub fn accessor(&self) -> (accessor: Option<Accessor>)
        ensures
            accessor == self@.accessor,
    {
        self.accessor
    }

    /// The declared default.
    pub fn default(&self) -> (value: Option<&SettingValue>)
        ensures
            value matches Some(v) ==> self@.default_value == Some(v@),
            value is None ==> self@.default_value is None,
    {
        self.default_value.as_ref()
    }

    /// Whether the field is a custom element.
    pub fn is_custom(&self) -> (custom: bool)
        ensures
            custom == self@.is_custom(),
    {
        self.accessor.is_none()
    }

    /// The getter: the current value of the field in `state`, nothing for a
    /// custom element. Reads only.
    pub fn value(&self, state: &AppSettings) -> (value: Option<SettingValue>)
        ensures
            value.deep_view() == self@.read(state@),
    {
        match self.accessor {
            Some(accessor) => Some(state.get(accessor)),
            None => None,
        }
    }

    /// The position of the option that a dropdown shows as selected: the
    /// first option whose stored value is the current value in `state`.
    ///
    /// None where the current value is not among the options, in which case
    /// the dropdown shows no selection, and for every field that is no
    /// dropdown. Reads only.
    pub fn selected(&self, state: &AppSettings) -> (position: Option<usize>)
        ensures
            position is Some <==> self@.has_selection(state@),
            position matches Some(i) ==> self@.selects(state@, i as int),
    {
        let accessor = match self.accessor {
            Some(accessor) => accessor,
            None => {
                return None;
            },
        };
        match &self.control {
            Control::Dropdown(options) => match state.get(accessor) {
                SettingValue::Text(current) => {
                    let mut i: usize = 0;
                    while i < options.len()
                        invariant
                            i <= options.len(),
                            self@.control == ControlView::Dropdown(options.deep_view()),
                            self@.read(state@) == Some(ValueView::Text(current@)),
                            forall|j: int|
                                0 <= j < i ==> (#[trigger] options.deep_view()[j]).0 != current@,
                        decreases options.len() - i,
                    {
                        assert(options.deep_view()[i as int] == (
                            options@[i as int].0@,
                            options@[i as int].1@,
                        ));
                        if options[i].0 == current {
                            return Some(i);
                        }
                        i += 1;
                    }
                    None
                },
                _ => None,
            },
            _ => None,
        }
    }

    /// Whether the current value of the field in `state` is another than the
    /// declared default. Reads only.
    pub fn is_modified(&self, state: &AppSettings) -> (modified: bool)
        ensures
            modified == self@.differs(state@),
    {
        match self.accessor {
            Some(accessor) => match &self.default_value {
                Some(value) => !state.get(accessor).same(value),
                None => false,
            },
            None => false,
        }
    }

    /// The setter: stores `value` in the field's slot of `state`.
    ///
    /// A number is clamped to the bounds before it is stored. A dropdown
    /// stores only one of its options. A value that is not stored leaves
    /// `state` as it was, and so does every call on a custom element.
    pub fn set_value(&self, value: SettingValue, state: &mut AppSettings) -> (stored: bool)
        ensures
            stored == self@.takes(value@),
            final(state)@ == self@.write(old(state)@, value@),
    {
        let accessor = match self.accessor {
            Some(accessor) => accessor,
            None => {
                return false;
            },
        };
        match &self.control {
            Control::Switch | Control::Checkbox => match value {
                SettingValue::Bool(_) => state.set(accessor, value),
                _ => false,
            },
            Control::Input => match value {
                SettingValue::Text(_) => state.set(accessor, value),
                _ => false,
            },
            Control::NumberInput(options) => match value {
                SettingValue::Number(n) => state.set(
                    accessor,
                    SettingValue::Number(n.clamp(options.min, options.max)),
                ),
                _ => false,
            },
            Control::Dropdown(options) => match value {
                SettingValue::Text(text) => {
                    if is_offered(options, &text) {
                        state.set(accessor, SettingValue::Text(text))
                    } else {
                        false
                    }
                },
                _ => false,
            },
            Control::Element(_) => false,
        }
    }

    /// Restores the declared default through the setter. A field without a
    /// default leaves `state` as it was.
    pub fn reset(&self, state: &mut AppSettings) -> (stored: bool)
        ensures
            stored == (self@.default_value matches Some(value) && self@.takes(value)),
            final(state)@ == self@.restore(old(state)@),
    {
        match &self.default_value {
            Some(value) => self.set_value(value.clone(), state),
            None => false,
        }
    }
}

} // verus!
