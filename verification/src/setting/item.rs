//! Items: one row of a settings page each.

use vstd::prelude::*;
use crate::icon::IconName;
use crate::setting::field::{ConfigError, FieldView, OpenURLSettingField, OpenUrlView, SettingField};
use crate::setting::options::Axis;
use crate::setting::state::{Accessor, AppSettings, AppSettingsView};
use crate::setting::value::{SettingValue, ValueView};

verus! {

/// A row that the application draws by itself. It holds no value, has no
/// default and is passed over by a reset.
#[derive(Debug, PartialEq, Eq)]
pub enum CustomElement {
    /// A line of text beside a button that opens a URL.
    Link { text: String, icon: IconName, button: OpenURLSettingField },
    /// A centred banner: an icon above a title and a caption.
    Banner { icon: IconName, title: String, caption: String },
}

/// The mathematical content of a [`CustomElement`].
pub enum CustomElementView {
    Link { text: Seq<char>, icon: IconName, button: OpenUrlView },
    Banner { icon: IconName, title: Seq<char>, caption: Seq<char> },
}

impl DeepView for CustomElement {
    type V = CustomElementView;

    open spec fn deep_view(&self) -> CustomElementView {
        self@
    }
}

impl View for CustomElement {
    type V = CustomElementView;

    open spec fn view(&self) -> CustomElementView {
        match self {
            CustomElement::Link { text, icon, button } => CustomElementView::Link {
                text: text@,
                icon: *icon,
                button: button@,
            },
            CustomElement::Banner { icon, title, caption } => CustomElementView::Banner {
                icon: *icon,
                title: title@,
                caption: caption@,
            },
        }
    }
}

#[derive(Debug)]
enum Row {
    Field { label: String, description: Option<String>, layout: Axis, field: SettingField },
    Element(CustomElement),
}

/// One row of a settings page: a labelled field, or a custom element.
#[derive(Debug)]
pub struct SettingItem {
    row: Row,
}

/// The mathematical content of a [`SettingItem`].
pub enum ItemView {
    /// A labelled, described field.
    Field { label: Seq<char>, description: Option<Seq<char>>, layout: Axis, field: FieldView },
    /// A custom element in the place of the whole row.
    Element(CustomElementView),
}

impl ItemView {
    /// The invariant of every item that the constructors hand out: its field
    /// is well formed and, unless it is a custom element, declares a default.
    pub open spec fn wf(self) -> bool {
        self matches ItemView::Field { field, .. } ==> field.wf() && (field.is_custom()
            || field.default_value is Some)
    }

    /// The label of the row; none for a custom element.
    pub open spec fn label(self) -> Option<Seq<char>> {
        match self {
            ItemView::Field { label, .. } => Some(label),
            ItemView::Element(_) => None,
        }
    }

    /// The description of the row, where it has one.
    pub open spec fn description(self) -> Option<Seq<char>> {
        match self {
            ItemView::Field { description, .. } => description,
            ItemView::Element(_) => None,
        }
    }

    /// The axis along which the row is laid out; none for a custom element.
    pub open spec fn layout(self) -> Option<Axis> {
        match self {
            ItemView::Field { layout, .. } => Some(layout),
            ItemView::Element(_) => None,
        }
    }

    /// The field of the row; none for a custom element.
    pub open spec fn field(self) -> Option<FieldView> {
        match self {
            ItemView::Field { field, .. } => Some(field),
            ItemView::Element(_) => None,
        }
    }

    /// The custom element that makes up the row, where it is one.
    pub open spec fn element(self) -> Option<CustomElementView> {
        match self {
            ItemView::Field { .. } => None,
            ItemView::Element(element) => Some(element),
        }
    }

    /// The same row, described by `text`; a custom element as it is.
    pub open spec fn described(self, text: Seq<char>) -> ItemView {
        match self {
            ItemView::Field { label, description, layout, field } => ItemView::Field {
                label,
                description: Some(text),
                layout,
                field,
            },
            ItemView::Element(_) => self,
        }
    }

    /// The same row, laid out along `axis`; a custom element as it is.
    pub open spec fn laid_out(self, axis: Axis) -> ItemView {
        match self {
            ItemView::Field { label, description, layout, field } => ItemView::Field {
                label,
                description,
                layout: axis,
                field,
            },
            ItemView::Element(_) => self,
        }
    }

    /// The slot that the row reads and writes, where it holds a value.
    pub open spec fn accessor(self) -> Option<Accessor> {
        match self {
            ItemView::Field { field, .. } => field.accessor,
            ItemView::Element(_) => None,
        }
    }

    /// The declared default of the row, where it holds a value.
    pub open spec fn default_value(self) -> Option<ValueView> {
        match self {
            ItemView::Field { field, .. } => field.default_value,
            ItemView::Element(_) => None,
        }
    }

    /// Whether the row is bound to the slot of `accessor`.
    pub open spec fn binds(self, accessor: Accessor) -> bool {
        self.accessor() == Some(accessor)
    }

    /// Whether the setter of the row stores the declared default exactly as
    /// declared: a number within the bounds, a dropdown text among the
    /// options.
    pub open spec fn keeps_default(self) -> bool {
        self matches ItemView::Field { field, .. } && field.default_value matches Some(value)
            && field.keeps(value)
    }

    /// Whether the row holds, in `state`, another value than its declared
    /// default. A custom element never does.
    pub open spec fn differs(self, state: AppSettingsView) -> bool {
        self matches ItemView::Field { field, .. } && field.differs(state)
    }

    /// What the getter of the row returns in `state`; nothing for a custom
    /// element.
    pub open spec fn read(self, state: AppSettingsView) -> Option<ValueView> {
        match self {
            ItemView::Field { field, .. } => field.read(state),
            ItemView::Element(_) => None,
        }
    }

    /// The state that restoring the default of the row leaves behind. A
    /// custom element leaves `state` as it is.
    pub open spec fn restore(self, state: AppSettingsView) -> AppSettingsView {
        match self {
            ItemView::Field { field, .. } => field.restore(state),
            ItemView::Element(_) => state,
        }
    }
}

impl View for SettingItem {
    type V = ItemView;

    closed spec fn view(&self) -> ItemView {
        match self.row {
            Row::Field { label, description, layout, field } => ItemView::Field {
                label: label@,
                description: description.deep_view(),
                layout,
                field: field@,
            },
            Row::Element(element) => ItemView::Element(element@),
        }
    }
}

impl DeepView for SettingItem {
    type V = ItemView;

    open spec fn deep_view(&self) -> ItemView {
        self@
    }
}

impl SettingItem {
    /// A row labelled `label` that edits `field`, laid out horizontally and
    /// without a description. A field that holds a value and declares no
    /// default is refused.
    pub fn new(label: &str, field: SettingField) -> (made: Result<SettingItem, ConfigError>)
        ensures
            made is Ok <==> field@.is_custom() || field@.default_value is Some,
            made matches Ok(item) ==> item@ == (ItemView::Field {
                label: label@,
                description: None,
                layout: Axis::Horizontal,
                field: field@,
            }) && (field@.wf() ==> item@.wf()),
            made matches Err(error) ==> error == ConfigError::MissingDefault,
    {
        if !field.is_custom() && field.default().is_none() {
            return Err(ConfigError::MissingDefault);
        }
        Ok(
            SettingItem {
                row: Row::Field {
                    label: label.to_owned(),
                    description: None,
                    layout: Axis::Horizontal,
                    field,
                },
            },
        )
    }

    /// A row that is one custom element.
    pub fn render(element: CustomElement) -> (item: SettingItem)
        ensures
            item@ == ItemView::Element(element@),
            item@.wf(),
    {
        SettingItem { row: Row::Element(element) }
    }

    /// The same row, described by `text`. Purely informational; a custom
    /// element has no description and stays as it is.
    pub fn description(self, text: &str) -> (item: SettingItem)
        ensures
            item@ == self@.described(text@),
            self@.wf() ==> item@.wf(),
    {
        match self.row {
            Row::Field { label, description, layout, field } => SettingItem {
                row: Row::Field { label, description: Some(text.to_owned()), layout, field },
            },
            Row::Element(element) => SettingItem { row: Row::Element(element) },
        }
    }

    /// The same row, laid out along `axis`. Affects presentation only; a
    /// custom element lays itself out and stays as it is.
    pub fn layout(self, axis: Axis) -> (item: SettingItem)
        ensures
            item@ == self@.laid_out(axis),
            self@.wf() ==> item@.wf(),
    {
        match self.row {
            Row::Field { label, description, layout, field } => SettingItem {
                row: Row::Field { label, description, layout: axis, field },
            },
            Row::Element(element) => SettingItem { row: Row::Element(element) },
        }
    }

    /// The label of the row; none for a custom element.
    pub fn label(&self) -> (label: Option<&String>)
        ensures
            label.deep_view() == self@.label(),
    {
        match &self.row {
            Row::Field { label, .. } => Some(label),
            Row::Element(_) => None,
        }
    }

    /// The description of the row, where it has one.
    pub fn description_text(&self) -> (text: Option<&String>)
        ensures
            text.deep_view() == self@.description(),
    {
        match &self.row {
            Row::Field { description, .. } => description.as_ref(),
            Row::Element(_) => None,
        }
    }

    /// The axis along which the row is laid out; none for a custom element.
    pub fn axis(&self) -> (axis: Option<Axis>)
        ensures
            axis == self@.layout(),
    {
        match &self.row {
            Row::Field { layout, .. } => Some(*layout),
            Row::Element(_) => None,
        }
    }

    /// The field of the row; none for a custom element.
    pub fn field(&self) -> (field: Option<&SettingField>)
        ensures
            field.deep_view() == self@.field(),
    {
        match &self.row {
            Row::Field { field, .. } => Some(field),
            Row::Element(_) => None,
        }
    }

    /// The custom element that makes up the row, where it is one.
    pub fn element(&self) -> (element: Option<&CustomElement>)
        ensures
            element.deep_view() == self@.element(),
    {
        match &self.row {
            Row::Field { .. } => None,
            Row::Element(element) => Some(element),
        }
    }

    /// The getter of the row: the current value of its field in `state`.
    pub fn value(&self, state: &AppSettings) -> (value: Option<SettingValue>)
        ensures
            value.deep_view() == self@.read(state@),
    {
        match &self.row {
            Row::Field { field, .. } => field.value(state),
            Row::Element(_) => None,
        }
    }

    /// Whether the current value of the row in `state` is another than its
    /// declared default. Reads only.
    pub fn is_modified(&self, state: &AppSettings) -> (modified: bool)
        ensures
            modified == self@.differs(state@),
    {
        match &self.row {
            Row::Field { field, .. } => field.is_modified(state),
            Row::Element(_) => false,
        }
    }

    /// Restores the declared default of the row. A custom element is passed
    /// over.
    pub fn reset(&self, state: &mut AppSettings)
        ensures
            final(state)@ == self@.restore(old(state)@),
    {
        match &self.row {
            Row::Field { field, .. } => {
                field.reset(state);
            },
            Row::Element(_) => {},
        }
    }
}

} // verus!
