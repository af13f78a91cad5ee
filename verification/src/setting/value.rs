//! The values that settings hold.

use vstd::prelude::*;
use crate::setting::number::Number;

verus! {

/// The three kinds of value a setting can hold.
#[derive(Clone, Copy, Debug, PartialEq, Eq, Structural)]
pub enum ValueKind {
    Bool,
    Text,
    Number,
}

/// One setting value: what a getter returns and a setter takes.
#[derive(Debug, PartialEq, Eq)]
pub enum SettingValue {
    Bool(bool),
    Text(String),
    Number(Number),
}

/// The mathematical content of a [`SettingValue`].
pub enum ValueView {
    Bool(bool),
    Text(Seq<char>),
    Number(int),
}

impl ValueView {
    /// The kind of this value.
    pub open spec fn kind(self) -> ValueKind {
        match self {
            ValueView::Bool(_) => ValueKind::Bool,
            ValueView::Text(_) => ValueKind::Text,
            ValueView::Number(_) => ValueKind::Number,
        }
    }
}

impl View for SettingValue {
    type V = ValueView;

    open spec fn view(&self) -> ValueView {
        match self {
            SettingValue::Bool(b) => ValueView::Bool(*b),
            SettingValue::Text(t) => ValueView::Text(t@),
            SettingValue::Number(n) => ValueView::Number(n@),
        }
    }
}

impl DeepView for SettingValue {
    type V = ValueView;

    open spec fn deep_view(&self) -> ValueView {
        self@
    }
}

impl Clone for SettingValue {
    fn clone(&self) -> (copy: Self)
        ensures
            copy == *self,
    {
        match self {
            SettingValue::Bool(b) => SettingValue::Bool(*b),
            SettingValue::Text(t) => SettingValue::Text(t.clone()),
            SettingValue::Number(n) => SettingValue::Number(*n),
        }
    }
}

impl SettingValue {
    /// The kind of this value.
    pub fn kind(&self) -> (kind: ValueKind)
        ensures
            kind == self@.kind(),
    {
        match self {
            SettingValue::Bool(_) => ValueKind::Bool,
            SettingValue::Text(_) => ValueKind::Text,
            SettingValue::Number(_) => ValueKind::Number,
        }
    }

    /// Whether both values have the same kind and the same content.
    pub fn same(&self, other: &SettingValue) -> (equal: bool)
        ensures
            equal == (self@ == other@),
    {
        match self {
            SettingValue::Bool(a) => match other {
                SettingValue::Bool(b) => *a == *b,
                _ => false,
            },
            SettingValue::Text(a) => match other {
                SettingValue::Text(b) => *a == *b,
                _ => false,
            },
            SettingValue::Number(a) => match other {
                SettingValue::Number(b) => a.millis() == b.millis(),
                _ => false,
            },
        }
    }
}

} // verus!
