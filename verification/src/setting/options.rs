//! Presentation choices and per-field options.

use vstd::prelude::*;
use crate::setting::number::{Number, MILLIS_PER_UNIT};

verus! {

/// The direction in which an item lays out its label and its field.
#[derive(Clone, Copy, Debug, PartialEq, Eq, Structural)]
pub enum Axis {
    /// Label and field side by side.
    Horizontal,
    /// Label above the field.
    Vertical,
}

/// The visual size of the controls of a settings view.
#[derive(Clone, Copy, Debug, PartialEq, Eq, Structural)]
pub enum Size {
    XSmall,
    Small,
    Medium,
    Large,
}

/// How the box around a group of settings is drawn.
#[derive(Clone, Copy, Debug, PartialEq, Eq, Structural)]
pub enum GroupBoxVariant {
    Normal,
    Fill,
    Outline,
}

impl Size {
    /// The name under which this size is stored and offered for selection.
    pub open spec fn name(self) -> Seq<char> {
        match self {
            Size::XSmall => "xsmall"@,
            Size::Small => "small"@,
            Size::Medium => "medium"@,
            Size::Large => "large"@,
        }
    }

    /// The size that `text` names; `Medium` where it names none.
    pub open spec fn parse(text: Seq<char>) -> Size {
        if text == "xsmall"@ {
            Size::XSmall
        } else if text == "small"@ {
            Size::Small
        } else if text == "large"@ {
            Size::Large
        } else {
            Size::Medium
        }
    }

    /// The name of this size.
    pub fn as_str(&self) -> (name: &'static str)
        ensures
            name@ == self.name(),
    {
        match self {
            Size::XSmall => "xsmall",
            Size::Small => "small",
            Size::Medium => "medium",
            Size::Large => "large",
        }
    }

    /// The size that `text` names, falling back to [`Size::Medium`].
    pub fn from_str(text: &str) -> (size: Size)
        ensures
            size == Size::parse(text@),
    {
        let text = text.to_owned();
        if text == "xsmall".to_owned() {
            Size::XSmall
        } else if text == "small".to_owned() {
            Size::Small
        } else if text == "large".to_owned() {
            Size::Large
        } else {
            Size::Medium
        }
    }
}

impl Default for Size {
    fn default() -> (size: Size)
        ensures
            size == Size::Medium,
    {
        Size::Medium
    }
}

impl GroupBoxVariant {
    /// The name under which this variant is stored and offered for selection.
    pub open spec fn name(self) -> Seq<char> {
        match self {
            GroupBoxVariant::Normal => "normal"@,
            GroupBoxVariant::Fill => "fill"@,
            GroupBoxVariant::Outline => "outline"@,
        }
    }

    /// The variant that `text` names; `Normal` where it names none.
    pub open spec fn parse(text: Seq<char>) -> GroupBoxVariant {
        if text == "fill"@ {
            GroupBoxVariant::Fill
        } else if text == "outline"@ {
            GroupBoxVariant::Outline
        } else {
            GroupBoxVariant::Normal
        }
    }

    /// The name of this variant.
    pub fn as_str(&self) -> (name: &'static str)
        ensures
            name@ == self.name(),
    {
        match self {
            GroupBoxVariant::Normal => "normal",
            GroupBoxVariant::Fill => "fill",
            GroupBoxVariant::Outline => "outline",
        }
    }

    /// The variant that `text` names, falling back to
    /// [`GroupBoxVariant::Normal`].
    pub fn from_str(text: &str) -> (variant: GroupBoxVariant)
        ensures
            variant == GroupBoxVariant::parse(text@),
    {
        let text = text.to_owned();
        if text == "fill".to_owned() {
            GroupBoxVariant::Fill
        } else if text == "outline".to_owned() {
            GroupBoxVariant::Outline
        } else {
            GroupBoxVariant::Normal
        }
    }
}

impl Default for GroupBoxVariant {
    fn default() -> (variant: GroupBoxVariant)
        ensures
            variant == GroupBoxVariant::Normal,
    {
        GroupBoxVariant::Normal
    }
}

/// Every size is found again from its name.
pub proof fn lemma_size_name_round_trip(size: Size)
    ensures
        Size::parse(size.name()) == size,
{
    reveal_strlit("xsmall");
    reveal_strlit("small");
    reveal_strlit("medium");
    reveal_strlit("large");
    assert("xsmall"@.len() == 6 && "xsmall"@[0] == 'x');
    assert("small"@.len() == 5 && "small"@[0] == 's');
    assert("medium"@.len() == 6 && "medium"@[0] == 'm');
    assert("large"@.len() == 5 && "large"@[0] == 'l');
}

/// Every group-box variant is found again from its name.
pub proof fn lemma_variant_name_round_trip(variant: GroupBoxVariant)
    ensures
        GroupBoxVariant::parse(variant.name()) == variant,
{
    reveal_strlit("normal");
    reveal_strlit("fill");
    reveal_strlit("outline");
    assert("normal"@.len() == 6);
    assert("fill"@.len() == 4);
    assert("outline"@.len() == 7);
}

/// The bounds and the step of a numeric field.
#[derive(Clone, Copy, Debug, PartialEq, Eq, Structural)]
pub struct NumberFieldOptions {
    /// The smallest value the field stores.
    pub min: Number,
    /// The largest value the field stores.
    pub max: Number,
    /// By how much one step of the control changes the value.
    pub step: Number,
}

impl NumberFieldOptions {
    /// Whether the bounds describe a non-empty interval.
    pub open spec fn valid(self) -> bool {
        self.min@ <= self.max@
    }

    /// Whether the bounds describe a non-empty interval.
    pub fn is_valid(&self) -> (valid: bool)
        ensures
            valid == self.valid(),
    {
        self.min.le(&self.max)
    }
}

impl NumberFieldOptions {
    /// The options of a field without bounds to speak of, stepping by one
    /// unit.
    pub open spec fn unbounded() -> NumberFieldOptions {
        NumberFieldOptions {
            min: Number { millis: i64::MIN },
            max: Number { millis: i64::MAX },
            step: Number::of(1),
        }
    }
}

impl Default for NumberFieldOptions {
    /// No bounds to speak of, and a step of one unit.
    fn default() -> (options: NumberFieldOptions)
        ensures
            options == NumberFieldOptions::unbounded(),
    {
        NumberFieldOptions { min: Number::lowest(), max: Number::highest(), step: Number::whole(1) }
    }
}

/// What a custom element is told when it is asked to draw itself.
#[derive(Clone, Copy, Debug, PartialEq, Eq, Structural)]
pub struct RenderOptions {
    /// The size of the controls of the surrounding view.
    pub size: Size,
    /// The variant of the surrounding group box.
    pub group_variant: GroupBoxVariant,
    /// The layout of the item that holds the element.
    pub layout: Axis,
}

} // verus!
