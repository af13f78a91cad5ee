//! What holds of every field, every page and every reset.
//!
//! The laws are stated over the mathematical content of the types, which is
//! what the contracts of the executable functions speak of.

use vstd::prelude::*;
use crate::setting::field::{offers, ControlView, FieldView};
use crate::setting::group::{restore_items, GroupView};
use crate::setting::item::ItemView;
use crate::setting::number::clamp;
use crate::setting::page::{restore_groups, PageView};
use crate::setting::settings::SettingsView;
use crate::setting::state::{Accessor, AppSettingsView};
use crate::setting::value::ValueView;

verus! {

/// Whether no item of `items` after the one at `from` is bound to the slot of
/// `accessor`.
pub open spec fn unbound_after(items: Seq<ItemView>, from: int, accessor: Accessor) -> bool {
    forall|j: int| from < j < items.len() ==> !(#[trigger] items[j]).binds(accessor)
}

impl GroupView {
    /// Whether no item of the group is bound to the slot of `accessor`.
    pub open spec fn unbound(self, accessor: Accessor) -> bool {
        unbound_after(self.items, -1, accessor)
    }
}

/// Whether no item of a group of `groups` after the one at `from` is bound
/// to the slot of `accessor`.
pub open spec fn groups_unbound_after(groups: Seq<GroupView>, from: int, accessor: Accessor) -> bool {
    forall|h: int| from < h < groups.len() ==> (#[trigger] groups[h]).unbound(accessor)
}

impl PageView {
    /// Whether no item of the page is bound to the slot of `accessor`.
    pub open spec fn unbound(self, accessor: Accessor) -> bool {
        groups_unbound_after(self.groups, -1, accessor)
    }

    /// Whether the item `item` of the group `group` is the last of the page,
    /// in declaration order, that is bound to the slot of `accessor`.
    pub open spec fn binds_last(self, group: int, item: int, accessor: Accessor) -> bool {
        &&& 0 <= group < self.groups.len()
        &&& 0 <= item < self.groups[group].items.len()
        &&& self.groups[group].items[item].binds(accessor)
        &&& unbound_after(self.groups[group].items, item, accessor)
        &&& groups_unbound_after(self.groups, group, accessor)
    }
}

/// Writing one slot leaves every other slot as it was.
pub proof fn lemma_write_other_slot(
    state: AppSettingsView,
    written: Accessor,
    value: ValueView,
    read: Accessor,
)
    requires
        written != read,
    ensures
        state.write(written, value).read(read) == state.read(read),
{
}

/// Writing a value of the slot's kind, then reading the slot, gives the
/// value back.
pub proof fn lemma_write_same_slot(state: AppSettingsView, accessor: Accessor, value: ValueView)
    requires
        value.kind() == accessor.spec_kind(),
    ensures
        state.write(accessor, value).read(accessor) == value,
{
}

/// Write-then-read consistency: the getter, right after the setter has
/// stored a value, returns that value; for a numeric field it returns the
/// value clamped to the field's bounds.
pub proof fn lemma_write_then_read(field: FieldView, state: AppSettingsView, value: ValueView)
    requires
        field.takes(value),
    ensures
        field.read(field.write(state, value)) == field.control.accept(value),
        !(field.control is NumberInput) ==> field.read(field.write(state, value)) == Some(value),
        field.control matches ControlView::NumberInput(options) ==> value matches ValueView::Number(
            n,
        ) && field.read(field.write(state, value)) == Some(
            ValueView::Number(clamp(n, options.min@, options.max@)),
        ),
{
}

/// A numeric field saturates: every value below the lower bound is
/// stored as the lower bound is, and every value above the upper bound as
/// the upper bound is.
pub proof fn lemma_number_input_saturates(field: FieldView, state: AppSettingsView, value: int)
    requires
        field.wf(),
        field.control is NumberInput,
    ensures
        value < field.control->NumberInput_0.min@ ==> field.write(state, ValueView::Number(value))
            == field.write(state, ValueView::Number(field.control->NumberInput_0.min@)),
        value > field.control->NumberInput_0.max@ ==> field.write(state, ValueView::Number(value))
            == field.write(state, ValueView::Number(field.control->NumberInput_0.max@)),
{
}

/// What a numeric field stores lies within its bounds, whatever it is given.
pub proof fn lemma_number_input_stays_in_bounds(
    field: FieldView,
    state: AppSettingsView,
    value: int,
)
    requires
        field.wf(),
        field.control is NumberInput,
    ensures
        field.read(field.write(state, ValueView::Number(value))) matches Some(
            ValueView::Number(stored),
        ) && field.control->NumberInput_0.min@ <= stored <= field.control->NumberInput_0.max@,
{
}

/// A dropdown ignores a value that is not among its options: nothing is
/// stored and the state is as before.
pub proof fn lemma_dropdown_ignores_unlisted(
    field: FieldView,
    state: AppSettingsView,
    text: Seq<char>,
)
    requires
        field.control matches ControlView::Dropdown(options) && !offers(options, text),
    ensures
        !field.takes(ValueView::Text(text)),
        field.write(state, ValueView::Text(text)) == state,
{
}

/// A setter that stores nothing changes nothing.
pub proof fn lemma_refused_write_changes_nothing(
    field: FieldView,
    state: AppSettingsView,
    value: ValueView,
)
    requires
        !field.takes(value),
    ensures
        field.write(state, value) == state,
{
}

/// Restoring the default of an item leaves every slot as it was that the
/// item is not bound to.
pub proof fn lemma_item_restore_frame(item: ItemView, state: AppSettingsView, accessor: Accessor)
    requires
        !item.binds(accessor),
    ensures
        item.restore(state).read(accessor) == state.read(accessor),
{
}

/// Restoring the defaults of items leaves every slot as it was that none of
/// them is bound to.
pub proof fn lemma_items_restore_frame(
    items: Seq<ItemView>,
    state: AppSettingsView,
    accessor: Accessor,
)
    requires
        unbound_after(items, -1, accessor),
    ensures
        restore_items(items, state).read(accessor) == state.read(accessor),
    decreases items.len(),
{
    if items.len() > 0 {
        let front = items.drop_last();
        assert forall|j: int| -1 < j < front.len() implies !(#[trigger] front[j]).binds(
            accessor,
        ) by {
            assert(front[j] == items[j]);
        }
        lemma_items_restore_frame(front, state, accessor);
        lemma_item_restore_frame(items.last(), restore_items(front, state), accessor);
    }
}

/// Restoring the defaults of groups leaves every slot as it was that none
/// of their items is bound to.
pub proof fn lemma_groups_restore_frame(
    groups: Seq<GroupView>,
    state: AppSettingsView,
    accessor: Accessor,
)
    requires
        groups_unbound_after(groups, -1, accessor),
    ensures
        restore_groups(groups, state).read(accessor) == state.read(accessor),
    decreases groups.len(),
{
    if groups.len() > 0 {
        let front = groups.drop_last();
        assert forall|h: int| -1 < h < front.len() implies (#[trigger] front[h]).unbound(
            accessor,
        ) by {
            assert(front[h] == groups[h]);
        }
        lemma_groups_restore_frame(front, state, accessor);
        lemma_items_restore_frame(groups.last().items, restore_groups(front, state), accessor);
    }
}

/// Within a list of items the last one bound to a slot decides its value:
/// where that item keeps its default, the slot holds the default after the
/// defaults of all items are restored.
pub proof fn lemma_items_last_declared_wins(
    items: Seq<ItemView>,
    state: AppSettingsView,
    item: int,
    accessor: Accessor,
)
    requires
        0 <= item < items.len(),
        items[item].binds(accessor),
        items[item].keeps_default(),
        unbound_after(items, item, accessor),
    ensures
        Some(restore_items(items, state).read(accessor)) == items[item].default_value(),
    decreases items.len(),
{
    let front = items.drop_last();
    let before = restore_items(front, state);
    if item == items.len() - 1 {
        let field = items[item]->Field_field;
        lemma_write_then_read(field, before, field.default_value->0);
    } else {
        assert(front[item] == items[item]);
        assert forall|j: int| item < j < front.len() implies !(#[trigger] front[j]).binds(
            accessor,
        ) by {
            assert(front[j] == items[j]);
        }
        lemma_items_last_declared_wins(front, state, item, accessor);
        lemma_item_restore_frame(items.last(), before, accessor);
    }
}

/// Last declared wins: where several items of a page are bound to one slot,
/// the one declared last decides. After the page's defaults are restored the
/// slot holds the default of that item, provided the item keeps its default,
/// and whatever the state was before.
pub proof fn lemma_last_declared_wins(
    page: PageView,
    state: AppSettingsView,
    group: int,
    item: int,
    accessor: Accessor,
)
    requires
        page.binds_last(group, item, accessor),
        page.groups[group].items[item].keeps_default(),
    ensures
        Some(page.restore(state).read(accessor)) == page.groups[group].items[item].default_value(),
{
    lemma_groups_last_declared_wins(page.groups, state, group, item, accessor);
}

/// The induction over the groups of a page behind
/// [`lemma_last_declared_wins`].
pub proof fn lemma_groups_last_declared_wins(
    groups: Seq<GroupView>,
    state: AppSettingsView,
    group: int,
    item: int,
    accessor: Accessor,
)
    requires
        0 <= group < groups.len(),
        0 <= item < groups[group].items.len(),
        groups[group].items[item].binds(accessor),
        groups[group].items[item].keeps_default(),
        unbound_after(groups[group].items, item, accessor),
        groups_unbound_after(groups, group, accessor),
    ensures
        Some(restore_groups(groups, state).read(accessor)) == groups[group].items[item].default_value(),
    decreases groups.len(),
{
    let front = groups.drop_last();
    let before = restore_groups(front, state);
    if group == groups.len() - 1 {
        lemma_items_last_declared_wins(groups[group].items, before, item, accessor);
    } else {
        assert(front[group] == groups[group]);
        assert forall|h: int| group < h < front.len() implies (#[trigger] front[h]).unbound(
            accessor,
        ) by {
            assert(front[h] == groups[h]);
        }
        lemma_groups_last_declared_wins(front, state, group, item, accessor);
        assert(groups.last() == groups[groups.len() - 1]);
        lemma_items_restore_frame(groups.last().items, before, accessor);
    }
}

/// After a page is reset, the getter of an item returns exactly the item's
/// declared default, whatever the state was before: for every item that
/// holds a value, keeps its default, and is the last of the page bound to
/// its slot.
pub proof fn lemma_reset_restores_default(
    page: PageView,
    state: AppSettingsView,
    group: int,
    item: int,
)
    requires
        0 <= group < page.groups.len(),
        0 <= item < page.groups[group].items.len(),
        page.groups[group].items[item].keeps_default(),
        page.binds_last(group, item, page.groups[group].items[item].accessor()->0),
    ensures
        page.groups[group].items[item].read(page.restore(state)) == page.groups[group].items[item].default_value(),
{
    let row = page.groups[group].items[item];
    lemma_last_declared_wins(page, state, group, item, row.accessor()->0);
}

impl PageView {
    /// Whether a reset of the page restores every default exactly: every
    /// item that holds a value keeps its default and is the last of the
    /// page bound to its slot. So it is where no slot is bound twice and
    /// every default passes its own setter unchanged.
    pub open spec fn restores_exactly(self) -> bool {
        forall|group: int, item: int|
            0 <= group < self.groups.len() && 0 <= item < self.groups[group].items.len() && (
            #[trigger] self.groups[group].items[item]).accessor() is Some
                ==> self.groups[group].items[item].keeps_default() && self.binds_last(
                group,
                item,
                self.groups[group].items[item].accessor()->0,
            )
    }
}

/// After a reset of a page that restores every default exactly, no item of
/// the page holds another value than its default: nothing is left to reset.
pub proof fn lemma_reset_leaves_nothing_modified(page: PageView, state: AppSettingsView)
    requires
        page.restores_exactly(),
    ensures
        !page.modified(page.restore(state)),
{
    let after = page.restore(state);
    assert forall|group: int| 0 <= group < page.groups.len() implies !(
    #[trigger] page.groups[group]).modified(after) by {
        assert forall|item: int| 0 <= item < page.groups[group].items.len() implies !(
        #[trigger] page.groups[group].items[item]).differs(after) by {
            if page.groups[group].items[item].accessor() is Some {
                lemma_reset_restores_default(page, state, group, item);
            }
        }
    }
}

/// A reset touches nothing outside the page: a slot that no item of the
/// page is bound to holds after the reset what it held before.
pub proof fn lemma_reset_frame(page: PageView, state: AppSettingsView, accessor: Accessor)
    requires
        page.unbound(accessor),
    ensures
        page.restore(state).read(accessor) == state.read(accessor),
{
    lemma_groups_restore_frame(page.groups, state, accessor);
}

/// A reset that is refused, because the page does not exist or is not
/// resettable, leaves every value unchanged.
pub proof fn lemma_refused_reset_changes_nothing(
    settings: SettingsView,
    page: int,
    state: AppSettingsView,
)
    requires
        !settings.resets(page),
    ensures
        settings.reset(page, state) == state,
{
}

/// The presentation choices are cosmetic: a registry with other choices
/// carries out the same resets and leaves the same state behind.
pub proof fn lemma_presentation_is_cosmetic(
    settings: SettingsView,
    other: SettingsView,
    page: int,
    state: AppSettingsView,
)
    requires
        other.pages == settings.pages,
    ensures
        other.resets(page) == settings.resets(page),
        other.reset(page, state) == settings.reset(page, state),
{
}

} // verus!
