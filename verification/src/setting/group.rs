//! Groups: the items under one title, in display order.

use vstd::prelude::*;
use crate::setting::item::{ItemView, SettingItem};
use crate::setting::state::{AppSettings, AppSettingsView};

verus! {

/// An ordered collection of items under an optional title.
#[derive(Debug)]
pub struct SettingGroup {
    title: Option<String>,
    items: Vec<SettingItem>,
}

/// The mathematical content of a [`SettingGroup`].
pub struct GroupView {
    pub title: Option<Seq<char>>,
    pub items: Seq<ItemView>,
}

/// The state that restoring the defaults of `items` leaves behind: each
/// item's default is written in turn, the first item first.
pub open spec fn restore_items(items: Seq<ItemView>, state: AppSettingsView) -> AppSettingsView
    decreases items.len(),
{
    if items.len() == 0 {
        state
    } else {
        items.last().restore(restore_items(items.drop_last(), state))
    }
}

/// Whether every item of `items` is well formed.
pub open spec fn all_wf(items: Seq<ItemView>) -> bool {
    forall|i: int| 0 <= i < items.len() ==> (#[trigger] items[i]).wf()
}

impl GroupView {
    /// Whether every item of the group is well formed.
    pub open spec fn wf(self) -> bool {
        all_wf(self.items)
    }

    /// Whether some item of the group holds, in `state`, another value than
    /// its declared default.
    pub open spec fn modified(self, state: AppSettingsView) -> bool {
        exists|i: int| 0 <= i < self.items.len() && (#[trigger] self.items[i]).differs(state)
    }

    /// The state that restoring the defaults of the group leaves behind.
    pub open spec fn restore(self, state: AppSettingsView) -> AppSettingsView {
        restore_items(self.items, state)
    }
}

impl View for SettingGroup {
    type V = GroupView;

    closed spec fn view(&self) -> GroupView {
        GroupView { title: self.title.deep_view(), items: self.items.deep_view() }
    }
}

impl DeepView for SettingGroup {
    type V = GroupView;

    open spec fn deep_view(&self) -> GroupView {
        self@
    }
}

impl SettingGroup {
    /// A group without title and without items.
    pub fn new() -> (group: SettingGroup)
        ensures
            group@ == (GroupView { title: None, items: Seq::empty() }),
            group@.wf(),
    {
        let group = SettingGroup { title: None, items: Vec::new() };
        assert(group.items.deep_view() =~= Seq::empty());
        group
    }

    /// The same group under the title `title`.
    pub fn title(self, title: &str) -> (group: SettingGroup)
        ensures
            group@ == (GroupView { title: Some(title@), ..self@ }),
            self@.wf() ==> group@.wf(),
    {
        SettingGroup { title: Some(title.to_owned()), items: self.items }
    }

    /// The same group with `item` added after the items it has.
    pub fn item(self, item: SettingItem) -> (group: SettingGroup)
        ensures
            group@ == (GroupView { items: self@.items.push(item@), ..self@ }),
            self@.wf() && item@.wf() ==> group@.wf(),
    {
        let mut items = self.items;
        items.push(item);
        assert(items.deep_view() =~= self.items.deep_view().push(item@));
        SettingGroup { title: self.title, items }
    }

    /// The same group with `items` added, in their order, after the items it
    /// has.
    pub fn items(self, items: Vec<SettingItem>) -> (group: SettingGroup)
        ensures
            group@ == (GroupView { items: self@.items + items.deep_view(), ..self@ }),
            self@.wf() && all_wf(items.deep_view()) ==> group@.wf(),
    {
        let mut all = self.items;
        let mut more = items;
        all.append(&mut more);
        assert(all.deep_view() =~= self.items.deep_view() + items.deep_view());
        SettingGroup { title: self.title, items: all }
    }

    /// The title of the group, where it has one.
    pub fn heading(&self) -> (title: Option<&String>)
        ensures
            title.deep_view() == self@.title,
    {
        self.title.as_ref()
    }

    /// The items of the group, in display order.
    pub fn rows(&self) -> (items: &Vec<SettingItem>)
        ensures
            items.deep_view() == self@.items,
    {
        &self.items
    }

    /// Whether some item of the group holds, in `state`, another value than
    /// its declared default. Reads only.
    pub fn is_modified(&self, state: &AppSettings) -> (modified: bool)
        ensures
            modified == self@.modified(state@),
    {
        let mut i: usize = 0;
        while i < self.items.len()
            invariant
                i <= self.items.len(),
                forall|j: int| 0 <= j < i ==> !(#[trigger] self@.items[j]).differs(state@),
            decreases self.items.len() - i,
        {
            assert(self@.items[i as int] == self.items@[i as int]@);
            if self.items[i].is_modified(state) {
                return true;
            }
            i += 1;
        }
        false
    }

    /// Restores the default of every item of the group, the first item
    /// first.
    pub fn reset(&self, state: &mut AppSettings)
        ensures
            final(state)@ == self@.restore(old(state)@),
    {
        let ghost items = self.items.deep_view();
        let mut i: usize = 0;
        while i < self.items.len()
            invariant
                i <= self.items.len(),
                items == self.items.deep_view(),
                state@ == restore_items(items.take(i as int), old(state)@),
            decreases self.items.len() - i,
        {
            proof {
                assert(items.take(i + 1).drop_last() =~= items.take(i as int));
                assert(items.take(i + 1).last() == self.items@[i as int]@);
            }
            self.items[i].reset(state);
            i += 1;
        }
        proof {
            assert(items.take(i as int) =~= items);
        }
    }
}

} // verus!
