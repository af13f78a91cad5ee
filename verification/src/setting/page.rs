//! Pages: the groups shown together, with the flags that govern a reset.

use vstd::prelude::*;
use crate::setting::group::{GroupView, SettingGroup};
use crate::setting::state::{AppSettings, AppSettingsView};

verus! {

/// Why a reset is refused.
#[derive(Clone, Copy, Debug, PartialEq, Eq, Structural)]
pub enum ResetError {
    /// The page is not resettable.
    NotResettable,
    /// The registry has no page with that index.
    UnknownPage,
}

impl ResetError {
    /// The refusal in words.
    pub open spec fn text(self) -> Seq<char> {
        match self {
            ResetError::NotResettable => "page is not resettable"@,
            ResetError::UnknownPage => "page does not exist"@,
        }
    }

    /// The refusal in words.
    pub fn message(&self) -> (text: &'static str)
        ensures
            text@ == self.text(),
    {
        match self {
            ResetError::NotResettable => "page is not resettable",
            ResetError::UnknownPage => "page does not exist",
        }
    }
}

/// An ordered collection of groups under a title.
#[derive(Debug)]
pub struct SettingPage {
    title: String,
    resettable: bool,
    default_open: bool,
    groups: Vec<SettingGroup>,
}

/// The mathematical content of a [`SettingPage`].
pub struct PageView {
    pub title: Seq<char>,
    /// Whether the page may be reset.
    pub resettable: bool,
    /// Whether the page is the one shown first. A hint to the presentation.
    pub default_open: bool,
    pub groups: Seq<GroupView>,
}

/// The state that restoring the defaults of `groups` leaves behind: group
/// after group, the first group first.
pub open spec fn restore_groups(groups: Seq<GroupView>, state: AppSettingsView) -> AppSettingsView
    decreases groups.len(),
{
    if groups.len() == 0 {
        state
    } else {
        groups.last().restore(restore_groups(groups.drop_last(), state))
    }
}

/// Whether every group of `groups` is well formed.
pub open spec fn all_wf(groups: Seq<GroupView>) -> bool {
    forall|i: int| 0 <= i < groups.len() ==> (#[trigger] groups[i]).wf()
}

impl PageView {
    /// Whether every group of the page is well formed.
    pub open spec fn wf(self) -> bool {
        all_wf(self.groups)
    }

    /// Whether some item of the page holds, in `state`, another value than
    /// its declared default: whether a reset would change anything that the
    /// getters show.
    pub open spec fn modified(self, state: AppSettingsView) -> bool {
        exists|i: int| 0 <= i < self.groups.len() && (#[trigger] self.groups[i]).modified(state)
    }

    /// The state that restoring every default of the page leaves behind, in
    /// declaration order.
    pub open spec fn restore(self, state: AppSettingsView) -> AppSettingsView {
        restore_groups(self.groups, state)
    }
}

impl View for SettingPage {
    type V = PageView;

    closed spec fn view(&self) -> PageView {
        PageView {
            title: self.title@,
            resettable: self.resettable,
            default_open: self.default_open,
            groups: self.groups.deep_view(),
        }
    }
}

impl DeepView for SettingPage {
    type V = PageView;

    open spec fn deep_view(&self) -> PageView {
        self@
    }
}

impl SettingPage {
    /// A page titled `title`: resettable, not opened by default, without
    /// groups.
    pub fn new(title: &str) -> (page: SettingPage)
        ensures
            page@ == (PageView {
                title: title@,
                resettable: true,
                default_open: false,
                groups: Seq::empty(),
            }),
            page@.wf(),
    {
        let page = SettingPage {
            title: title.to_owned(),
            resettable: true,
            default_open: false,
            groups: Vec::new(),
        };
        assert(page.groups.deep_view() =~= Seq::empty());
        page
    }

    /// The same page, resettable or not.
    pub fn resettable(self, resettable: bool) -> (page: SettingPage)
        ensures
            page@ == (PageView { resettable, ..self@ }),
            self@.wf() ==> page@.wf(),
    {
        SettingPage {
            title: self.title,
            resettable,
            default_open: self.default_open,
            groups: self.groups,
        }
    }

    /// The same page, opened by default or not.
    pub fn default_open(self, default_open: bool) -> (page: SettingPage)
        ensures
            page@ == (PageView { default_open, ..self@ }),
            self@.wf() ==> page@.wf(),
    {
        SettingPage {
            title: self.title,
            resettable: self.resettable,
            default_open,
            groups: self.groups,
        }
    }

    /// The same page with `group` added after the groups it has.
    pub fn group(self, group: SettingGroup) -> (page: SettingPage)
        ensures
            page@ == (PageView { groups: self@.groups.push(group@), ..self@ }),
            self@.wf() && group@.wf() ==> page@.wf(),
    {
        let mut groups = self.groups;
        groups.push(group);
        assert(groups.deep_view() =~= self.groups.deep_view().push(group@));
        SettingPage {
            title: self.title,
            resettable: self.resettable,
            default_open: self.default_open,
            groups,
        }
    }

    /// The same page with `groups` added, in their order, after the groups
    /// it has.
    pub fn groups(self, groups: Vec<SettingGroup>) -> (page: SettingPage)
        ensures
            page@ == (PageView { groups: self@.groups + groups.deep_view(), ..self@ }),
            self@.wf() && all_wf(groups.deep_view()) ==> page@.wf(),
    {
        let mut all = self.groups;
        let mut more = groups;
        all.append(&mut more);
        assert(all.deep_view() =~= self.groups.deep_view() + groups.deep_view());
        SettingPage {
            title: self.title,
            resettable: self.resettable,
            default_open: self.default_open,
            groups: all,
        }
    }

    /// The title of the page.
    pub fn heading(&self) -> (title: &String)
        ensures
            title@ == self@.title,
    {
        &self.title
    }

    /// Whether the page may be reset.
    pub fn is_resettable(&self) -> (resettable: bool)
        ensures
            resettable == self@.resettable,
    {
        self.resettable
    }

    /// Whether the page is the one shown first.
    pub fn is_default_open(&self) -> (default_open: bool)
        ensures
            default_open == self@.default_open,
    {
        self.default_open
    }

    /// The groups of the page, in display order.
    pub fn sections(&self) -> (groups: &Vec<SettingGroup>)
        ensures
            groups.deep_view() == self@.groups,
    {
        &self.groups
    }

    /// Whether some item of the page holds, in `state`, another value than
    /// its declared default. Reads only.
    pub fn is_modified(&self, state: &AppSettings) -> (modified: bool)
        ensures
            modified == self@.modified(state@),
    {
        let mut i: usize = 0;
        while i < self.groups.len()
            invariant
                i <= self.groups.len(),
                forall|j: int| 0 <= j < i ==> !(#[trigger] self@.groups[j]).modified(state@),
            decreases self.groups.len() - i,
        {
            assert(self@.groups[i as int] == self.groups@[i as int]@);
            if self.groups[i].is_modified(state) {
                return true;
            }
            i += 1;
        }
        false
    }

    /// Restores every declared default of the page: group after group, item
    /// after item, each through the setter of its field.
    ///
    /// A page that is not resettable refuses, and `state` stays as it was.
    pub fn reset(&self, state: &mut AppSettings) -> (done: Result<(), ResetError>)
        ensures
            done is Ok <==> self@.resettable,
            done is Ok ==> final(state)@ == self@.restore(old(state)@),
            done matches Err(error) ==> error == ResetError::NotResettable && final(state)@ == old(
                state,
            )@,
    {
        if !self.resettable {
            return Err(ResetError::NotResettable);
        }
        let ghost groups = self.groups.deep_view();
        let mut i: usize = 0;
        while i < self.groups.len()
            invariant
                i <= self.groups.len(),
                groups == self.groups.deep_view(),
                state@ == restore_groups(groups.take(i as int), old(state)@),
            decreases self.groups.len() - i,
        {
            proof {
                assert(groups.take(i + 1).drop_last() =~= groups.take(i as int));
                assert(groups.take(i + 1).last() == self.groups@[i as int]@);
            }
            self.groups[i].reset(state);
            i += 1;
        }
        proof {
            assert(groups.take(i as int) =~= groups);
        }
        Ok(())
    }
}

} // verus!
