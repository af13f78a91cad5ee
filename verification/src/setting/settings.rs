//! The registry: every page of one settings view, with the presentation
//! choices that hold for all of them.

use vstd::prelude::*;
use crate::setting::options::{GroupBoxVariant, Size};
use crate::setting::page::{PageView, ResetError, SettingPage};
use crate::setting::state::{AppSettings, AppSettingsView};

verus! {

/// The root of a settings view: its pages in display order and its
/// presentation choices.
///
/// A registry is built afresh for every pass of the presentation. It holds
/// no settings values: fields reach the live state through their accessors,
/// on the state that the caller hands in.
#[derive(Debug)]
pub struct Settings {
    id: String,
    size: Size,
    group_variant: GroupBoxVariant,
    pages: Vec<SettingPage>,
}

/// The mathematical content of a [`Settings`] registry.
pub struct SettingsView {
    pub id: Seq<char>,
    /// The size of the controls. Cosmetic.
    pub size: Size,
    /// How group boxes are drawn. Cosmetic.
    pub group_variant: GroupBoxVariant,
    pub pages: Seq<PageView>,
}

/// Whether every page of `pages` is well formed.
pub open spec fn all_wf(pages: Seq<PageView>) -> bool {
    forall|i: int| 0 <= i < pages.len() ==> (#[trigger] pages[i]).wf()
}

impl SettingsView {
    /// Whether every page of the registry is well formed.
    pub open spec fn wf(self) -> bool {
        all_wf(self.pages)
    }

    /// Whether a reset of page `page` is carried out: the page exists and is
    /// resettable.
    pub open spec fn resets(self, page: int) -> bool {
        0 <= page < self.pages.len() && self.pages[page].resettable
    }

    /// Why a reset of page `page` is refused, where it is: the page does
    /// not exist, or else it is not resettable.
    pub open spec fn refusal(self, page: int) -> ResetError {
        if 0 <= page < self.pages.len() {
            ResetError::NotResettable
        } else {
            ResetError::UnknownPage
        }
    }

    /// The state that a reset of page `page` leaves behind: the defaults of
    /// that page restored where the reset is carried out, `state` itself
    /// where it is refused.
    pub open spec fn reset(self, page: int, state: AppSettingsView) -> AppSettingsView {
        if self.resets(page) {
            self.pages[page].restore(state)
        } else {
            state
        }
    }
}

impl View for Settings {
    type V = SettingsView;

    closed spec fn view(&self) -> SettingsView {
        SettingsView {
            id: self.id@,
            size: self.size,
            group_variant: self.group_variant,
            pages: self.pages.deep_view(),
        }
    }
}

impl Settings {
    /// An empty registry named `id`, with controls of medium size and plain
    /// group boxes.
    pub fn new(id: &str) -> (settings: Settings)
        ensures
            settings@ == (SettingsView {
                id: id@,
                size: Size::Medium,
                group_variant: GroupBoxVariant::Normal,
                pages: Seq::empty(),
            }),
            settings@.wf(),
    {
        let settings = Settings {
            id: id.to_owned(),
            size: Size::Medium,
            group_variant: GroupBoxVariant::Normal,
            pages: Vec::new(),
        };
        assert(settings.pages.deep_view() =~= Seq::empty());
        settings
    }

    /// The same registry with controls of size `size`. Pages and fields are
    /// untouched.
    pub fn with_size(self, size: Size) -> (settings: Settings)
        ensures
            settings@ == (SettingsView { size, ..self@ }),
            self@.wf() ==> settings@.wf(),
    {
        Settings { id: self.id, size, group_variant: self.group_variant, pages: self.pages }
    }

    /// The same registry with group boxes drawn as `variant`. Pages and
    /// fields are untouched.
    pub fn with_group_variant(self, variant: GroupBoxVariant) -> (settings: Settings)
        ensures
            settings@ == (SettingsView { group_variant: variant, ..self@ }),
            self@.wf() ==> settings@.wf(),
    {
        Settings { id: self.id, size: self.size, group_variant: variant, pages: self.pages }
    }

    /// The same registry with `page` added after the pages it has.
    pub fn page(self, page: SettingPage) -> (settings: Settings)
        ensures
            settings@ == (SettingsView { pages: self@.pages.push(page@), ..self@ }),
            self@.wf() && page@.wf() ==> settings@.wf(),
    {
        let mut pages = self.pages;
        pages.push(page);
        assert(pages.deep_view() =~= self.pages.deep_view().push(page@));
        Settings { id: self.id, size: self.size, group_variant: self.group_variant, pages }
    }

    /// The same registry with `pages` added, in their order, after the pages
    /// it has.
    pub fn pages(self, pages: Vec<SettingPage>) -> (settings: Settings)
        ensures
            settings@ == (SettingsView { pages: self@.pages + pages.deep_view(), ..self@ }),
            self@.wf() && all_wf(pages.deep_view()) ==> settings@.wf(),
    {
        let mut all = self.pages;
        let mut more = pages;
        all.append(&mut more);
        assert(all.deep_view() =~= self.pages.deep_view() + pages.deep_view());
        Settings { id: self.id, size: self.size, group_variant: self.group_variant, pages: all }
    }

    /// The name of the registry.
    pub fn id(&self) -> (id: &String)
        ensures
            id@ == self@.id,
    {
        &self.id
    }

    /// The size of the controls.
    pub fn size(&self) -> (size: Size)
        ensures
            size == self@.size,
    {
        self.size
    }

    /// How group boxes are drawn.
    pub fn group_variant(&self) -> (variant: GroupBoxVariant)
        ensures
            variant == self@.group_variant,
    {
        self.group_variant
    }

    /// The pages of the registry, in display order.
    pub fn entries(&self) -> (pages: &Vec<SettingPage>)
        ensures
            pages.deep_view() == self@.pages,
    {
        &self.pages
    }

    /// Resets the page with index `page`: every item of every group of that
    /// page, in declaration order, has its declared default written through
    /// its setter. Custom elements are passed over, and no slot is written
    /// that no item of the page is bound to.
    ///
    /// A page that does not exist or is not resettable refuses, and `state`
    /// stays as it was.
    pub fn reset(&self, page: usize, state: &mut AppSettings) -> (done: Result<(), ResetError>)
        ensures
            done is Ok <==> self@.resets(page as int),
            done matches Err(error) ==> error == self@.refusal(page as int),
            final(state)@ == self@.reset(page as int, old(state)@),
            done is Err ==> final(state)@ == old(state)@,
    {
        if page >= self.pages.len() {
            return Err(ResetError::UnknownPage);
        }
        self.pages[page].reset(state)
    }
}

} // verus!
